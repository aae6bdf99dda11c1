use crate::addr::Addr;
use crate::state::{Pot, PotView, ProjectState, ProjectStateView};
use vstd::prelude::*;

verus! {

/// What a ledger is set up with.
///
/// Each address stands here as the host judged it: `None` where the host did
/// not accept the string as an identity. For `admin`, `None` also stands for
/// no request at all.
#[derive(Debug, PartialEq, Eq)]
pub struct InstantiateMsg {
    pub admin: Option<Addr>,
    pub cw20_addr: Option<Addr>,
}

/// What an `InstantiateMsg` holds.
pub struct InstantiateMsgView {
    pub admin: Option<Seq<char>>,
    pub cw20_addr: Option<Seq<char>>,
}

/// What an address holds that the host may have turned down.
pub open spec fn judged_view(addr: Option<Addr>) -> Option<Seq<char>> {
    match addr {
        Some(a) => Some(a@),
        None => None,
    }
}

impl View for InstantiateMsg {
    type V = InstantiateMsgView;

    open spec fn view(&self) -> InstantiateMsgView {
        InstantiateMsgView {
            admin: judged_view(self.admin),
            cw20_addr: judged_view(self.cw20_addr),
        }
    }
}

/// What the token contract sends along with a deposit.
#[derive(Clone, Copy, Debug, PartialEq, Eq, Structural)]
pub enum ReceiveMsg {
    /// The deposit is for the pot `id`.
    Send { id: u128 },
}

/// The token contract's notice of a deposit: `sender` handed it `amount`
/// tokens for this ledger. `msg` is the decoded payload, `None` where the
/// payload could not be decoded.
#[derive(Debug, PartialEq, Eq)]
pub struct Cw20ReceiveMsg {
    pub sender: String,
    pub amount: u128,
    pub msg: Option<ReceiveMsg>,
}

/// What a `Cw20ReceiveMsg` holds.
pub struct Cw20ReceiveMsgView {
    pub sender: Seq<char>,
    pub amount: u128,
    pub msg: Option<ReceiveMsg>,
}

impl View for Cw20ReceiveMsg {
    type V = Cw20ReceiveMsgView;

    open spec fn view(&self) -> Cw20ReceiveMsgView {
        Cw20ReceiveMsgView { sender: self.sender@, amount: self.amount, msg: self.msg }
    }
}

/// The operations that change a ledger.
///
/// `target_addr` stands as the host judged it: `None` where the host did not
/// accept the string as an identity.
#[derive(Debug, PartialEq, Eq)]
pub enum ExecuteMsg {
    CreatePot { target_addr: Option<Addr>, threshold: u128 },
    Receive(Cw20ReceiveMsg),
    AddProject {
        project_id: u128,
        project_name: String,
        project_wallet: String,
        creator_wallet: String,
        project_website: String,
        project_about: String,
        project_email: String,
        project_ecosystem: String,
        project_category: String,
    },
    Back2Project { project_id: u128, backer_wallet: String },
}

/// What an `ExecuteMsg` holds.
pub enum ExecuteMsgView {
    CreatePot { target_addr: Option<Seq<char>>, threshold: u128 },
    Receive(Cw20ReceiveMsgView),
    AddProject {
        project_id: u128,
        project_name: Seq<char>,
        project_wallet: Seq<char>,
        creator_wallet: Seq<char>,
        project_website: Seq<char>,
        project_about: Seq<char>,
        project_email: Seq<char>,
        project_ecosystem: Seq<char>,
        project_category: Seq<char>,
    },
    Back2Project { project_id: u128, backer_wallet: Seq<char> },
}

/// The project that is stored when one is added: nothing collected, no backer.
pub open spec fn new_project(
    project_id: u128,
    project_name: Seq<char>,
    project_wallet: Seq<char>,
    creator_wallet: Seq<char>,
    project_website: Seq<char>,
    project_about: Seq<char>,
    project_email: Seq<char>,
    project_ecosystem: Seq<char>,
    project_category: Seq<char>,
) -> ProjectStateView {
    ProjectStateView {
        project_id,
        project_name,
        project_wallet,
        project_collected: 0,
        creator_wallet,
        project_website,
        project_about,
        project_email,
        project_ecosystem,
        project_category,
        backer_states: seq![],
    }
}

impl View for ExecuteMsg {
    type V = ExecuteMsgView;

    open spec fn view(&self) -> ExecuteMsgView {
        match self {
            ExecuteMsg::CreatePot { target_addr, threshold } => ExecuteMsgView::CreatePot {
                target_addr: judged_view(*target_addr),
                threshold: *threshold,
            },
            ExecuteMsg::Receive(wrapped) => ExecuteMsgView::Receive(wrapped@),
            ExecuteMsg::AddProject {
                project_id,
                project_name,
                project_wallet,
                creator_wallet,
                project_website,
                project_about,
                project_email,
                project_ecosystem,
                project_category,
            } => ExecuteMsgView::AddProject {
                project_id: *project_id,
                project_name: project_name@,
                project_wallet: project_wallet@,
                creator_wallet: creator_wallet@,
                project_website: project_website@,
                project_about: project_about@,
                project_email: project_email@,
                project_ecosystem: project_ecosystem@,
                project_category: project_category@,
            },
            ExecuteMsg::Back2Project { project_id, backer_wallet } => ExecuteMsgView::Back2Project {
                project_id: *project_id,
                backer_wallet: backer_wallet@,
            },
        }
    }
}

/// The questions that a ledger answers.
#[derive(Clone, Copy, Debug, PartialEq, Eq, Structural)]
pub enum QueryMsg {
    GetPot { id: u128 },
    GetProject { id: u128 },
}

/// The answer to a `QueryMsg`: a copy of what is stored.
#[derive(Debug, PartialEq, Eq)]
pub enum QueryResponse {
    Pot(Pot),
    Project(ProjectState),
}

/// What a `QueryResponse` holds.
pub enum QueryResponseView {
    Pot(PotView),
    Project(ProjectStateView),
}

impl View for QueryResponse {
    type V = QueryResponseView;

    open spec fn view(&self) -> QueryResponseView {
        match self {
            QueryResponse::Pot(pot) => QueryResponseView::Pot(pot@),
            QueryResponse::Project(project) => QueryResponseView::Project(project@),
        }
    }
}

} // verus!
