use crate::addr::Addr;
use crate::decimal::{decimal, decimal_string};
use crate::error::ContractError;
use crate::laws::{step, Call};
use crate::ledger::{save_pot, Ledger};
use crate::model::{
    ended_as, payout, spec_execute, spec_execute_create_pot, spec_execute_receive,
    spec_instantiate, spec_query, spec_receive_send, spec_try_addproject, spec_try_back2project,
    Answer, Outcome,
};
use crate::msg::{
    judged_view, new_project, Cw20ReceiveMsg, ExecuteMsg, InstantiateMsg, QueryMsg,
    QueryResponse, ReceiveMsg,
};
use crate::response::{attr, Instruction, Response};
use crate::state::{BackerState, BackerStateView, Config, Pot, ProjectState};
use crate::types::{clone_coins, MessageInfo};
use vstd::prelude::*;

verus! {

/// Sets up a ledger.
///
/// The token contract of `msg` must be an identity. The owner is the admin
/// that `msg` asks for, where it names one that is an identity, and else the
/// sender of the message.
pub fn instantiate(info: MessageInfo, msg: InstantiateMsg) -> (result: Result<
    (Ledger, Response),
    ContractError,
>)
    ensures
        match result {
            Ok((ledger, response)) => {
                &&& spec_instantiate(info@, msg@) == Outcome::Ok((ledger@, response@))
                &&& ledger@.wf()
            },
            Err(e) => spec_instantiate(info@, msg@) == Outcome::Err(e),
        },
{
    let owner = match msg.admin {
        Some(admin) => admin,
        None => info.sender,
    };
    let cw20_addr = match msg.cw20_addr {
        None => {
            return Err(ContractError::InvalidAddress);
        },
        Some(addr) => addr,
    };
    let response = Response::new().add_attribute("method", "instantiate").add_attribute(
        "owner",
        owner.as_str(),
    ).add_attribute("cw20_addr", cw20_addr.as_str());
    let ledger = Ledger::open(Config { owner, cw20_addr }, 0);
    proof {
        let expected = spec_instantiate(info@, msg@)->Ok_0.1;
        assert(response@.attributes =~= expected.attributes);
        assert(response@.messages =~= expected.messages);
    }
    Ok((ledger, response))
}

/// Carries out one operation on the ledger.
pub fn execute(ledger: &mut Ledger, info: MessageInfo, msg: ExecuteMsg) -> (result: Result<
    Response,
    ContractError,
>)
    ensures
        ended_as(spec_execute(old(ledger)@, info@, msg@), old(ledger)@, final(ledger)@, result),
        final(ledger)@ == step(old(ledger)@, (Call { info: info@, msg: msg@ })),
        final(ledger)@.wf(),
{
    match msg {
        ExecuteMsg::CreatePot { target_addr, threshold } => execute_create_pot(
            ledger,
            info,
            target_addr,
            threshold,
        ),
        ExecuteMsg::Receive(wrapped) => execute_receive(ledger, info, wrapped),
        ExecuteMsg::AddProject {
            project_id,
            project_name,
            project_wallet,
            creator_wallet,
            project_website,
            project_about,
            project_email,
            project_ecosystem,
            project_category,
        } => try_addproject(
            ledger,
            project_id,
            project_name,
            project_wallet,
            creator_wallet,
            project_website,
            project_about,
            project_email,
            project_ecosystem,
            project_category,
        ),
        ExecuteMsg::Back2Project { project_id, backer_wallet } => try_back2project(
            ledger,
            info,
            project_id,
            backer_wallet,
        ),
    }
}

/// Registers a project under `project_id`, with nothing collected and no
/// backer. Anyone may register a project, but an id is taken once and for
/// all.
pub fn try_addproject(
    ledger: &mut Ledger,
    project_id: u128,
    project_name: String,
    project_wallet: String,
    creator_wallet: String,
    project_website: String,
    project_about: String,
    project_email: String,
    project_ecosystem: String,
    project_category: String,
) -> (result: Result<Response, ContractError>)
    ensures
        ended_as(
            spec_try_addproject(
                old(ledger)@,
                new_project(
                    project_id,
                    project_name@,
                    project_wallet@,
                    creator_wallet@,
                    project_website@,
                    project_about@,
                    project_email@,
                    project_ecosystem@,
                    project_category@,
                ),
            ),
            old(ledger)@,
            final(ledger)@,
            result,
        ),
        old(ledger)@.projects.contains_key(project_id) ==> {
            &&& result matches Err(e)
            &&& e == ContractError::AlreadyRegistered
            &&& final(ledger)@ == old(ledger)@
        },
        final(ledger)@.wf(),
{
    if ledger.project(project_id).is_some() {
        return Err(ContractError::AlreadyRegistered);
    }
    let new_project = ProjectState {
        project_id,
        project_name,
        project_wallet,
        project_collected: 0,
        creator_wallet,
        project_website,
        project_about,
        project_email,
        project_ecosystem,
        project_category,
        backer_states: Vec::new(),
    };
    assert(new_project@.backer_states =~= seq![]);
    ledger.put_project(new_project);
    Ok(Response::new().add_attribute("action", "add project"))
}

/// Backs the project `project_id` with the funds of `info`, in the name of
/// `backer_wallet`.
///
/// The project must exist, and funds must have come with the message. The
/// first coin is entered in the project's backer log and added to its
/// balance, and all the funds are sent on to the project's wallet.
pub fn try_back2project(
    ledger: &mut Ledger,
    info: MessageInfo,
    project_id: u128,
    backer_wallet: String,
) -> (result: Result<Response, ContractError>)
    ensures
        ended_as(
            spec_try_back2project(old(ledger)@, info@, project_id, backer_wallet@),
            old(ledger)@,
            final(ledger)@,
            result,
        ),
        result is Ok ==> {
            let before = old(ledger)@.projects[project_id];
            let after = final(ledger)@.projects[project_id];
            &&& after.backer_states.len() == before.backer_states.len() + 1
            &&& after.backer_states.last() == (BackerStateView {
                backer_wallet: backer_wallet@,
                amount: info@.funds[0],
            })
            &&& after.project_collected == before.project_collected + info@.funds[0].amount
        },
        final(ledger)@.wf(),
{
    let mut project: ProjectState = match ledger.project(project_id) {
        None => {
            return Err(ContractError::NotRegistered);
        },
        Some(found) => found.clone(),
    };
    if info.funds.len() == 0 {
        return Err(ContractError::Unauthorized);
    }
    let amount = info.funds[0].clone();
    let collected: u128 = match project.project_collected.checked_add(amount.amount) {
        None => {
            return Err(ContractError::Overflow);
        },
        Some(sum) => sum,
    };
    let to_address = project.project_wallet.clone();
    let ghost before = project@;
    let ghost entry = (BackerState { backer_wallet, amount })@;
    project.backer_states.push(BackerState { backer_wallet, amount });
    project.project_collected = collected;
    proof {
        assert(info@.funds[0] == info.funds[0]@);
        assert(project@.backer_states =~= before.backer_states.push(entry));
        assert(project@.backer_states.drop_last() =~= before.backer_states);
    }
    ledger.put_project(project);
    let funds = clone_coins(&info.funds);
    let res = Response::new().add_message(Instruction::NativeTransfer { to_address, funds });
    Ok(res.add_attribute("action", "back2project"))
}

/// Creates a pot that collects for `target_addr` until `threshold` is reached.
///
/// Only the owner may create a pot. `target_addr` is the target as the host
/// judged it. The pot gets the id after the last one issued, and the response
/// names it under `pot_id`.
pub fn execute_create_pot(
    ledger: &mut Ledger,
    info: MessageInfo,
    target_addr: Option<Addr>,
    threshold: u128,
) -> (result: Result<Response, ContractError>)
    ensures
        ended_as(
            spec_execute_create_pot(old(ledger)@, info@, judged_view(target_addr), threshold),
            old(ledger)@,
            final(ledger)@,
            result,
        ),
        info@.sender != old(ledger)@.config.owner ==> {
            &&& result matches Err(e)
            &&& e == ContractError::Unauthorized
            &&& final(ledger)@ == old(ledger)@
        },
        result matches Ok(response) ==> {
            let id = final(ledger)@.pot_seq;
            &&& id == old(ledger)@.pot_seq + 1
            &&& !old(ledger)@.pots.contains_key(id)
            &&& final(ledger)@.pots.contains_key(id)
            &&& final(ledger)@.pots[id].collected == 0
            &&& response@.attributes.last() == attr("pot_id"@, decimal(id as nat))
        },
        final(ledger)@.wf(),
{
    if !(ledger.config().owner == info.sender) {
        return Err(ContractError::Unauthorized);
    }
    let target = match target_addr {
        None => {
            return Err(ContractError::InvalidAddress);
        },
        Some(addr) => addr,
    };
    let res = Response::new().add_attribute("action", "execute_create_pot").add_attribute(
        "target_addr",
        target.as_str(),
    ).add_attribute("threshold_amount", decimal_string(threshold).as_str());
    let pot = Pot { target_addr: target, threshold, collected: 0 };
    let id: u128 = save_pot(ledger, pot)?;
    let res = res.add_attribute("pot_id", decimal_string(id).as_str());
    proof {
        let expected = spec_execute_create_pot(
            old(ledger)@,
            info@,
            judged_view(target_addr),
            threshold,
        )->Ok_0.1;
        assert(res@.attributes =~= expected.attributes);
        assert(res@.messages =~= expected.messages);
    }
    Ok(res)
}

/// Takes the token contract's notice of a deposit.
///
/// Only the token contract of the configuration may announce a deposit. The
/// payload of the notice names the pot.
pub fn execute_receive(ledger: &mut Ledger, info: MessageInfo, wrapped: Cw20ReceiveMsg) -> (result:
    Result<Response, ContractError>)
    ensures
        ended_as(
            spec_execute_receive(old(ledger)@, info@, wrapped@),
            old(ledger)@,
            final(ledger)@,
            result,
        ),
        final(ledger)@.wf(),
{
    if !(ledger.config().cw20_addr == info.sender) {
        return Err(ContractError::Unauthorized);
    }
    match wrapped.msg {
        None => Err(ContractError::Serialization),
        Some(ReceiveMsg::Send { id }) => receive_send(ledger, id, wrapped.amount, info.sender),
    }
}

/// Adds `amount` to what the pot `pot_id` has collected.
///
/// Where the pot then holds its threshold or more, the response instructs
/// the token contract `cw20_addr` to transfer all that the pot has collected
/// to the pot's target. This happens anew with every deposit into a pot that
/// has reached its threshold: the ledger keeps no record of a payout.
pub fn receive_send(ledger: &mut Ledger, pot_id: u128, amount: u128, cw20_addr: Addr) -> (result:
    Result<Response, ContractError>)
    ensures
        ended_as(
            spec_receive_send(old(ledger)@, pot_id, amount, cw20_addr@),
            old(ledger)@,
            final(ledger)@,
            result,
        ),
        result matches Ok(response) ==> {
            let before = old(ledger)@.pots[pot_id];
            let after = final(ledger)@.pots[pot_id];
            &&& after.collected == before.collected + amount
            &&& response@.messages == payout(before, after.collected, cw20_addr@)
        },
        final(ledger)@.wf(),
{
    let mut pot: Pot = match ledger.pot(pot_id) {
        None => {
            return Err(ContractError::NotFound);
        },
        Some(found) => found.clone(),
    };
    pot.collected = match pot.collected.checked_add(amount) {
        None => {
            return Err(ContractError::Overflow);
        },
        Some(sum) => sum,
    };
    let collected: u128 = pot.collected;
    let threshold: u128 = pot.threshold;
    let recipient = pot.target_addr.clone();
    ledger.put_pot(pot_id, pot);
    let mut res = Response::new().add_attribute("action", "receive_send").add_attribute(
        "pot_id",
        decimal_string(pot_id).as_str(),
    ).add_attribute("collected", decimal_string(collected).as_str()).add_attribute(
        "threshold",
        decimal_string(threshold).as_str(),
    );
    if collected >= threshold {
        res = res.add_message(
            Instruction::TokenTransfer { token: cw20_addr, recipient, amount: collected },
        );
    }
    proof {
        let expected = spec_receive_send(old(ledger)@, pot_id, amount, cw20_addr@)->Ok_0.1;
        assert(res@.attributes =~= expected.attributes);
        assert(res@.messages =~= expected.messages);
    }
    Ok(res)
}

/// Answers a question about the ledger with a copy of what is stored.
pub fn query(ledger: &Ledger, msg: QueryMsg) -> (result: Result<QueryResponse, ContractError>)
    ensures
        match result {
            Ok(response) => spec_query(ledger@, msg) == Answer::Ok(response@),
            Err(e) => spec_query(ledger@, msg) == Answer::Err(e),
        },
{
    match msg {
        QueryMsg::GetPot { id } => match query_pot(ledger, id) {
            Ok(pot) => Ok(QueryResponse::Pot(pot)),
            Err(e) => Err(e),
        },
        QueryMsg::GetProject { id } => match query_project(ledger, id) {
            Ok(project) => Ok(QueryResponse::Project(project)),
            Err(e) => Err(e),
        },
    }
}

/// A copy of the project stored under `id`.
pub fn query_project(ledger: &Ledger, id: u128) -> (result: Result<ProjectState, ContractError>)
    ensures
        match result {
            Ok(project) => {
                &&& ledger@.projects.contains_key(id)
                &&& project@ == ledger@.projects[id]
                &&& project@.project_id == id
                &&& project@.balanced()
            },
            Err(e) => e == ContractError::NotFound && !ledger@.projects.contains_key(id),
        },
{
    match ledger.project(id) {
        Some(project) => Ok(project.clone()),
        None => Err(ContractError::NotFound),
    }
}

/// A copy of the pot stored under `id`.
pub fn query_pot(ledger: &Ledger, id: u128) -> (result: Result<Pot, ContractError>)
    ensures
        match result {
            Ok(pot) => {
                &&& ledger@.pots.contains_key(id)
                &&& pot@ == ledger@.pots[id]
                &&& 1 <= id <= ledger@.pot_seq
            },
            Err(e) => e == ContractError::NotFound && !ledger@.pots.contains_key(id),
        },
{
    match ledger.pot(id) {
        Some(pot) => Ok(pot.clone()),
        None => Err(ContractError::NotFound),
    }
}

} // verus!
