use crate::decimal::decimal;
use crate::error::ContractError;
use crate::ledger::LedgerView;
use crate::msg::{
    new_project, Cw20ReceiveMsgView, ExecuteMsgView, InstantiateMsgView, QueryMsg,
    QueryResponseView, ReceiveMsg,
};
use crate::response::{attr, InstructionView, Response, ResponseView};
use crate::state::{BackerStateView, ConfigView, PotView, ProjectStateView};
use crate::types::MessageInfoView;
use vstd::prelude::*;

verus! {

/// How a call ends: with the ledger it leaves and its response, or with the
/// reason why it was refused.
pub type Outcome = Result<(LedgerView, ResponseView), ContractError>;

/// Whether a call that found the ledger as `before`, left it as `after` and
/// returned `result` ended as `expected`. A refused call leaves the ledger as
/// it found it.
pub open spec fn ended_as(
    expected: Outcome,
    before: LedgerView,
    after: LedgerView,
    result: Result<Response, ContractError>,
) -> bool {
    match result {
        Ok(response) => expected == Outcome::Ok((after, response@)),
        Err(e) => expected == Outcome::Err(e) && after == before,
    }
}

/// Setting up a ledger. The token contract must be an identity. The owner is
/// the requested one where there is one, else the sender.
pub open spec fn spec_instantiate(info: MessageInfoView, msg: InstantiateMsgView) -> Outcome {
    match msg.cw20_addr {
        None => Err(ContractError::InvalidAddress),
        Some(cw20_addr) => {
            let owner = match msg.admin {
                Some(admin) => admin,
                None => info.sender,
            };
            Ok(
                (
                    LedgerView::initial(ConfigView { owner, cw20_addr }),
                    ResponseView {
                        messages: seq![],
                        attributes: seq![
                            attr("method"@, "instantiate"@),
                            attr("owner"@, owner),
                            attr("cw20_addr"@, cw20_addr),
                        ],
                    },
                ),
            )
        },
    }
}

/// The id that the next pot gets: the one after the last one issued.
pub open spec fn next_pot_id(ledger: LedgerView) -> int {
    ledger.pot_seq + 1
}

/// Creating a pot. Only the owner may. The pot gets the next id and starts
/// with nothing collected.
pub open spec fn spec_execute_create_pot(
    ledger: LedgerView,
    info: MessageInfoView,
    target_addr: Option<Seq<char>>,
    threshold: u128,
) -> Outcome {
    if info.sender != ledger.config.owner {
        Err(ContractError::Unauthorized)
    } else {
        match target_addr {
            None => Err(ContractError::InvalidAddress),
            Some(target) => {
                if next_pot_id(ledger) > u128::MAX {
                    Err(ContractError::Overflow)
                } else {
                    let id = next_pot_id(ledger) as u128;
                    let pot = PotView { target_addr: target, threshold, collected: 0 };
                    Ok(
                        (
                            (LedgerView { pot_seq: id, ..ledger }).with_pot(id, pot),
                            ResponseView {
                                messages: seq![],
                                attributes: seq![
                                    attr("action"@, "execute_create_pot"@),
                                    attr("target_addr"@, target),
                                    attr("threshold_amount"@, decimal(threshold as nat)),
                                    attr("pot_id"@, decimal(id as nat)),
                                ],
                            },
                        ),
                    )
                }
            },
        }
    }
}

/// The instructions that a deposit brings about, when it leaves `collected`
/// in the pot `pot`: the whole of it goes to the pot's target once the
/// threshold is reached, and again with every deposit after that.
pub open spec fn payout(pot: PotView, collected: u128, cw20_addr: Seq<char>) -> Seq<
    InstructionView,
> {
    if collected >= pot.threshold {
        seq![
            InstructionView::TokenTransfer {
                token: cw20_addr,
                recipient: pot.target_addr,
                amount: collected,
            },
        ]
    } else {
        seq![]
    }
}

/// Adding `amount` to what the pot `pot_id` has collected.
pub open spec fn spec_receive_send(
    ledger: LedgerView,
    pot_id: u128,
    amount: u128,
    cw20_addr: Seq<char>,
) -> Outcome {
    if !ledger.pots.contains_key(pot_id) {
        Err(ContractError::NotFound)
    } else {
        let pot = ledger.pots[pot_id];
        if pot.collected + amount > u128::MAX {
            Err(ContractError::Overflow)
        } else {
            let collected = (pot.collected + amount) as u128;
            Ok(
                (
                    ledger.with_pot(pot_id, PotView { collected, ..pot }),
                    ResponseView {
                        messages: payout(pot, collected, cw20_addr),
                        attributes: seq![
                            attr("action"@, "receive_send"@),
                            attr("pot_id"@, decimal(pot_id as nat)),
                            attr("collected"@, decimal(collected as nat)),
                            attr("threshold"@, decimal(pot.threshold as nat)),
                        ],
                    },
                ),
            )
        }
    }
}

/// A deposit that the token contract announces. Only the token contract of
/// the configuration may announce one.
pub open spec fn spec_execute_receive(
    ledger: LedgerView,
    info: MessageInfoView,
    wrapped: Cw20ReceiveMsgView,
) -> Outcome {
    if info.sender != ledger.config.cw20_addr {
        Err(ContractError::Unauthorized)
    } else {
        match wrapped.msg {
            None => Err(ContractError::Serialization),
            Some(ReceiveMsg::Send { id }) => spec_receive_send(
                ledger,
                id,
                wrapped.amount,
                info.sender,
            ),
        }
    }
}

/// Registering `project`. An id is taken once and for all.
pub open spec fn spec_try_addproject(ledger: LedgerView, project: ProjectStateView) -> Outcome {
    if ledger.projects.contains_key(project.project_id) {
        Err(ContractError::AlreadyRegistered)
    } else {
        Ok(
            (
                ledger.with_project(project.project_id, project),
                ResponseView {
                    messages: seq![],
                    attributes: seq![attr("action"@, "add project"@)],
                },
            ),
        )
    }
}

/// Backing the project `project_id` with the funds that came with the
/// message. The first coin is entered in the backer log and added to the
/// project's balance, and all the funds are sent on to the project's wallet.
pub open spec fn spec_try_back2project(
    ledger: LedgerView,
    info: MessageInfoView,
    project_id: u128,
    backer_wallet: Seq<char>,
) -> Outcome {
    if !ledger.projects.contains_key(project_id) {
        Err(ContractError::NotRegistered)
    } else if info.funds.len() == 0 {
        Err(ContractError::Unauthorized)
    } else {
        let project = ledger.projects[project_id];
        let amount = info.funds[0];
        if project.project_collected + amount.amount > u128::MAX {
            Err(ContractError::Overflow)
        } else {
            let backed = ProjectStateView {
                project_collected: (project.project_collected + amount.amount) as u128,
                backer_states: project.backer_states.push(
                    BackerStateView { backer_wallet, amount },
                ),
                ..project
            };
            Ok(
                (
                    ledger.with_project(project_id, backed),
                    ResponseView {
                        messages: seq![
                            InstructionView::NativeTransfer {
                                to_address: project.project_wallet,
                                funds: info.funds,
                            },
                        ],
                        attributes: seq![attr("action"@, "back2project"@)],
                    },
                ),
            )
        }
    }
}

/// One operation on the ledger.
pub open spec fn spec_execute(
    ledger: LedgerView,
    info: MessageInfoView,
    msg: ExecuteMsgView,
) -> Outcome {
    match msg {
        ExecuteMsgView::CreatePot { target_addr, threshold } => spec_execute_create_pot(
            ledger,
            info,
            target_addr,
            threshold,
        ),
        ExecuteMsgView::Receive(wrapped) => spec_execute_receive(ledger, info, wrapped),
        ExecuteMsgView::AddProject {
            project_id,
            project_name,
            project_wallet,
            creator_wallet,
            project_website,
            project_about,
            project_email,
            project_ecosystem,
            project_category,
        } => spec_try_addproject(
            ledger,
            new_project(
                project_id,
                project_name,
                project_wallet,
                creator_wallet,
                project_website,
                project_about,
                project_email,
                project_ecosystem,
                project_category,
            ),
        ),
        ExecuteMsgView::Back2Project { project_id, backer_wallet } => spec_try_back2project(
            ledger,
            info,
            project_id,
            backer_wallet,
        ),
    }
}

/// How a question ends: with what is stored, or with the reason why there is
/// no answer.
pub type Answer = Result<QueryResponseView, ContractError>;

/// The answer to a question: what is stored under the id.
pub open spec fn spec_query(ledger: LedgerView, msg: QueryMsg) -> Answer {
    match msg {
        QueryMsg::GetPot { id } => if ledger.pots.contains_key(id) {
            Ok(QueryResponseView::Pot(ledger.pots[id]))
        } else {
            Err(ContractError::NotFound)
        },
        QueryMsg::GetProject { id } => if ledger.projects.contains_key(id) {
            Ok(QueryResponseView::Project(ledger.projects[id]))
        } else {
            Err(ContractError::NotFound)
        },
    }
}

} // verus!
