use crate::error::ContractError;
use crate::ledger::LedgerView;
use crate::model::{
    next_pot_id, spec_execute, spec_instantiate, spec_receive_send, spec_try_addproject, Outcome,
};
use crate::msg::{ExecuteMsgView, InstantiateMsgView, ReceiveMsg};
use crate::response::InstructionView;
use crate::state::{PotView, ProjectStateView};
use crate::types::MessageInfoView;
use vstd::prelude::*;

verus! {

/// One call of `execute`: who sent it and with what funds, and the operation.
pub struct Call {
    pub info: MessageInfoView,
    pub msg: ExecuteMsgView,
}

/// Whether `ledger` carries out `call`.
pub open spec fn accepts(ledger: LedgerView, call: Call) -> bool {
    spec_execute(ledger, call.info, call.msg) is Ok
}

/// The ledger after `call`. A refused call leaves it as it was.
pub open spec fn step(ledger: LedgerView, call: Call) -> LedgerView {
    match spec_execute(ledger, call.info, call.msg) {
        Ok((after, _)) => after,
        Err(_) => ledger,
    }
}

/// The ledger after `calls`, one after the other.
pub open spec fn run(ledger: LedgerView, calls: Seq<Call>) -> LedgerView
    decreases calls.len(),
{
    if calls.len() == 0 {
        ledger
    } else {
        step(run(ledger, calls.drop_last()), calls.last())
    }
}

/// The ids of the pots that `calls` create, in the order of their creation.
pub open spec fn pot_ids(ledger: LedgerView, calls: Seq<Call>) -> Seq<int>
    decreases calls.len(),
{
    if calls.len() == 0 {
        seq![]
    } else {
        let before = run(ledger, calls.drop_last());
        let earlier = pot_ids(ledger, calls.drop_last());
        if calls.last().msg is CreatePot && accepts(before, calls.last()) {
            earlier.push(next_pot_id(before))
        } else {
            earlier
        }
    }
}

/// What the pot `pot_id` has collected, and nothing where there is no such
/// pot.
pub open spec fn collected_in(ledger: LedgerView, pot_id: u128) -> nat {
    if ledger.pots.contains_key(pot_id) {
        ledger.pots[pot_id].collected as nat
    } else {
        0
    }
}

/// The amount that `call` deposits into the pot `pot_id`: that of an
/// accepted deposit for this pot, and nothing for any other call.
pub open spec fn deposit_of(ledger: LedgerView, call: Call, pot_id: u128) -> nat {
    match call.msg {
        ExecuteMsgView::Receive(wrapped) => {
            if accepts(ledger, call) && wrapped.msg == Some(ReceiveMsg::Send { id: pot_id }) {
                wrapped.amount as nat
            } else {
                0
            }
        },
        _ => 0,
    }
}

/// The sum of what `calls` deposit into the pot `pot_id`.
pub open spec fn deposits(ledger: LedgerView, calls: Seq<Call>, pot_id: u128) -> nat
    decreases calls.len(),
{
    if calls.len() == 0 {
        0
    } else {
        deposits(ledger, calls.drop_last(), pot_id) + deposit_of(
            run(ledger, calls.drop_last()),
            calls.last(),
            pot_id,
        )
    }
}

/// Every call leaves a well-formed ledger well-formed.
pub proof fn law_step_keeps_wf(ledger: LedgerView, call: Call)
    requires
        ledger.wf(),
    ensures
        step(ledger, call).wf(),
{
    let after = step(ledger, call);
    if accepts(ledger, call) {
        match call.msg {
            ExecuteMsgView::CreatePot { .. } => {},
            ExecuteMsgView::Receive(_) => {},
            ExecuteMsgView::AddProject { .. } => {},
            ExecuteMsgView::Back2Project { project_id, backer_wallet } => {
                let project = ledger.projects[project_id];
                let backed = after.projects[project_id];
                assert(backed.backer_states.drop_last() =~= project.backer_states);
            },
        }
    }
}

/// Every run of calls leaves a well-formed ledger well-formed.
pub proof fn law_run_keeps_wf(ledger: LedgerView, calls: Seq<Call>)
    requires
        ledger.wf(),
    ensures
        run(ledger, calls).wf(),
    decreases calls.len(),
{
    if calls.len() > 0 {
        law_run_keeps_wf(ledger, calls.drop_last());
        law_step_keeps_wf(run(ledger, calls.drop_last()), calls.last());
    }
}

/// A ledger that has just been set up is well-formed and has issued no id.
pub proof fn law_set_up_ledger_is_fresh(info: MessageInfoView, msg: InstantiateMsgView)
    requires
        spec_instantiate(info, msg) is Ok,
    ensures
        spec_instantiate(info, msg)->Ok_0.0.wf(),
        spec_instantiate(info, msg)->Ok_0.0.pot_seq == 0,
        spec_instantiate(info, msg)->Ok_0.0.pots == Map::<u128, PotView>::empty(),
        spec_instantiate(info, msg)->Ok_0.0.projects == Map::<u128, ProjectStateView>::empty(),
{
}

/// Pot ids count up by one: whatever else happens in between, the pots that
/// a run of calls creates get the ids after the last one issued before the
/// run, one after the other, and the counter ends at the last of them.
pub proof fn law_pot_ids_count_up(ledger: LedgerView, calls: Seq<Call>)
    ensures
        run(ledger, calls).pot_seq == ledger.pot_seq + pot_ids(ledger, calls).len(),
        forall|i: int|
            0 <= i < pot_ids(ledger, calls).len() ==> #[trigger] pot_ids(ledger, calls)[i]
                == ledger.pot_seq + i + 1,
    decreases calls.len(),
{
    if calls.len() > 0 {
        law_pot_ids_count_up(ledger, calls.drop_last());
    }
}

/// From the set-up of a ledger on, the pots get the ids 1, 2, 3 and so on,
/// in the order of their creation and whatever else is called in between.
pub proof fn law_pot_ids_start_at_one(
    info: MessageInfoView,
    msg: InstantiateMsgView,
    calls: Seq<Call>,
)
    requires
        spec_instantiate(info, msg) is Ok,
    ensures
        ({
            let ids = pot_ids(spec_instantiate(info, msg)->Ok_0.0, calls);
            forall|i: int| 0 <= i < ids.len() ==> #[trigger] ids[i] == i + 1
        }),
{
    law_pot_ids_count_up(spec_instantiate(info, msg)->Ok_0.0, calls);
}

/// The configuration is set once: no call changes it.
pub proof fn law_config_is_fixed(ledger: LedgerView, calls: Seq<Call>)
    ensures
        run(ledger, calls).config == ledger.config,
    decreases calls.len(),
{
    if calls.len() > 0 {
        law_config_is_fixed(ledger, calls.drop_last());
    }
}

/// A pot stays where it is, with its target and its threshold, and what it
/// has collected never gets less; a call adds to it exactly what it deposits
/// into it.
pub proof fn law_step_accumulates(ledger: LedgerView, call: Call, pot_id: u128)
    requires
        ledger.wf(),
    ensures
        collected_in(step(ledger, call), pot_id) == collected_in(ledger, pot_id) + deposit_of(
            ledger,
            call,
            pot_id,
        ),
        collected_in(step(ledger, call), pot_id) >= collected_in(ledger, pot_id),
        ledger.pots.contains_key(pot_id) ==> {
            &&& step(ledger, call).pots.contains_key(pot_id)
            &&& step(ledger, call).pots[pot_id].target_addr == ledger.pots[pot_id].target_addr
            &&& step(ledger, call).pots[pot_id].threshold == ledger.pots[pot_id].threshold
        },
{
}

/// After any run of calls, a pot has collected what it had before plus the
/// sum of the deposits that were accepted for it.
pub proof fn law_collected_is_sum_of_deposits(ledger: LedgerView, calls: Seq<Call>, pot_id: u128)
    requires
        ledger.wf(),
    ensures
        collected_in(run(ledger, calls), pot_id) == collected_in(ledger, pot_id) + deposits(
            ledger,
            calls,
            pot_id,
        ),
        ledger.pots.contains_key(pot_id) ==> {
            &&& run(ledger, calls).pots.contains_key(pot_id)
            &&& run(ledger, calls).pots[pot_id].target_addr == ledger.pots[pot_id].target_addr
            &&& run(ledger, calls).pots[pot_id].threshold == ledger.pots[pot_id].threshold
        },
    decreases calls.len(),
{
    if calls.len() > 0 {
        law_collected_is_sum_of_deposits(ledger, calls.drop_last(), pot_id);
        law_run_keeps_wf(ledger, calls.drop_last());
        law_step_accumulates(run(ledger, calls.drop_last()), calls.last(), pot_id);
    }
}

/// A deposit pays out exactly when it leaves the pot at its threshold or
/// above: then it instructs one transfer, of all that the pot has collected
/// with this deposit, to the pot's target; else it instructs nothing.
pub proof fn law_deposit_pays_out_when_full(
    ledger: LedgerView,
    pot_id: u128,
    amount: u128,
    cw20_addr: Seq<char>,
)
    requires
        spec_receive_send(ledger, pot_id, amount, cw20_addr) is Ok,
    ensures
        ({
            let pot = ledger.pots[pot_id];
            let (after, response) = spec_receive_send(ledger, pot_id, amount, cw20_addr)->Ok_0;
            let collected = after.pots[pot_id].collected;
            &&& collected == pot.collected + amount
            &&& collected >= pot.threshold ==> response.messages == seq![
                InstructionView::TokenTransfer {
                    token: cw20_addr,
                    recipient: pot.target_addr,
                    amount: collected,
                },
            ]
            &&& collected < pot.threshold ==> response.messages == Seq::<InstructionView>::empty()
        }),
{
}

/// A pot that has reached its threshold stays there, whatever is called: so
/// every later deposit into it that is accepted pays out again, all that the
/// pot has collected by then.
pub proof fn law_full_pot_stays_full(
    ledger: LedgerView,
    calls: Seq<Call>,
    pot_id: u128,
    amount: u128,
    cw20_addr: Seq<char>,
)
    requires
        ledger.wf(),
        ledger.pots.contains_key(pot_id),
        ledger.pots[pot_id].collected >= ledger.pots[pot_id].threshold,
        spec_receive_send(run(ledger, calls), pot_id, amount, cw20_addr) is Ok,
    ensures
        ({
            let later = run(ledger, calls);
            let (after, response) = spec_receive_send(later, pot_id, amount, cw20_addr)->Ok_0;
            &&& later.pots.contains_key(pot_id)
            &&& later.pots[pot_id].collected >= later.pots[pot_id].threshold
            &&& response.messages == seq![
                InstructionView::TokenTransfer {
                    token: cw20_addr,
                    recipient: ledger.pots[pot_id].target_addr,
                    amount: after.pots[pot_id].collected,
                },
            ]
            &&& after.pots[pot_id].collected == later.pots[pot_id].collected + amount
        }),
{
    law_collected_is_sum_of_deposits(ledger, calls, pot_id);
}

/// A project is registered once: when a project has been added, adding one
/// under the same id is refused, also after any run of other calls, and the
/// ledger stays as it is. What the project was registered with stays as it
/// was; only its backer log and its balance grow.
pub proof fn law_project_registered_once(
    ledger: LedgerView,
    first: ProjectStateView,
    calls: Seq<Call>,
    second: ProjectStateView,
)
    requires
        spec_try_addproject(ledger, first) is Ok,
        second.project_id == first.project_id,
    ensures
        ({
            let registered = spec_try_addproject(ledger, first)->Ok_0.0;
            let later = run(registered, calls);
            &&& registered.projects[first.project_id] == first
            &&& spec_try_addproject(registered, second) == Outcome::Err(
                ContractError::AlreadyRegistered,
            )
            &&& spec_try_addproject(later, second) == Outcome::Err(
                ContractError::AlreadyRegistered,
            )
            &&& later.projects[first.project_id] == (ProjectStateView {
                project_collected: later.projects[first.project_id].project_collected,
                backer_states: later.projects[first.project_id].backer_states,
                ..first
            })
        }),
{
    let registered = spec_try_addproject(ledger, first)->Ok_0.0;
    lemma_project_stays(registered, calls, first.project_id);
}

/// A call leaves a registered project in place, with what it was registered
/// with, and takes nothing from its backer log.
pub proof fn law_step_keeps_project(ledger: LedgerView, call: Call, project_id: u128)
    requires
        ledger.projects.contains_key(project_id),
    ensures
        ({
            let before = ledger.projects[project_id];
            let after = step(ledger, call).projects[project_id];
            &&& step(ledger, call).projects.contains_key(project_id)
            &&& after == (ProjectStateView {
                project_collected: after.project_collected,
                backer_states: after.backer_states,
                ..before
            })
            &&& before.backer_states.is_prefix_of(after.backer_states)
        }),
{
}

proof fn lemma_project_stays(ledger: LedgerView, calls: Seq<Call>, project_id: u128)
    requires
        ledger.projects.contains_key(project_id),
    ensures
        ({
            let before = ledger.projects[project_id];
            let after = run(ledger, calls).projects[project_id];
            &&& run(ledger, calls).projects.contains_key(project_id)
            &&& after == (ProjectStateView {
                project_collected: after.project_collected,
                backer_states: after.backer_states,
                ..before
            })
            &&& before.backer_states.is_prefix_of(after.backer_states)
        }),
    decreases calls.len(),
{
    if calls.len() > 0 {
        lemma_project_stays(ledger, calls.drop_last(), project_id);
        law_step_keeps_project(run(ledger, calls.drop_last()), calls.last(), project_id);
    }
}

} // verus!
