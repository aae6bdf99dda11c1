use crate::addr::Addr;
use crate::error::ContractError;
use crate::types::{Coin, CoinView};
use std::collections::BTreeMap;
use vstd::prelude::*;

verus! {

/// Who may create pots, and which token contract may announce deposits.
#[derive(Debug, PartialEq, Eq)]
pub struct Config {
    pub owner: Addr,
    pub cw20_addr: Addr,
}

/// What a `Config` holds.
pub struct ConfigView {
    pub owner: Seq<char>,
    pub cw20_addr: Seq<char>,
}

impl View for Config {
    type V = ConfigView;

    open spec fn view(&self) -> ConfigView {
        ConfigView { owner: self.owner@, cw20_addr: self.cw20_addr@ }
    }
}

impl Clone for Config {
    fn clone(&self) -> (copy: Config)
        ensures
            copy@ == self@,
    {
        Config { owner: self.owner.clone(), cw20_addr: self.cw20_addr.clone() }
    }
}

/// A funding target: deposits are collected for `target_addr` and paid out
/// once they reach `threshold`.
#[derive(Debug, PartialEq, Eq)]
pub struct Pot {
    pub target_addr: Addr,
    pub threshold: u128,
    pub collected: u128,
}

/// What a `Pot` holds.
pub struct PotView {
    pub target_addr: Seq<char>,
    pub threshold: u128,
    pub collected: u128,
}

impl View for Pot {
    type V = PotView;

    open spec fn view(&self) -> PotView {
        PotView {
            target_addr: self.target_addr@,
            threshold: self.threshold,
            collected: self.collected,
        }
    }
}

impl Clone for Pot {
    fn clone(&self) -> (copy: Pot)
        ensures
            copy@ == self@,
    {
        Pot {
            target_addr: self.target_addr.clone(),
            threshold: self.threshold,
            collected: self.collected,
        }
    }
}

/// One contribution to a project.
#[derive(Debug, PartialEq, Eq)]
pub struct BackerState {
    pub backer_wallet: String,
    pub amount: Coin,
}

/// What a `BackerState` holds.
pub struct BackerStateView {
    pub backer_wallet: Seq<char>,
    pub amount: CoinView,
}

impl View for BackerState {
    type V = BackerStateView;

    open spec fn view(&self) -> BackerStateView {
        BackerStateView { backer_wallet: self.backer_wallet@, amount: self.amount@ }
    }
}

impl Clone for BackerState {
    fn clone(&self) -> (copy: BackerState)
        ensures
            copy@ == self@,
    {
        BackerState { backer_wallet: self.backer_wallet.clone(), amount: self.amount.clone() }
    }
}

/// What a list of contributions holds, one by one.
pub open spec fn backers_view(backers: Seq<BackerState>) -> Seq<BackerStateView> {
    backers.map_values(|b: BackerState| b@)
}

/// The sum of the amounts of `backers`.
pub open spec fn backed_total(backers: Seq<BackerStateView>) -> nat
    decreases backers.len(),
{
    if backers.len() == 0 {
        0
    } else {
        (backed_total(backers.drop_last()) + backers.last().amount.amount) as nat
    }
}

/// The sum over a prefix of a list of contributions is at most the sum over
/// the whole list.
proof fn lemma_backed_total_prefix(backers: Seq<BackerStateView>, n: int)
    requires
        0 <= n <= backers.len(),
    ensures
        backed_total(backers.take(n)) <= backed_total(backers),
    decreases backers.len(),
{
    if n == backers.len() {
        assert(backers.take(n) =~= backers);
    } else {
        assert(backers.drop_last().take(n) =~= backers.take(n));
        lemma_backed_total_prefix(backers.drop_last(), n);
    }
}

/// The sum of the amounts of `backers`, where it fits into `u128`.
pub fn backed_sum(backers: &Vec<BackerState>) -> (sum: Option<u128>)
    ensures
        match sum {
            Some(total) => total == backed_total(backers_view(backers@)),
            None => backed_total(backers_view(backers@)) > u128::MAX,
        },
{
    let ghost all = backers_view(backers@);
    let mut total: u128 = 0;
    let mut i: usize = 0;
    while i < backers.len()
        invariant
            i <= backers.len(),
            all == backers_view(backers@),
            total == backed_total(all.take(i as int)),
        decreases backers.len() - i,
    {
        proof {
            assert(all.take(i + 1).drop_last() =~= all.take(i as int));
            assert(all.take(i + 1).last() == backers[i as int]@);
        }
        match total.checked_add(backers[i].amount.amount) {
            Some(next) => {
                total = next;
            },
            None => {
                proof {
                    lemma_backed_total_prefix(all, i + 1);
                }
                return None;
            },
        }
        i += 1;
    }
    assert(all.take(i as int) =~= all);
    Some(total)
}

/// A registered project, with the log of its backers.
#[derive(Debug, PartialEq, Eq)]
pub struct ProjectState {
    pub project_id: u128,
    pub project_name: String,
    pub project_wallet: String,
    pub project_collected: u128,
    pub creator_wallet: String,
    pub project_website: String,
    pub project_about: String,
    pub project_email: String,
    pub project_ecosystem: String,
    pub project_category: String,
    pub backer_states: Vec<BackerState>,
}

/// What a `ProjectState` holds.
pub struct ProjectStateView {
    pub project_id: u128,
    pub project_name: Seq<char>,
    pub project_wallet: Seq<char>,
    pub project_collected: u128,
    pub creator_wallet: Seq<char>,
    pub project_website: Seq<char>,
    pub project_about: Seq<char>,
    pub project_email: Seq<char>,
    pub project_ecosystem: Seq<char>,
    pub project_category: Seq<char>,
    pub backer_states: Seq<BackerStateView>,
}

impl ProjectStateView {
    /// Whether `project_collected` is the sum of what the backers gave.
    pub open spec fn balanced(self) -> bool {
        self.project_collected == backed_total(self.backer_states)
    }
}

impl View for ProjectState {
    type V = ProjectStateView;

    open spec fn view(&self) -> ProjectStateView {
        ProjectStateView {
            project_id: self.project_id,
            project_name: self.project_name@,
            project_wallet: self.project_wallet@,
            project_collected: self.project_collected,
            creator_wallet: self.creator_wallet@,
            project_website: self.project_website@,
            project_about: self.project_about@,
            project_email: self.project_email@,
            project_ecosystem: self.project_ecosystem@,
            project_category: self.project_category@,
            backer_states: backers_view(self.backer_states@),
        }
    }
}

impl Clone for ProjectState {
    fn clone(&self) -> (copy: ProjectState)
        ensures
            copy@ == self@,
    {
        let mut backer_states: Vec<BackerState> = Vec::new();
        let mut i: usize = 0;
        while i < self.backer_states.len()
            invariant
                i <= self.backer_states.len(),
                backer_states.len() == i,
                forall|j: int| 0 <= j < i ==> backer_states[j]@ == self.backer_states[j]@,
            decreases self.backer_states.len() - i,
        {
            backer_states.push(self.backer_states[i].clone());
            i += 1;
        }
        assert(backers_view(backer_states@) =~= backers_view(self.backer_states@));
        ProjectState {
            project_id: self.project_id,
            project_name: self.project_name.clone(),
            project_wallet: self.project_wallet.clone(),
            project_collected: self.project_collected,
            creator_wallet: self.creator_wallet.clone(),
            project_website: self.project_website.clone(),
            project_about: self.project_about.clone(),
            project_email: self.project_email.clone(),
            project_ecosystem: self.project_ecosystem.clone(),
            project_category: self.project_category.clone(),
            backer_states,
        }
    }
}

} // verus!
