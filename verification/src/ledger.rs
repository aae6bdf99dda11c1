use crate::error::ContractError;
use crate::state::{backed_sum, Config, ConfigView, Pot, PotView, ProjectState, ProjectStateView};
use std::collections::BTreeMap;
use vstd::prelude::*;

verus! {

/// The whole state of one ledger: its configuration, the counter that
/// numbers the pots, the pots and the projects, each under its id.
#[derive(Debug, PartialEq, Eq)]
pub struct Ledger {
    config: Config,
    pot_seq: u128,
    pots: BTreeMap<u128, Pot>,
    projects: BTreeMap<u128, ProjectState>,
}

/// What a `Ledger` holds.
pub struct LedgerView {
    pub config: ConfigView,
    pub pot_seq: u128,
    pub pots: Map<u128, PotView>,
    pub projects: Map<u128, ProjectStateView>,
}

impl LedgerView {
    /// What holds of every ledger: a pot's id is one that the counter has
    /// issued, a project is stored under its own id, and its balance is the
    /// sum of what its backers gave.
    pub open spec fn wf(self) -> bool {
        &&& forall|id: u128| #[trigger] self.pots.contains_key(id) ==> 1 <= id <= self.pot_seq
        &&& forall|id: u128| #[trigger]
            self.projects.contains_key(id) ==> self.projects[id].project_id == id
                && self.projects[id].balanced()
    }

    /// The ledger of `config` in which nothing has happened yet.
    pub open spec fn initial(config: ConfigView) -> LedgerView {
        LedgerView { config, pot_seq: 0, pots: Map::empty(), projects: Map::empty() }
    }

    /// This ledger with `pot` stored under `id`.
    pub open spec fn with_pot(self, id: u128, pot: PotView) -> LedgerView {
        LedgerView { pots: self.pots.insert(id, pot), ..self }
    }

    /// This ledger with `project` stored under `id`.
    pub open spec fn with_project(self, id: u128, project: ProjectStateView) -> LedgerView {
        LedgerView { projects: self.projects.insert(id, project), ..self }
    }
}

impl View for Ledger {
    type V = LedgerView;

    closed spec fn view(&self) -> LedgerView {
        LedgerView {
            config: self.config@,
            pot_seq: self.pot_seq,
            pots: self.pots@.map_values(|p: Pot| p@),
            projects: self.projects@.map_values(|p: ProjectState| p@),
        }
    }
}

impl Clone for Ledger {
    fn clone(&self) -> (copy: Ledger)
        ensures
            copy@ == self@,
    {
        proof {
            use_type_invariant(self);
        }
        Ledger {
            config: self.config.clone(),
            pot_seq: self.pot_seq,
            pots: self.pots.clone(),
            projects: self.projects.clone(),
        }
    }
}

impl Ledger {
    #[verifier::type_invariant]
    spec fn inv(&self) -> bool {
        &&& forall|id: u128| #[trigger] self.pots@.contains_key(id) ==> 1 <= id <= self.pot_seq
        &&& forall|id: u128| #[trigger]
            self.projects@.contains_key(id) ==> self.projects@[id].project_id == id
                && self.projects@[id]@.balanced()
    }

    /// A ledger of `config` whose counter stands at `pot_seq`, with no pot
    /// and no project in it yet. With the counter at zero this is the ledger
    /// in which nothing has happened; with another value it is the start of
    /// reading a ledger back from where it is kept.
    pub fn open(config: Config, pot_seq: u128) -> (ledger: Ledger)
        ensures
            ledger@ == (LedgerView { pot_seq, ..LedgerView::initial(config@) }),
            ledger@.wf(),
    {
        let ledger = Ledger { config, pot_seq, pots: BTreeMap::new(), projects: BTreeMap::new() };
        assert(ledger@.pots =~= Map::empty());
        assert(ledger@.projects =~= Map::empty());
        ledger
    }

    /// Reads a pot back into the ledger: `pot` is stored under `id` where
    /// the counter has issued `id` and the ledger holds no pot under it yet.
    /// Says whether it was stored.
    pub fn load_pot(&mut self, id: u128, pot: Pot) -> (loaded: bool)
        ensures
            loaded == (1 <= id <= old(self)@.pot_seq && !old(self)@.pots.contains_key(id)),
            loaded ==> final(self)@ == old(self)@.with_pot(id, pot@),
            !loaded ==> final(self)@ == old(self)@,
            final(self)@.wf(),
    {
        proof {
            use_type_invariant(&*self);
        }
        if id < 1 || id > self.pot_seq || self.pots.contains_key(&id) {
            return false;
        }
        self.put_pot(id, pot);
        true
    }

    /// Reads a project back into the ledger: `project` is stored under its
    /// id where its balance is the sum of what its backers gave and the
    /// ledger holds no project under that id yet. Says whether it was stored.
    pub fn load_project(&mut self, project: ProjectState) -> (loaded: bool)
        ensures
            loaded == (project@.balanced() && !old(self)@.projects.contains_key(
                project.project_id,
            )),
            loaded ==> final(self)@ == old(self)@.with_project(project.project_id, project@),
            !loaded ==> final(self)@ == old(self)@,
            final(self)@.wf(),
    {
        if self.project(project.project_id).is_some() {
            return false;
        }
        match backed_sum(&project.backer_states) {
            Some(total) => {
                if total != project.project_collected {
                    return false;
                }
            },
            None => {
                return false;
            },
        }
        self.put_project(project);
        true
    }

    /// The configuration.
    pub fn config(&self) -> (config: &Config)
        ensures
            config@ == self@.config,
            self@.wf(),
    {
        proof {
            use_type_invariant(self);
        }
        &self.config
    }

    /// The id of the pot that was created last, or zero.
    pub fn pot_seq(&self) -> (seq: u128)
        ensures
            seq == self@.pot_seq,
            self@.wf(),
    {
        proof {
            use_type_invariant(self);
        }
        self.pot_seq
    }

    /// The pot stored under `id`.
    pub fn pot(&self, id: u128) -> (found: Option<&Pot>)
        ensures
            match found {
                Some(pot) => self@.pots.contains_key(id) && self@.pots[id] == pot@,
                None => !self@.pots.contains_key(id),
            },
            self@.wf(),
    {
        proof {
            use_type_invariant(self);
        }
        self.pots.get(&id)
    }

    /// The project stored under `id`.
    pub fn project(&self, id: u128) -> (found: Option<&ProjectState>)
        ensures
            match found {
                Some(project) => self@.projects.contains_key(id) && self@.projects[id]
                    == project@,
                None => !self@.projects.contains_key(id),
            },
            self@.wf(),
    {
        proof {
            use_type_invariant(self);
        }
        self.projects.get(&id)
    }

    /// Stores `pot` under `id`, an id that the counter has issued.
    pub(crate) fn put_pot(&mut self, id: u128, pot: Pot)
        requires
            1 <= id <= old(self)@.pot_seq,
        ensures
            final(self)@ == old(self)@.with_pot(id, pot@),
            final(self)@.wf(),
    {
        proof {
            use_type_invariant(&*self);
        }
        let mut pots: BTreeMap<u128, Pot> = BTreeMap::new();
        core::mem::swap(&mut self.pots, &mut pots);
        pots.insert(id, pot);
        core::mem::swap(&mut self.pots, &mut pots);
        assert(self@.pots =~= old(self)@.pots.insert(id, pot@));
    }

    /// Stores `project` under its id.
    pub(crate) fn put_project(&mut self, project: ProjectState)
        requires
            project@.balanced(),
        ensures
            final(self)@ == old(self)@.with_project(project.project_id, project@),
            final(self)@.wf(),
    {
        proof {
            use_type_invariant(&*self);
        }
        let ghost view = project@;
        let mut projects: BTreeMap<u128, ProjectState> = BTreeMap::new();
        core::mem::swap(&mut self.projects, &mut projects);
        projects.insert(project.project_id, project);
        core::mem::swap(&mut self.projects, &mut projects);
        assert(self@.projects =~= old(self)@.projects.insert(view.project_id, view));
    }
}

/// Gives `pot` the next id and stores it. The counter stops at the largest
/// `u128`: from there on no pot can be stored.
pub fn save_pot(ledger: &mut Ledger, pot: Pot) -> (result: Result<u128, ContractError>)
    ensures
        match result {
            Ok(id) => {
                &&& id == old(ledger)@.pot_seq + 1
                &&& final(ledger)@ == (LedgerView { pot_seq: id, ..old(ledger)@ }).with_pot(
                    id,
                    pot@,
                )
            },
            Err(e) => {
                &&& e == ContractError::Overflow
                &&& old(ledger)@.pot_seq == u128::MAX
                &&& final(ledger)@ == old(ledger)@
            },
        },
        final(ledger)@.wf(),
{
    proof {
        use_type_invariant(&*ledger);
    }
    match ledger.pot_seq.checked_add(1) {
        Some(id) => {
            ledger.pot_seq = id;
            ledger.put_pot(id, pot);
            Ok(id)
        },
        None => Err(ContractError::Overflow),
    }
}

} // verus!
