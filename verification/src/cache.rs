//! What one side of the screen keeps of the directories it has listed.

use vstd::prelude::*;
use crate::assoc::{
    distinct_keys, lemma_map_of_absent, lemma_map_of_at, lemma_map_of_len, lemma_map_of_push,
    lemma_map_of_remove, map_of,
};
use crate::pane::{DirectoryView, PaneModel};

verus! {

/// What one side of the screen keeps for a directory: either the directory
/// is the one on show, and its pane is with the browser, or the pane rests
/// here until the directory is shown again.
#[derive(Debug)]
pub enum DirectoryViewState {
    Active,
    Inactive(DirectoryView),
}

/// The mathematical content of a [`DirectoryViewState`].
pub enum SlotModel {
    Active,
    Inactive(PaneModel),
}

impl View for DirectoryViewState {
    type V = SlotModel;

    open spec fn view(&self) -> SlotModel {
        match self {
            DirectoryViewState::Active => SlotModel::Active,
            DirectoryViewState::Inactive(pane) => SlotModel::Inactive(pane@),
        }
    }
}

/// The directories that one side of the screen has listed, by absolute path.
/// It holds at most one state for a path.
#[derive(Debug)]
pub struct DirectoryViews {
    slots: Vec<(String, DirectoryViewState)>,
}

impl View for DirectoryViews {
    type V = Map<Seq<char>, SlotModel>;

    closed spec fn view(&self) -> Map<Seq<char>, SlotModel> {
        map_of(self.pairs())
    }
}

impl DirectoryViews {
    /// The paths and states held, in the order of storage.
    spec fn pairs(&self) -> Seq<(Seq<char>, SlotModel)> {
        Seq::new(self.slots@.len(), |i: int| (self.slots@[i].0@, self.slots@[i].1@))
    }

    /// No path is held twice.
    pub closed spec fn wf(&self) -> bool {
        distinct_keys(self.pairs())
    }

    /// A cache that holds nothing.
    pub fn new() -> (views: DirectoryViews)
        ensures
            views.wf(),
            views@ == Map::<Seq<char>, SlotModel>::empty(),
    {
        let views = DirectoryViews { slots: Vec::new() };
        assert(views@ =~= Map::<Seq<char>, SlotModel>::empty()) by {
            assert forall|key: Seq<char>| !views@.contains_key(key) by {
                lemma_map_of_absent(views.pairs(), key);
            }
        }
        views
    }

    /// Where the state for a path is stored.
    fn find(&self, path: &String) -> (found: Option<usize>)
        requires
            self.wf(),
        ensures
            match found {
                Some(at) => at < self.slots@.len() && self.slots@[at as int].0@ == path@
                    && self@.contains_key(path@) && self@[path@] == self.slots@[at as int].1@,
                None => !self@.contains_key(path@),
            },
    {
        let mut at: usize = 0;
        while at < self.slots.len()
            invariant
                at <= self.slots@.len(),
                forall|i: int| 0 <= i < at ==> self.pairs()[i].0 != path@,
                self.wf(),
            decreases self.slots@.len() - at,
        {
            if self.slots[at].0 == *path {
                proof {
                    lemma_map_of_at(self.pairs(), at as int);
                }
                return Some(at);
            }
            at += 1;
        }
        proof {
            lemma_map_of_absent(self.pairs(), path@);
        }
        None
    }

    /// Whether a state is held for the path and, if so, whether the
    /// directory is the one on show.
    pub fn is_active(&self, path: &String) -> (active: Option<bool>)
        requires
            self.wf(),
        ensures
            match active {
                Some(on_show) => self@.contains_key(path@) && on_show == (self@[path@] is Active),
                None => !self@.contains_key(path@),
            },
    {
        match self.find(path) {
            Some(at) => {
                match &self.slots[at].1 {
                    DirectoryViewState::Active => Some(true),
                    DirectoryViewState::Inactive(_) => Some(false),
                }
            },
            None => None,
        }
    }

    /// Takes the state of a path out.
    pub fn remove(&mut self, path: &String) -> (state: Option<DirectoryViewState>)
        requires
            old(self).wf(),
        ensures
            final(self).wf(),
            final(self)@ == old(self)@.remove(path@),
            match state {
                Some(held) => old(self)@.contains_key(path@) && held@ == old(self)@[path@],
                None => !old(self)@.contains_key(path@),
            },
    {
        match self.find(path) {
            Some(at) => {
                proof {
                    lemma_map_of_remove(self.pairs(), at as int);
                }
                let slot = self.slots.remove(at);
                assert(self.pairs() =~= old(self).pairs().remove(at as int));
                Some(slot.1)
            },
            None => None,
        }
    }

    /// Sets the state of a path, in place of any that was held for it.
    pub fn insert(&mut self, path: String, state: DirectoryViewState)
        requires
            old(self).wf(),
        ensures
            final(self).wf(),
            final(self)@ == old(self)@.insert(path@, state@),
    {
        let _ = self.remove(&path);
        proof {
            lemma_map_of_push(self.pairs(), path@, state@);
        }
        let ghost before = self.pairs();
        self.slots.push((path, state));
        assert(self.pairs() =~= before.push((path@, state@)));
    }

    /// Sets the state of a path unless one is held for it: a state that is
    /// held is never replaced.
    pub fn insert_if_absent(&mut self, path: String, state: DirectoryViewState)
        requires
            old(self).wf(),
        ensures
            final(self).wf(),
            final(self)@ == if old(self)@.contains_key(path@) {
                old(self)@
            } else {
                old(self)@.insert(path@, state@)
            },
    {
        if self.find(&path).is_none() {
            proof {
                lemma_map_of_push(self.pairs(), path@, state@);
            }
            self.slots.push((path, state));
            assert(self.pairs() =~= old(self).pairs().push((path@, state@)));
        }
    }

    /// How many paths a state is held for.
    pub fn len(&self) -> (n: usize)
        requires
            self.wf(),
        ensures
            n == self@.len(),
            self@.dom().finite(),
    {
        proof {
            lemma_map_of_len(self.pairs());
        }
        self.slots.len()
    }
}

} // verus!
