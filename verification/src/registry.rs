//! The registry of active searches: for each project, the search view
//! that was focused most recently, so that reopening the search panel
//! returns to it.  The application shell owns one registry and injects
//! it where it is needed; there is no ambient global.

use vstd::prelude::*;
use std::collections::HashMap;

verus! {

/// The most recently focused search view of each project.  Projects
/// and views are identified by the ranks the shell assigns them.
pub struct ActiveSearches {
    map: HashMap<u64, u64>,
}

impl View for ActiveSearches {
    type V = Map<u64, u64>;

    closed spec fn view(&self) -> Map<u64, u64> {
        self.map@
    }
}

impl ActiveSearches {
    /// An empty registry.
    pub fn new() -> (r: Self)
        ensures
            r@ == Map::<u64, u64>::empty(),
    {
        ActiveSearches { map: HashMap::new() }
    }

    /// Records `view_id` as the active search of `project`, replacing
    /// any earlier one.
    pub fn record(&mut self, project: u64, view_id: u64)
        ensures
            final(self)@ == old(self)@.insert(project, view_id),
    {
        broadcast use vstd::std_specs::hash::group_hash_axioms;

        self.map.insert(project, view_id);
    }

    /// The active search view of `project`, if one was recorded.
    pub fn active_view(&self, project: u64) -> (r: Option<u64>)
        ensures
            (r is Some) <==> self@.contains_key(project),
            r is Some ==> r->Some_0 == self@[project],
    {
        broadcast use vstd::std_specs::hash::group_hash_axioms;

        match self.map.get(&project) {
            Some(view_id) => Some(*view_id),
            None => None,
        }
    }

    /// Forgets the entry of `project`, as when the project was
    /// dropped.
    pub fn forget(&mut self, project: u64)
        ensures
            final(self)@ == old(self)@.remove(project),
    {
        broadcast use vstd::std_specs::hash::group_hash_axioms;

        self.map.remove(&project);
    }

    /// How many projects have an active search.
    pub fn len(&self) -> (r: usize)
        ensures
            r == self@.dom().len(),
    {
        broadcast use vstd::std_specs::hash::group_hash_axioms;

        self.map.len()
    }
}

} // verus!
