//! The session registry: which sessions are alive, and how far each has come.

use vstd::prelude::*;
use std::collections::HashMap;

verus! {

broadcast use vstd::std_specs::hash::group_hash_axioms;

/// How far a session has come. A session without an open transport still
/// holds the data channel that the application will get; one with an open
/// transport has a handler instead.
#[derive(Debug, Clone, Copy, PartialEq, Eq, Structural)]
pub enum Phase {
    TransportPending,
    Active,
}

/// The sessions that are alive, by id.
pub struct Registry {
    sessions: HashMap<u64, Phase>,
}

impl View for Registry {
    type V = Map<u64, Phase>;

    closed spec fn view(&self) -> Map<u64, Phase> {
        self.sessions@
    }
}

impl Registry {
    pub fn new() -> (registry: Registry)
        ensures
            registry@ == Map::<u64, Phase>::empty(),
    {
        Registry { sessions: HashMap::new() }
    }

    /// Records `phase` for `id`, in place of what was recorded before.
    pub fn insert(&mut self, id: u64, phase: Phase)
        ensures
            final(self)@ == old(self)@.insert(id, phase),
    {
        self.sessions.insert(id, phase);
    }

    pub fn get(&self, id: u64) -> (found: Option<Phase>)
        ensures
            found == (if self@.contains_key(id) {
                Some(self@[id])
            } else {
                None
            }),
    {
        match self.sessions.get(&id) {
            Some(phase) => Some(*phase),
            None => None,
        }
    }

    /// Forgets `id` and returns what was recorded for it.
    pub fn remove(&mut self, id: u64) -> (removed: Option<Phase>)
        ensures
            final(self)@ == old(self)@.remove(id),
            removed == (if old(self)@.contains_key(id) {
                Some(old(self)@[id])
            } else {
                None
            }),
    {
        self.sessions.remove(&id)
    }

    pub fn len(&self) -> (n: usize)
        ensures
            n == self@.len(),
            self@.dom().finite(),
    {
        self.sessions.len()
    }
}

} // verus!
