//! Which threads there are, and on which of them a turn is running.

use vstd::hash_map::StringHashMap;
use vstd::prelude::*;

verus! {

/// The threads that are known, each with whether a turn is running on it.
pub struct OpenCodeThreadLifecycle {
    turns_by_thread: StringHashMap<bool>,
}

impl View for OpenCodeThreadLifecycle {
    type V = Map<Seq<char>, bool>;

    closed spec fn view(&self) -> Map<Seq<char>, bool> {
        self.turns_by_thread@
    }
}

/// The threads after `thread_id` has become known; one that is known already stays as it is.
pub open spec fn registered(turns: Map<Seq<char>, bool>, thread_id: Seq<char>) -> Map<
    Seq<char>,
    bool,
> {
    if turns.contains_key(thread_id) {
        turns
    } else {
        turns.insert(thread_id, false)
    }
}

/// Whether a turn is running on `thread_id`; on an unknown thread none is.
pub open spec fn turn_active(turns: Map<Seq<char>, bool>, thread_id: Seq<char>) -> bool {
    turns.contains_key(thread_id) && turns[thread_id]
}

impl Default for OpenCodeThreadLifecycle {
    /// No thread is known.
    fn default() -> (lifecycle: OpenCodeThreadLifecycle)
        ensures
            lifecycle@ == Map::<Seq<char>, bool>::empty(),
    {
        OpenCodeThreadLifecycle { turns_by_thread: StringHashMap::new() }
    }
}

impl OpenCodeThreadLifecycle {
    /// Makes a thread known.
    pub fn register_thread(&mut self, thread_id: &str)
        ensures
            final(self)@ == registered(old(self)@, thread_id@),
    {
        if !self.turns_by_thread.contains_key(thread_id) {
            self.turns_by_thread.insert(thread_id.to_owned(), false);
        }
    }

    /// A turn starts on a thread.
    pub fn mark_turn_started(&mut self, thread_id: &str)
        ensures
            final(self)@ == old(self)@.insert(thread_id@, true),
    {
        self.turns_by_thread.insert(thread_id.to_owned(), true);
    }

    /// The turn on a thread is over.
    pub fn mark_turn_completed(&mut self, thread_id: &str)
        ensures
            final(self)@ == old(self)@.insert(thread_id@, false),
    {
        self.turns_by_thread.insert(thread_id.to_owned(), false);
    }

    /// Whether a turn is running on a thread.
    pub fn is_turn_active(&self, thread_id: &str) -> (active: bool)
        ensures
            active == turn_active(self@, thread_id@),
    {
        match self.turns_by_thread.get(thread_id) {
            Some(active) => *active,
            None => false,
        }
    }
}

} // verus!
