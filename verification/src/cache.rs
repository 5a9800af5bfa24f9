//! The change-detection cache: one slot that holds the last observed state.

use crate::status::{State, StateView};
use vstd::prelude::*;

verus! {

/// What one evaluation does to a cache that holds `cached` when `incoming`
/// arrives: whether a notification is warranted, and what the cache holds
/// afterwards.
pub open spec fn evaluated(cached: StateView, incoming: StateView) -> (bool, StateView) {
    if cached == incoming {
        (false, cached)
    } else {
        (true, incoming)
    }
}

/// The single slot holding the last observed state.
///
/// Every change goes through `&mut self`, so a reader never sees the slot
/// half-updated and no two evaluations overlap.
#[derive(Debug)]
pub struct StatusCache {
    last: State,
}

impl View for StatusCache {
    type V = StateView;

    closed spec fn view(&self) -> StateView {
        self.last@
    }
}

impl StatusCache {
    /// A cache seeded with the state observed at startup.
    pub fn new(seed: State) -> (cache: StatusCache)
        ensures
            cache@ == seed@,
    {
        StatusCache { last: seed }
    }

    /// The state that the cache holds.
    pub fn last(&self) -> (state: &State)
        ensures
            state@ == self@,
    {
        &self.last
    }

    /// Compares `new_state` with the stored state by full structural equality,
    /// replaces the stored state only if they differ, and says whether they did.
    pub fn evaluate(&mut self, new_state: &State) -> (changed: bool)
        ensures
            changed == (old(self)@ != new_state@),
            final(self)@ == new_state@,
            (changed, final(self)@) == evaluated(old(self)@, new_state@),
    {
        if *new_state == self.last {
            false
        } else {
            self.last = new_state.clone();
            true
        }
    }
}

/// Idempotence: a state that the cache does not hold yet is reported as a
/// change, and the same state evaluated again at once is not.
pub proof fn lemma_evaluate_idempotent(cached: StateView, state: StateView)
    requires
        cached != state,
    ensures
        evaluated(cached, state).0,
        !evaluated(evaluated(cached, state).1, state).0,
        evaluated(evaluated(cached, state).1, state).1 == state,
{
}

/// Two distinct states evaluated one after the other are both reported as
/// changes, provided the cache did not already hold the first. The two states
/// are arbitrary, so the same holds with their order exchanged.
pub proof fn lemma_evaluate_distinct(cached: StateView, first: StateView, second: StateView)
    requires
        first != second,
        cached != first,
    ensures
        evaluated(cached, first).0,
        evaluated(evaluated(cached, first).1, second).0,
        evaluated(evaluated(cached, first).1, second).1 == second,
{
}

/// Whatever the cache held, a state evaluated a second time in a row is
/// reported as unchanged, and the cache holds the last state evaluated.
pub proof fn lemma_evaluate_repeat(cached: StateView, state: StateView)
    ensures
        evaluated(cached, state).1 == state,
        !evaluated(evaluated(cached, state).1, state).0,
{
}

} // verus!
