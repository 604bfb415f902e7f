//! A slot for a process-wide instance that is constructed at most once.
//!
//! The first `obtain` on an empty slot runs the construction; its outcome,
//! success or failure, is kept for good. Every later `obtain` sees that same
//! outcome and constructs nothing. Callers that share the slot across threads
//! hold it behind a lock, so that concurrent first accesses are ordered and
//! collapse into one construction.
use vstd::prelude::*;

verus! {

/// What a slot holds.
pub enum SlotState<T> {
    /// No construction was attempted yet.
    Vacant,
    /// The one construction failed: no instance is available, now or later.
    Failed,
    /// The one construction succeeded with this instance.
    Filled(T),
}

/// The state that a construction with `outcome` leaves a slot in.
pub open spec fn settled<T>(outcome: Option<T>) -> SlotState<T> {
    match outcome {
        None => SlotState::Failed,
        Some(v) => SlotState::Filled(v),
    }
}

/// One `obtain` on a slot in state `s`, where the construction would give
/// `outcome`: the next state, and whether a construction was run.
pub open spec fn obtain_spec<T>(s: SlotState<T>, outcome: Option<T>) -> (SlotState<T>, bool) {
    match s {
        SlotState::Vacant => (settled(outcome), true),
        _ => (s, false),
    }
}

/// A run of `obtain` calls from state `s`, the `i`-th of which would construct
/// `outcomes[i]`: the last state, and how many constructions were run.
pub open spec fn obtains<T>(s: SlotState<T>, outcomes: Seq<Option<T>>) -> (SlotState<T>, nat)
    decreases outcomes.len(),
{
    if outcomes.len() == 0 {
        (s, 0)
    } else {
        let (prev, count) = obtains(s, outcomes.drop_last());
        let (next, ran) = obtain_spec(prev, outcomes.last());
        (next, count + if ran {
            1nat
        } else {
            0nat
        })
    }
}

/// A slot for one lazily constructed instance.
pub struct OnceSlot<T> {
    state: SlotState<T>,
    constructions: Ghost<nat>,
}

impl<T> OnceSlot<T> {
    /// What the slot holds.
    pub closed spec fn state(&self) -> SlotState<T> {
        self.state
    }

    /// How many constructions the slot has run.
    pub closed spec fn constructions(&self) -> nat {
        self.constructions@
    }

    /// A slot has run a construction exactly when it is no longer vacant.
    pub open spec fn wf(&self) -> bool {
        self.constructions() == if self.state() is Vacant {
            0nat
        } else {
            1nat
        }
    }

    /// An empty slot.
    pub fn new() -> (r: OnceSlot<T>)
        ensures
            r.wf(),
            r.state() is Vacant,
            r.constructions() == 0,
    {
        OnceSlot { state: SlotState::Vacant, constructions: Ghost(0) }
    }

    /// Obtains the instance, running `construct` if and only if the slot is
    /// vacant. A failed construction (`None`) is kept and never retried.
    /// Returns whether an instance is available.
    pub fn obtain<F: FnOnce() -> Option<T>>(&mut self, construct: F) -> (r: bool)
        requires
            old(self).wf(),
            old(self).state() is Vacant ==> call_requires(construct, ()),
        ensures
            final(self).wf(),
            old(self).state() is Vacant ==> exists|outcome: Option<T>|
                call_ensures(construct, (), outcome) && (final(self).state(), true) == obtain_spec(
                    old(self).state(),
                    outcome,
                ),
            !(old(self).state() is Vacant) ==> final(self).state() == old(self).state(),
            final(self).constructions() == old(self).constructions() + if old(
                self,
            ).state() is Vacant {
                1nat
            } else {
                0nat
            },
            r == final(self).state() is Filled,
    {
        if let SlotState::Vacant = self.state {
            let outcome = construct();
            let ghost made = outcome;
            self.state = match outcome {
                None => SlotState::Failed,
                Some(v) => SlotState::Filled(v),
            };
            self.constructions = Ghost(self.constructions@ + 1);
            assert(call_ensures(construct, (), made));
            assert((self.state, true) == obtain_spec(SlotState::<T>::Vacant, made));
        }
        match self.state {
            SlotState::Filled(_) => true,
            _ => false,
        }
    }

    /// The instance, if one was constructed.
    pub fn get(&self) -> (r: Option<&T>)
        ensures
            match self.state() {
                SlotState::Filled(v) => r == Some(&v),
                _ => r is None,
            },
    {
        match &self.state {
            SlotState::Filled(v) => Some(v),
            _ => None,
        }
    }

    /// Whether the one construction was attempted and failed.
    pub fn has_failed(&self) -> (r: bool)
        ensures
            r == self.state() is Failed,
    {
        match self.state {
            SlotState::Failed => true,
            _ => false,
        }
    }
}

/// However many callers obtain from an empty slot, exactly one construction is
/// run, the first; after each call every caller sees the outcome of that one
/// construction, so all of them share the same instance.
pub proof fn lemma_single_construction<T>(outcomes: Seq<Option<T>>, i: int)
    requires
        1 <= i <= outcomes.len(),
    ensures
        obtains(SlotState::<T>::Vacant, outcomes.take(i)) == (settled(outcomes[0]), 1nat),
    decreases i,
{
    let prefix = outcomes.take(i);
    assert(prefix.drop_last() =~= outcomes.take(i - 1));
    assert(prefix.last() == outcomes[i - 1]);
    if i == 1 {
        assert(outcomes.take(0) =~= Seq::<Option<T>>::empty());
        assert(obtains(SlotState::<T>::Vacant, outcomes.take(0)) == (SlotState::<T>::Vacant, 0nat));
    } else {
        lemma_single_construction(outcomes, i - 1);
    }
}

/// Once the construction has failed, every later `obtain`, however many,
/// reports that no instance is available and runs no construction.
pub proof fn lemma_failure_is_permanent<T>(outcomes: Seq<Option<T>>)
    ensures
        obtains(SlotState::<T>::Failed, outcomes) == (SlotState::<T>::Failed, 0nat),
    decreases outcomes.len(),
{
    if outcomes.len() > 0 {
        lemma_failure_is_permanent(outcomes.drop_last());
    }
}

} // verus!
