//! The life of a native handle: it is constructed once, finalized at most once,
//! and never finalized unless its construction succeeded.
use crate::error::MonitorError;
use crate::replies::{discovery_outcome, discovery_spec, init_outcome, init_spec};
use vstd::prelude::*;

verus! {

/// The state of a native handle.
#[derive(Clone, Copy, Debug, PartialEq, Eq, Structural)]
pub enum Phase {
    /// Not (successfully) initialized; nothing may be called on it.
    Unconstructed,
    /// Initialized; its queries may be used.
    Active,
    /// Finalized; nothing may be called on it any more.
    Finalized,
}

/// The phase that construction leads to, given the discovery status and the reply
/// of `init` (`None`: no `init` entry point, or discovery failed so it was not called).
pub open spec fn construct_spec(discovery_status: i32, init_reply: Option<i32>) -> Result<
    Phase,
    MonitorError,
> {
    match discovery_spec(discovery_status) {
        Err(e) => Err(e),
        Ok(_) => match init_spec(init_reply) {
            Err(e) => Err(e),
            Ok(_) => Ok(Phase::Active),
        },
    }
}

/// One release of a handle in phase `p`: the next phase, and whether the
/// `finalize` entry point is to be called.
pub open spec fn release_spec(p: Phase) -> (Phase, bool) {
    if p == Phase::Active {
        (Phase::Finalized, true)
    } else {
        (p, false)
    }
}

/// `n` releases in a row from phase `p`: the last phase, and how many of them
/// called `finalize`.
pub open spec fn releases(p: Phase, n: nat) -> (Phase, nat)
    decreases n,
{
    if n == 0 {
        (p, 0)
    } else {
        let (q, called) = release_spec(p);
        let (last, count) = releases(q, (n - 1) as nat);
        (last, count + if called {
            1nat
        } else {
            0nat
        })
    }
}

/// Tracks the phase of one native handle, and decides when it is finalized.
#[derive(Debug)]
pub struct Lifecycle {
    phase: Phase,
}

impl View for Lifecycle {
    type V = Phase;

    closed spec fn view(&self) -> Phase {
        self.phase
    }
}

impl Lifecycle {
    /// A handle that has not been initialized.
    pub fn new() -> (r: Lifecycle)
        ensures
            r@ == Phase::Unconstructed,
    {
        Lifecycle { phase: Phase::Unconstructed }
    }

    /// Decides construction, given the status of discovery and the reply of `init`:
    /// a failed discovery wins over everything else, and a missing `init` succeeds.
    pub fn construct(discovery_status: i32, init_reply: Option<i32>) -> (r: Result<
        Lifecycle,
        MonitorError,
    >)
        ensures
            match (r, construct_spec(discovery_status, init_reply)) {
                (Ok(l), Ok(p)) => l@ == p,
                (Err(e), Err(f)) => e == f,
                _ => false,
            },
    {
        match discovery_outcome(discovery_status) {
            Err(e) => Err(e),
            Ok(_) => match init_outcome(init_reply) {
                Err(e) => Err(e),
                Ok(_) => Ok(Lifecycle { phase: Phase::Active }),
            },
        }
    }

    /// The current phase.
    pub fn phase(&self) -> (r: Phase)
        ensures
            r == self@,
    {
        self.phase
    }

    /// Whether the handle may be queried.
    pub fn is_active(&self) -> (r: bool)
        ensures
            r == (self@ == Phase::Active),
    {
        self.phase == Phase::Active
    }

    /// Releases the handle: returns whether its `finalize` entry point is to be
    /// called now. That is so only for an active handle, which is then finalized.
    pub fn release(&mut self) -> (r: bool)
        ensures
            (final(self)@, r) == release_spec(old(self)@),
    {
        if self.phase == Phase::Active {
            self.phase = Phase::Finalized;
            true
        } else {
            false
        }
    }
}

/// However often a handle is released, `finalize` is called at most once, and
/// only if the handle was active; a handle that was never active is never
/// finalized.
pub proof fn lemma_finalize_at_most_once(p: Phase, n: nat)
    ensures
        releases(p, n).1 <= 1,
        releases(p, n).1 == 1 <==> (p == Phase::Active && n > 0),
        p != Phase::Active ==> releases(p, n).0 == p,
    decreases n,
{
    if n > 0 {
        let q = release_spec(p).0;
        lemma_finalize_at_most_once(q, (n - 1) as nat);
    }
}

/// A handle that was constructed, queried and then released any number of
/// times is finalized exactly once, and is not active afterwards, so no
/// further query can be made.
pub proof fn lemma_construct_use_release(discovery_status: i32, init_reply: Option<i32>, n: nat)
    requires
        construct_spec(discovery_status, init_reply) is Ok,
        n > 0,
    ensures
        releases(construct_spec(discovery_status, init_reply).unwrap(), n) == (
            Phase::Finalized,
            1nat,
        ),
{
    let p = construct_spec(discovery_status, init_reply).unwrap();
    lemma_finalize_at_most_once(p, n);
    lemma_finalize_at_most_once(Phase::Finalized, (n - 1) as nat);
}

} // verus!
