//! The stop signal that one orchestration run broadcasts to its polling
//! loops.
//!
//! The broadcaster is a single-writer, multi-reader flag: the orchestrator
//! owns the value and is the only writer (the signaler role), every polling
//! loop holds a [`StopObserver`] obtained from [`CancellationBroadcaster::subscribe`]
//! (the observer-factory role). The flag is set at most logically once per
//! run — firing again changes nothing — and is never reset, so once it is
//! set every observer's next check reports it.

use vstd::prelude::*;

verus! {

/// The broadcast stop flag of one orchestration run.
///
/// Owned by the orchestrator; polling loops only ever read it through a
/// [`StopObserver`].
pub struct CancellationBroadcaster {
    fired: bool,
}

/// A read-only handle on the broadcaster, one per polling loop.
///
/// Observers carry no state of their own: what a check reports depends only
/// on the broadcaster at the moment of the check, never on when the
/// observer was subscribed.
pub struct StopObserver {}

impl CancellationBroadcaster {
    /// Whether the stop signal has been fired.
    pub closed spec fn spec_fired(self) -> bool {
        self.fired
    }

    /// The broadcaster state that firing leaves behind, whatever the state
    /// before: the mathematical model of [`CancellationBroadcaster::fire`].
    pub closed spec fn spec_after_fire(self) -> CancellationBroadcaster {
        CancellationBroadcaster { fired: true }
    }

    /// A fresh broadcaster for one orchestration run; not yet fired.
    pub fn new() -> (b: CancellationBroadcaster)
        ensures
            !b.spec_fired(),
    {
        CancellationBroadcaster { fired: false }
    }

    /// Broadcast the stop signal. Firing an already-fired broadcaster is a
    /// no-op, not an error.
    pub fn fire(&mut self)
        ensures
            *final(self) == old(self).spec_after_fire(),
            final(self).spec_fired(),
    {
        self.fired = true;
    }

    /// Hand out one more read-only observer. Observers may be subscribed at
    /// any time, before or after the signal fires.
    pub fn subscribe(&self) -> (o: StopObserver)
    {
        StopObserver {}
    }

    /// Read the flag directly; the orchestrator's own view of it.
    pub fn is_fired(&self) -> (r: bool)
        ensures
            r == self.spec_fired(),
    {
        self.fired
    }
}

impl StopObserver {
    /// One check of the stop flag, as a polling loop performs at each of
    /// its suspension points. The answer depends only on the broadcaster's
    /// current state.
    pub fn sees_stop(&self, b: &CancellationBroadcaster) -> (r: bool)
        ensures
            r == b.spec_fired(),
    {
        b.is_fired()
    }
}

/// Firing the broadcaster twice has exactly the effect of firing it once,
/// and a fired broadcaster reports the signal.
pub proof fn lemma_fire_idempotent(b: CancellationBroadcaster)
    ensures
        b.spec_after_fire().spec_after_fire() == b.spec_after_fire(),
        b.spec_after_fire().spec_fired(),
{
}

/// An observer subscribed only after the signal fired still reports the
/// stop on its first check: whatever a check of a fired broadcaster may
/// return, it returns true.
pub proof fn lemma_late_subscription_sees_stop(b: CancellationBroadcaster, o: StopObserver)
    requires
        b.spec_fired(),
    ensures
        forall|r: bool| call_ensures(StopObserver::sees_stop, (&o, &b), r) ==> r == true,
{
}

} // verus!
