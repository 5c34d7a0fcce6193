//! At most one refresh in the background at a time.
//!
//! A refresh covers all providers, so two of them at once do the same
//! work twice. The latch lets the first stale hit start a refresh and
//! turns the others away until that refresh has ended.

use vstd::prelude::*;

verus! {

/// Whether a refresh is running in the background.
#[derive(Debug, Clone, Copy, PartialEq, Eq, Structural)]
pub enum RefreshLatch {
    /// No refresh is running.
    Idle,
    /// One refresh is running.
    InFlight,
}

/// What happens at the latch.
#[derive(Debug, Clone, Copy, PartialEq, Eq, Structural)]
pub enum LatchEvent {
    /// A stale hit asks for a refresh.
    Request,
    /// A refresh has ended, well or badly.
    Finish,
}

/// The latch after one event.
pub open spec fn latch_after(latch: RefreshLatch, event: LatchEvent) -> RefreshLatch {
    match event {
        LatchEvent::Request => RefreshLatch::InFlight,
        LatchEvent::Finish => RefreshLatch::Idle,
    }
}

/// Whether an event starts a refresh: a request does, at an idle latch.
pub open spec fn starts_refresh(latch: RefreshLatch, event: LatchEvent) -> bool {
    latch is Idle && event is Request
}

/// Whether an event ends a refresh: a finish does, while one is running.
pub open spec fn ends_refresh(latch: RefreshLatch, event: LatchEvent) -> bool {
    latch is InFlight && event is Finish
}

/// The latch after a run of events, from an idle latch.
pub open spec fn latch_after_all(events: Seq<LatchEvent>) -> RefreshLatch
    decreases events.len(),
{
    if events.len() == 0 {
        RefreshLatch::Idle
    } else {
        latch_after(latch_after_all(events.drop_last()), events.last())
    }
}

/// How many refreshes are running after a run of events: those that
/// were started less those that have ended.
pub open spec fn refreshes_running(events: Seq<LatchEvent>) -> int
    decreases events.len(),
{
    if events.len() == 0 {
        0
    } else {
        let latch = latch_after_all(events.drop_last());
        let running = refreshes_running(events.drop_last());
        if starts_refresh(latch, events.last()) {
            running + 1
        } else if ends_refresh(latch, events.last()) {
            running - 1
        } else {
            running
        }
    }
}

/// Whatever happens at the latch, never more than one refresh is running:
/// one while the latch shows a refresh in flight, and none while it is
/// idle.
pub proof fn lemma_at_most_one_refresh_in_flight(events: Seq<LatchEvent>)
    ensures
        refreshes_running(events) == if latch_after_all(events) is InFlight {
            1int
        } else {
            0int
        },
        0 <= refreshes_running(events) <= 1,
    decreases events.len(),
{
    if events.len() > 0 {
        lemma_at_most_one_refresh_in_flight(events.drop_last());
    }
}

impl RefreshLatch {
    /// A latch with no refresh running.
    pub fn new() -> (latch: RefreshLatch)
        ensures
            latch is Idle,
    {
        RefreshLatch::Idle
    }

    /// A stale hit asks for a refresh in the background. The answer is
    /// `true` where the caller is to start one, which is when none is
    /// running; the latch then shows one in flight either way.
    pub fn request(&mut self) -> (start: bool)
        ensures
            start == starts_refresh(*old(self), LatchEvent::Request),
            *final(self) == latch_after(*old(self), LatchEvent::Request),
    {
        let start = match self {
            RefreshLatch::Idle => true,
            RefreshLatch::InFlight => false,
        };
        *self = RefreshLatch::InFlight;
        start
    }

    /// The refresh in the background has ended, well or badly.
    pub fn finish(&mut self)
        ensures
            *final(self) == latch_after(*old(self), LatchEvent::Finish),
    {
        *self = RefreshLatch::Idle;
    }
}

} // verus!
