//! The resume handle: the one scheduler capability a suspension unit may
//! use. A unit that is about to report "not ready" files a wake request
//! here, which tells the scheduler to poll it again. The handle also
//! counts how many wake signals it has received in all, purely for
//! observation; the scheduler's re-poll decision goes by the request flag
//! alone, so wake is a request, not a counter.

use vstd::prelude::*;

verus! {

/// The observable state of a resume handle: whether a re-poll stands
/// requested, and how many wake signals have been received in all.
pub struct HandleState {
    pub woken: bool,
    pub wakes: u64,
}

/// The state of a resume handle after one wake signal: the re-poll
/// request stands, whatever it was before, and the signal count grows by
/// one until it saturates.
pub open spec fn wake_transition(s: HandleState) -> HandleState {
    HandleState {
        woken: true,
        wakes: if s.wakes == u64::MAX {
            s.wakes
        } else {
            (s.wakes + 1) as u64
        },
    }
}

/// The per-poll context handed to a suspension unit by the scheduler.
pub struct ResumeHandle {
    requested: bool,
    count: u64,
}

impl View for ResumeHandle {
    type V = HandleState;

    closed spec fn view(&self) -> HandleState {
        HandleState { woken: self.requested, wakes: self.count }
    }
}

impl ResumeHandle {
    /// A fresh handle: no re-poll requested, no wake signals received.
    pub fn new() -> (h: ResumeHandle)
        ensures
            h@ == (HandleState { woken: false, wakes: 0 }),
    {
        ResumeHandle { requested: false, count: 0 }
    }

    /// File a wake request: the scheduler must poll the owning unit again.
    pub fn wake(&mut self)
        ensures
            final(self)@ == wake_transition(old(self)@),
    {
        self.requested = true;
        if self.count < u64::MAX {
            self.count = self.count + 1;
        }
    }

    /// Withdraw the re-poll request; the scheduler does this just before
    /// each poll. The cumulative signal count is kept.
    pub fn clear(&mut self)
        ensures
            final(self)@ == (HandleState { woken: false, wakes: old(self)@.wakes }),
    {
        self.requested = false;
    }

    /// Does a re-poll stand requested?
    pub fn is_woken(&self) -> (b: bool)
        ensures
            b == self@.woken,
    {
        self.requested
    }

    /// How many wake signals this handle has received in all.
    pub fn wake_count(&self) -> (n: u64)
        ensures
            n == self@.wakes,
    {
        self.count
    }
}

/// Wake is a request, not a counter: once one wake signal has been filed,
/// further signals before the scheduler next clears the handle leave the
/// re-poll request exactly where it was, so they cannot cause extra polls
/// beyond the one already requested.
pub proof fn lemma_wake_idempotent(s: HandleState)
    ensures
        wake_transition(s).woken,
        wake_transition(wake_transition(s)).woken == wake_transition(s).woken,
{
}

} // verus!
