//! Suspension units: each owns exactly one probe and is polled by the
//! host scheduler. The single correctness invariant of the whole crate
//! is stated on `poll`: a unit never reports pending without first filing
//! a wake request on the scheduler's resume handle, and it touches the
//! handle in no other case.

use vstd::prelude::*;

use crate::handle::wake_transition;
use crate::handle::ResumeHandle;
use crate::probe::BoolProbe;
use crate::probe::ValueProbe;

verus! {

/// The outcome of one poll of a suspension unit.
#[derive(Debug, PartialEq, Eq)]
pub enum UnitPoll<T> {
    /// The probe has not signalled completion; a wake request was filed.
    Pending,
    /// The probe signalled completion; the unit is now spent.
    Ready(T),
    /// The unit was polled again after completing. Completion consumes a
    /// unit, so this is a checked misuse error, not a probe outcome; the
    /// probe is not invoked and the handle is left alone.
    Spent,
}

/// A suspension unit over a boolean probe: pending until the probe first
/// answers `true`, completing with no payload.
pub struct UntilTrue<P: BoolProbe> {
    probe: P,
    spent: bool,
}

/// Wrap a boolean probe as a suspension unit that completes, with no
/// payload, when the probe first answers `true`.
pub fn until_true<P: BoolProbe>(probe: P) -> (u: UntilTrue<P>)
    ensures
        u.outcomes() == probe.outcomes(),
        !u.spent(),
{
    UntilTrue { probe, spent: false }
}

impl<P: BoolProbe> UntilTrue<P> {
    /// The replies the owned probe will give to future calls.
    pub closed spec fn outcomes(&self) -> Seq<bool> {
        self.probe.outcomes()
    }

    /// Has this unit already completed?
    pub closed spec fn spent(&self) -> bool {
        self.spent
    }

    /// One poll by the scheduler: invoke the probe exactly once; complete
    /// on `true`, otherwise file a wake request and report pending. A
    /// spent unit reports the misuse error and does nothing else.
    pub fn poll(&mut self, handle: &mut ResumeHandle) -> (r: UnitPoll<()>)
        requires
            old(self).spent() || old(self).outcomes().len() > 0,
        ensures
            r is Spent <==> old(self).spent(),
            old(self).spent() ==> final(self).outcomes() == old(self).outcomes()
                && final(self).spent() && final(handle)@ == old(handle)@,
            !old(self).spent() ==> final(self).outcomes() == old(self).outcomes().drop_first(),
            !old(self).spent() ==> (r is Ready <==> old(self).outcomes().first()),
            !old(self).spent() && old(self).outcomes().first() ==> final(self).spent()
                && final(handle)@ == old(handle)@,
            !old(self).spent() && !old(self).outcomes().first() ==> r is Pending
                && !final(self).spent() && final(handle)@ == wake_transition(old(handle)@),
    {
        if self.spent {
            return UnitPoll::Spent;
        }
        if self.probe.probe() {
            self.spent = true;
            UnitPoll::Ready(())
        } else {
            handle.wake();
            UnitPoll::Pending
        }
    }
}

/// A suspension unit over a value probe: pending until the probe first
/// answers `Some`, completing with that value.
pub struct UntilSome<P: ValueProbe> {
    probe: P,
    spent: bool,
}

/// Wrap a value probe as a suspension unit that completes with the first
/// value the probe produces.
pub fn until_some<P: ValueProbe>(probe: P) -> (u: UntilSome<P>)
    ensures
        u.outcomes() == probe.outcomes(),
        !u.spent(),
{
    UntilSome { probe, spent: false }
}

impl<P: ValueProbe> UntilSome<P> {
    /// The replies the owned probe will give to future calls.
    pub closed spec fn outcomes(&self) -> Seq<Option<P::Output>> {
        self.probe.outcomes()
    }

    /// Has this unit already completed?
    pub closed spec fn spent(&self) -> bool {
        self.spent
    }

    /// One poll by the scheduler: invoke the probe exactly once; complete
    /// with the value on `Some`, otherwise file a wake request and report
    /// pending. A spent unit reports the misuse error and does nothing
    /// else.
    pub fn poll(&mut self, handle: &mut ResumeHandle) -> (r: UnitPoll<P::Output>)
        requires
            old(self).spent() || old(self).outcomes().len() > 0,
        ensures
            r is Spent <==> old(self).spent(),
            old(self).spent() ==> final(self).outcomes() == old(self).outcomes()
                && final(self).spent() && final(handle)@ == old(handle)@,
            !old(self).spent() ==> final(self).outcomes() == old(self).outcomes().drop_first(),
            !old(self).spent() ==> (r is Ready <==> old(self).outcomes().first() is Some),
            old(self).outcomes().first() matches Some(v) ==> (!old(self).spent() ==> r
                == UnitPoll::Ready(v) && final(self).spent() && final(handle)@ == old(handle)@),
            !old(self).spent() && old(self).outcomes().first() is None ==> r is Pending
                && !final(self).spent() && final(handle)@ == wake_transition(old(handle)@),
    {
        if self.spent {
            return UnitPoll::Spent;
        }
        match self.probe.probe() {
            Some(v) => {
                self.spent = true;
                UnitPoll::Ready(v)
            },
            None => {
                handle.wake();
                UnitPoll::Pending
            },
        }
    }
}

} // verus!
