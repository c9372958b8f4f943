//! A minimal run-to-completion scheduler for a single suspension unit.
//!
//! The driver polls the unit, clearing the resume handle's re-poll
//! request before each poll and polling again only because a pending unit
//! is proved to have filed a new request. Its contract pins down the
//! exact poll and wake counts: a unit whose probe first completes at
//! index `n` is polled `n + 1` times and files `n` wake requests, one per
//! pending poll — deterministic busy-polling, as the design accepts.

use vstd::prelude::*;

use crate::handle::ResumeHandle;
use crate::probe::first_true_index;
use crate::probe::first_value_index;
use crate::probe::has_true;
use crate::probe::has_value;
use crate::probe::lemma_first_true_index;
use crate::probe::lemma_first_value_index;
use crate::probe::BoolProbe;
use crate::probe::ValueProbe;
use crate::unit::UnitPoll;
use crate::unit::UntilSome;
use crate::unit::UntilTrue;

verus! {

/// What one run-to-completion drive observed: how often the unit was
/// polled, and how many wake signals the resume handle received.
#[derive(Clone, Copy, Debug, PartialEq, Eq)]
pub struct RunReport {
    pub polls: u64,
    pub wakes: u64,
}

/// Drive a boolean-probe unit to completion: poll it until the probe
/// answers `true`. The unit completes on the poll just after its probe's
/// first completing reply, with one wake signal per pending poll before
/// that.
#[verifier::loop_isolation(false)]
pub fn run<P: BoolProbe>(unit: UntilTrue<P>) -> (r: RunReport)
    requires
        !unit.spent(),
        has_true(unit.outcomes()),
        unit.outcomes().len() <= u64::MAX,
    ensures
        r.polls == first_true_index(unit.outcomes()) + 1,
        r.wakes == first_true_index(unit.outcomes()),
{
    let ghost n0 = first_true_index(unit.outcomes());
    proof {
        lemma_first_true_index(unit.outcomes());
    }
    let mut unit = unit;
    let mut handle = ResumeHandle::new();
    let mut polls: u64 = 0;
    loop
        invariant
            !unit.spent(),
            has_true(unit.outcomes()),
            first_true_index(unit.outcomes()) == n0 - polls,
            polls <= n0,
            n0 <= u64::MAX - 1,
            handle@.wakes == polls,
        decreases n0 - polls,
    {
        proof {
            lemma_first_true_index(unit.outcomes());
        }
        let ghost before = unit.outcomes();
        handle.clear();
        match unit.poll(&mut handle) {
            UnitPoll::Ready(_) => {
                proof {
                    assert(before.first());
                    if n0 - polls > 0 {
                        assert(!before[0]);
                        assert(false);
                    }
                    assert(polls == n0);
                }
                return RunReport { polls: polls + 1, wakes: handle.wake_count() };
            },
            UnitPoll::Pending => {
                proof {
                    // The invariant of the whole design: a pending poll
                    // always leaves a re-poll request on the handle, so
                    // the driver is entitled to poll again.
                    assert(handle@.woken);
                    assert(!before.first());
                    assert(unit.outcomes() == before.drop_first());
                    assert(has_true(unit.outcomes())) by {
                        assert(unit.outcomes()[n0 - polls - 1] == before[n0 - polls]);
                    }
                }
            },
            UnitPoll::Spent => {
                proof {
                    assert(false);
                }
            },
        }
        polls = polls + 1;
    }
}

/// Drive a value-probe unit to completion: poll it until the probe
/// answers `Some`, and hand that first value back. The unit completes on
/// the poll just after its probe's first result-carrying reply, with one
/// wake signal per pending poll before that.
#[verifier::loop_isolation(false)]
pub fn run_value<P: ValueProbe>(unit: UntilSome<P>) -> (r: (P::Output, RunReport))
    requires
        !unit.spent(),
        has_value(unit.outcomes()),
        unit.outcomes().len() <= u64::MAX,
    ensures
        unit.outcomes()[first_value_index(unit.outcomes())] == Some(r.0),
        r.1.polls == first_value_index(unit.outcomes()) + 1,
        r.1.wakes == first_value_index(unit.outcomes()),
{
    let ghost s0 = unit.outcomes();
    let ghost n0 = first_value_index(s0);
    proof {
        lemma_first_value_index(s0);
    }
    let mut unit = unit;
    let mut handle = ResumeHandle::new();
    let mut polls: u64 = 0;
    loop
        invariant
            !unit.spent(),
            has_value(unit.outcomes()),
            first_value_index(unit.outcomes()) == n0 - polls,
            unit.outcomes()[n0 - polls] == s0[n0],
            polls <= n0,
            n0 <= u64::MAX - 1,
            n0 == first_value_index(s0),
            s0[n0] is Some,
            handle@.wakes == polls,
        decreases n0 - polls,
    {
        proof {
            lemma_first_value_index(unit.outcomes());
        }
        let ghost before = unit.outcomes();
        handle.clear();
        match unit.poll(&mut handle) {
            UnitPoll::Ready(v) => {
                proof {
                    assert(before.first() is Some);
                    if n0 - polls > 0 {
                        assert(before[0] is None);
                        assert(false);
                    }
                    assert(polls == n0);
                    assert(before.first() == s0[n0]);
                }
                return (v, RunReport { polls: polls + 1, wakes: handle.wake_count() });
            },
            UnitPoll::Pending => {
                proof {
                    // The invariant of the whole design: a pending poll
                    // always leaves a re-poll request on the handle, so
                    // the driver is entitled to poll again.
                    assert(handle@.woken);
                    assert(before.first() is None);
                    assert(unit.outcomes() == before.drop_first());
                    assert(unit.outcomes()[n0 - polls - 1] == before[n0 - polls]);
                    assert(has_value(unit.outcomes()));
                }
            },
            UnitPoll::Spent => {
                proof {
                    assert(false);
                }
            },
        }
        polls = polls + 1;
    }
}

} // verus!
