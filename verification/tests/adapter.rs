use until::run;
use until::run_value;
use until::until_some;
use until::until_true;
use until::BoolProbe;
use until::ResumeHandle;
use until::ScriptedBoolProbe;
use until::ScriptedValueProbe;
use until::UnitPoll;
use until::ValueProbe;

#[test]
fn until_true_once() {
    run(until_true(ScriptedBoolProbe::new(vec![true])));
}

#[test]
fn until_true_twice() {
    run(until_true(ScriptedBoolProbe::new(vec![false, true])));
}

#[test]
fn until_some_once() {
    assert_eq!((), run_value(until_some(ScriptedValueProbe::new(vec![Some(())]))).0);
}

#[test]
fn until_some_twice() {
    let resolved = run_value(until_some(ScriptedValueProbe::new(vec![None, Some(())]))).0;
    assert_eq!((), resolved);
}

#[test]
fn constant_true_completes_immediately() {
    let report = run(until_true(ScriptedBoolProbe::new(vec![true])));
    assert_eq!(report.polls, 1);
    assert_eq!(report.wakes, 0);
}

#[test]
fn false_then_true_takes_two_polls_one_wake() {
    let report = run(until_true(ScriptedBoolProbe::new(vec![false, true])));
    assert_eq!(report.polls, 2);
    assert_eq!(report.wakes, 1);
}

#[test]
fn none_then_some_yields_value_after_two_polls() {
    let (value, report) = run_value(until_some(ScriptedValueProbe::new(vec![None, Some(42)])));
    assert_eq!(value, 42);
    assert_eq!(report.polls, 2);
    assert_eq!(report.wakes, 1);
}

#[test]
fn one_wake_per_pending_poll() {
    let report = run(until_true(ScriptedBoolProbe::new(vec![false, false, false, true])));
    assert_eq!(report.polls, 4);
    assert_eq!(report.wakes, 3);
}

#[test]
fn one_wake_per_absent_value() {
    let (value, report) = run_value(until_some(ScriptedValueProbe::new(vec![None, None, Some(7)])));
    assert_eq!(value, 7);
    assert_eq!(report.polls, 3);
    assert_eq!(report.wakes, 2);
}

#[test]
fn first_value_wins() {
    let (value, report) = run_value(until_some(ScriptedValueProbe::new(vec![None, Some(1), Some(2)])));
    assert_eq!(value, 1);
    assert_eq!(report.polls, 2);
    assert_eq!(report.wakes, 1);
}

#[test]
fn replies_after_completion_are_never_asked_for() {
    let report = run(until_true(ScriptedBoolProbe::new(vec![true, false, false])));
    assert_eq!(report.polls, 1);
    assert_eq!(report.wakes, 0);
}

#[test]
fn pending_poll_files_wake_request() {
    let mut unit = until_true(ScriptedBoolProbe::new(vec![false, true]));
    let mut handle = ResumeHandle::new();

    assert!(!handle.is_woken());
    let first = unit.poll(&mut handle);
    assert_eq!(first, UnitPoll::Pending);
    assert!(handle.is_woken());
    assert_eq!(handle.wake_count(), 1);

    handle.clear();
    let second = unit.poll(&mut handle);
    assert_eq!(second, UnitPoll::Ready(()));
    assert!(!handle.is_woken());
    assert_eq!(handle.wake_count(), 1);
}

#[test]
fn completing_poll_sends_no_wake() {
    let mut unit = until_some(ScriptedValueProbe::new(vec![Some(9)]));
    let mut handle = ResumeHandle::new();
    let outcome = unit.poll(&mut handle);
    assert_eq!(outcome, UnitPoll::Ready(9));
    assert!(!handle.is_woken());
    assert_eq!(handle.wake_count(), 0);
}

#[test]
fn repolling_a_completed_unit_is_a_checked_error() {
    let mut unit = until_true(ScriptedBoolProbe::new(vec![true]));
    let mut handle = ResumeHandle::new();
    assert_eq!(unit.poll(&mut handle), UnitPoll::Ready(()));

    let again = unit.poll(&mut handle);
    assert_eq!(again, UnitPoll::Spent);
    let once_more = unit.poll(&mut handle);
    assert_eq!(once_more, UnitPoll::Spent);
    assert!(!handle.is_woken());
    assert_eq!(handle.wake_count(), 0);
}

#[test]
fn repolling_a_completed_value_unit_is_a_checked_error() {
    let mut unit = until_some(ScriptedValueProbe::new(vec![Some(3)]));
    let mut handle = ResumeHandle::new();
    assert_eq!(unit.poll(&mut handle), UnitPoll::Ready(3));
    assert_eq!(unit.poll(&mut handle), UnitPoll::Spent);
    assert!(!handle.is_woken());
}

#[test]
fn wake_is_a_request_not_a_counter() {
    let mut handle = ResumeHandle::new();
    assert!(!handle.is_woken());

    handle.wake();
    assert!(handle.is_woken());
    handle.wake();
    handle.wake();
    // Further signals leave the request exactly where it was.
    assert!(handle.is_woken());
    // Only the observation counter tells them apart.
    assert_eq!(handle.wake_count(), 3);

    handle.clear();
    assert!(!handle.is_woken());
    assert_eq!(handle.wake_count(), 3);
}

#[test]
fn scripted_bool_probe_replies_in_order() {
    let mut probe = ScriptedBoolProbe::new(vec![true, false]);
    assert!(probe.probe());
    assert!(!probe.probe());
}

#[test]
fn scripted_value_probe_replies_in_order() {
    let mut probe = ScriptedValueProbe::new(vec![Some(5), None]);
    assert_eq!(probe.probe(), Some(5));
    assert_eq!(probe.probe(), None);
}
