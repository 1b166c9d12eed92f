use ravenscar_app::schedule::{regular_producer_actions, release_window, slack_millis, ProducerActions};
use ravenscar_app::auxiliary::Auxiliary;
use ravenscar_app::system_overhead::{ExecReport, SystemOverhead};
use ravenscar_app::task_tracker::TaskTracker;
use ravenscar_app::time::{TimeDuration, TimeInstant};

#[test]
fn plus_millis_adds_microsecond_ticks() {
    let t = TimeInstant::from_ticks(7);
    assert_eq!(t.plus_millis(3).ticks, 3_007);
    assert_eq!(t.plus_millis(0).ticks, 7);
    assert_eq!(t.plus_millis(4_294_967).ticks, 4_294_967_007);
}

#[test]
fn duration_since_and_conversions() {
    let a = TimeInstant::from_ticks(1_000);
    let b = TimeInstant::from_ticks(3_999);
    let d = b.duration_since(a);
    assert_eq!(d, TimeDuration { ticks: 2_999 });
    assert_eq!(d.to_millis(), 2);
    assert_eq!(d.to_micros(), 2_999);
    assert_eq!(a.duration_since(a).ticks, 0);
}

#[test]
fn checked_duration_since_refuses_a_later_start() {
    let a = TimeInstant::from_ticks(1_000);
    let b = TimeInstant::from_ticks(3_000);
    assert_eq!(a.checked_duration_since(b), None);
    assert_eq!(b.checked_duration_since(a), Some(TimeDuration { ticks: 2_000 }));
}

#[test]
fn duration_since_across_a_wrap() {
    let before = TimeInstant::from_ticks(u64::MAX - 9);
    let after = TimeInstant::from_ticks(20);
    assert_eq!(after.duration_since(before).ticks, 30);
    assert_eq!(before.checked_duration_since(after), None);
    // Exactly half the range apart still counts as not before.
    let half = TimeInstant::from_ticks(u64::MAX / 2);
    let zero = TimeInstant::from_ticks(0);
    assert_eq!(half.checked_duration_since(zero), Some(TimeDuration { ticks: u64::MAX / 2 }));
    assert_eq!(TimeInstant::from_ticks(u64::MAX / 2 + 1).checked_duration_since(zero), None);
}

#[test]
fn plus_millis_then_duration_since_round_trips() {
    let start = TimeInstant::from_ticks(u64::MAX - 123);
    let later = start.plus_millis(250);
    assert_eq!(later.duration_since(start).to_millis(), 250);
}

#[test]
fn system_overhead_reports_subprogram_and_jitter() {
    let mut tracker = SystemOverhead::new();
    tracker.start_tracking(TimeInstant::from_ticks(10_000));
    tracker.start_sub_program(TimeInstant::from_ticks(12_500));
    let report = tracker.show_exec_results(TimeInstant::from_ticks(16_500));
    assert_eq!(report, Some(ExecReport { subprogram_micros: 4_000, jitter_millis: 2 }));
}

#[test]
fn system_overhead_without_release_reports_nothing() {
    let mut tracker = SystemOverhead::new();
    assert_eq!(tracker.show_exec_results(TimeInstant::from_ticks(5)), None);
    tracker.start_sub_program(TimeInstant::from_ticks(9));
    assert_eq!(tracker.show_exec_results(TimeInstant::from_ticks(10)), None);
}

#[test]
fn system_overhead_jitter_is_kept_across_executions() {
    let mut tracker = SystemOverhead::new();
    tracker.start_tracking(TimeInstant::from_ticks(0));
    tracker.start_sub_program(TimeInstant::from_ticks(7_900));
    tracker.start_tracking(TimeInstant::from_ticks(20_000));
    tracker.end_sub_program(TimeInstant::from_ticks(21_000));
    tracker.start_sub_program(TimeInstant::from_ticks(20_000));
    let report = tracker.show_exec_results(TimeInstant::from_ticks(20_001));
    assert_eq!(report, Some(ExecReport { subprogram_micros: 1, jitter_millis: 0 }));
}

#[test]
fn task_tracker_runs_through_an_execution() {
    let mut tracker = TaskTracker::new();
    tracker.start_tracking(TimeInstant::from_ticks(1));
    tracker.start_sub_program(TimeInstant::from_ticks(2));
    tracker.end_sub_program(TimeInstant::from_ticks(3));
    tracker.end_tracking(TimeInstant::from_ticks(4));
}

#[test]
fn release_window_adds_period_and_deadline() {
    let r = release_window(TimeInstant::from_ticks(1_000_000), 1_000, 500);
    assert_eq!(r.next_release, TimeInstant::from_ticks(2_000_000));
    assert_eq!(r.deadline, TimeInstant::from_ticks(1_500_000));
}

#[test]
fn regular_producer_actions_follow_the_counters() {
    let mut aux = Auxiliary::new();
    let actions: Vec<ProducerActions> = (0..3).map(|_| regular_producer_actions(&mut aux)).collect();
    assert_eq!(
        actions,
        vec![
            ProducerActions { request_on_call: false, signal_log_reader: false },
            ProducerActions { request_on_call: true, signal_log_reader: false },
            ProducerActions { request_on_call: false, signal_log_reader: true },
        ]
    );
}

#[test]
fn slack_is_milliseconds_to_the_deadline() {
    let deadline = TimeInstant::from_ticks(10_000);
    assert_eq!(slack_millis(deadline, TimeInstant::from_ticks(2_500)), Some(7));
    assert_eq!(slack_millis(deadline, deadline), Some(0));
    assert_eq!(slack_millis(deadline, TimeInstant::from_ticks(10_001)), None);
}

#[test]
fn release_window_across_a_wrap_keeps_its_spacing() {
    let release = TimeInstant::from_ticks(u64::MAX - 99_999);
    let r = release_window(release, 1_000, 500);
    assert_eq!(r.next_release, TimeInstant::from_ticks(900_000));
    assert_eq!(r.deadline, TimeInstant::from_ticks(400_000));
    assert_eq!(r.next_release.duration_since(release).to_millis(), 1_000);
    assert_eq!(r.next_release.duration_since(r.deadline).to_millis(), 500);
}
