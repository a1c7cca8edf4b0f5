use hello_bench::pump::PumpState;

#[test]
fn ramp_up_caps_window_at_concurrency() {
    let s = PumpState::new(3, 10);
    assert_eq!(s.issued, 3);
    assert_eq!(s.in_flight, 3);
    assert_eq!(s.tally.ok, 0);
    assert_eq!(s.tally.fail, 0);
}

#[test]
fn ramp_up_caps_window_at_quota() {
    // concurrency > messages: only the quota is issued at ramp-up.
    let s = PumpState::new(8, 3);
    assert_eq!(s.issued, 3);
    assert_eq!(s.in_flight, 3);
}

#[test]
fn quota_reached_at_ramp_up_issues_no_replacement() {
    // connections=1, concurrency=4, messages=4: all four requests go out at
    // ramp-up, and completions must not issue replacements.
    let mut s = PumpState::new(4, 4);
    assert_eq!(s.issued, 4);
    assert_eq!(s.in_flight, 4);
    for completed in 1..=4usize {
        s.record_completion(true);
        assert_eq!(s.issued, 4);
        assert_eq!(s.in_flight, 4 - completed);
    }
    assert!(s.is_done());
    assert_eq!(s.tally.ok, 4);
    assert_eq!(s.tally.fail, 0);
}

#[test]
fn window_never_exceeds_concurrency_and_shrinks_only_at_ramp_down() {
    // concurrency=3, messages=10: the window sits at 3 until the quota is
    // fully issued, and shrinks only during ramp-down.
    let mut s = PumpState::new(3, 10);
    while !s.is_done() {
        assert!(s.in_flight <= 3);
        if s.issued < 10 {
            assert_eq!(s.in_flight, 3);
        }
        s.record_completion(true);
    }
    assert_eq!(s.issued, 10);
    assert_eq!(s.in_flight, 0);
    assert_eq!(s.tally.ok, 10);
}

#[test]
fn every_completion_is_counted_once() {
    let outcomes = vec![true, false, true, true, false, false, false];
    let t = PumpState::run(2, 7, &outcomes);
    assert_eq!(t.ok, 3);
    assert_eq!(t.fail, 4);
    assert_eq!(t.ok + t.fail, 7);
}

#[test]
fn always_succeeding_remote_leaves_no_failures() {
    let outcomes = vec![true; 25];
    let t = PumpState::run(4, 25, &outcomes);
    assert_eq!(t.ok, 25);
    assert_eq!(t.fail, 0);
}

#[test]
fn always_failing_remote_still_terminates_with_full_failure_tally() {
    // Failures free their window slot just like successes: the pump runs to
    // completion and counts every request as failed.
    let outcomes = vec![false; 25];
    let t = PumpState::run(4, 25, &outcomes);
    assert_eq!(t.ok, 0);
    assert_eq!(t.fail, 25);
}

#[test]
fn single_slot_window_processes_quota_sequentially() {
    let outcomes = vec![true, true, true, true, true];
    let t = PumpState::run(1, 5, &outcomes);
    assert_eq!(t.ok, 5);
    assert_eq!(t.fail, 0);
}

#[test]
fn completion_order_does_not_change_the_tally() {
    let forward = vec![true, true, false, true, false];
    let shuffled = vec![false, true, false, true, true];
    let t1 = PumpState::run(3, 5, &forward);
    let t2 = PumpState::run(3, 5, &shuffled);
    assert_eq!(t1.ok, t2.ok);
    assert_eq!(t1.fail, t2.fail);
}
