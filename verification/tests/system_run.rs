use rangewatch::sensor::{BringUpOutcomes, Measurement, RangeStatus, SensorState};
use rangewatch::system::{
    System, SystemConfig, TriggerMode, SENSOR_POLL_TASK, WATCHDOG_TASK,
};

fn all_ok() -> BringUpOutcomes {
    BringUpOutcomes {
        reset_ok: true,
        data_init_ok: true,
        static_init_ok: true,
        roi_ok: true,
        budget_ok: true,
        period_ok: true,
        start_ok: true,
    }
}

fn edge_system() -> System {
    let cfg = SystemConfig {
        watchdog_timeout: 1_000_000,
        feed_period: 200_000,
        trigger: TriggerMode::Edge,
        poll_interval: 1_000_000,
        start_now: 0,
    };
    let mut sys = System::new(cfg);
    sys.bring_up_sensor(None, 50_000, 60, all_ok()).unwrap();
    sys
}

fn polled_system() -> System {
    let cfg = SystemConfig {
        watchdog_timeout: 1_000_000,
        feed_period: 200_000,
        trigger: TriggerMode::Polled,
        poll_interval: 1_000_000,
        start_now: 0,
    };
    let mut sys = System::new(cfg);
    // Measurement period 60 ms: much finer than the 1 s poll interval.
    sys.bring_up_sensor(None, 50_000, 60, all_ok()).unwrap();
    sys
}

fn no_measurement() -> Measurement {
    Measurement { distance_mm: 0, status: RangeStatus::Invalid(255) }
}

#[test]
fn edge_triggered_cycle_consumes_pending_result_once() {
    let mut sys = edge_system();
    assert_eq!(sys.sensor.state, SensorState::Measuring);
    sys.latch_signal();
    assert!(sys.pending_signal);
    let pending = Measurement { distance_mm: 87, status: RangeStatus::Valid };
    let r = sys.handle_edge_signal(pending, true);
    assert!(r.serviced);
    assert_eq!(r.usable, Some(87));
    assert_eq!(sys.last_usable, Some(87));
    // Back in Measuring, the pending flag cleared exactly once.
    assert_eq!(sys.sensor.state, SensorState::Measuring);
    assert!(!sys.pending_signal);
    // A second activation finds nothing pending: stale, not serviced.
    let again = sys.handle_edge_signal(pending, true);
    assert!(!again.serviced);
    assert_eq!(again.usable, None);
    assert_eq!(sys.last_usable, Some(87));
}

#[test]
fn edge_invalid_status_keeps_loop_running() {
    let mut sys = edge_system();
    sys.latch_signal();
    let pending = Measurement { distance_mm: 450, status: RangeStatus::Invalid(4) };
    let r = sys.handle_edge_signal(pending, true);
    assert!(r.serviced);
    assert_eq!(r.usable, None);
    assert_eq!(sys.last_usable, None);
    assert_eq!(sys.sensor.state, SensorState::Measuring);
    // The next valid result is consumed normally.
    sys.latch_signal();
    let good = Measurement { distance_mm: 91, status: RangeStatus::Valid };
    let r2 = sys.handle_edge_signal(good, true);
    assert_eq!(r2.usable, Some(91));
    assert_eq!(sys.last_usable, Some(91));
}

#[test]
fn edge_bus_fault_skips_cycle() {
    let mut sys = edge_system();
    sys.latch_signal();
    let pending = Measurement { distance_mm: 87, status: RangeStatus::Valid };
    let r = sys.handle_edge_signal(pending, false);
    assert!(r.serviced);
    assert_eq!(r.usable, None);
    assert_eq!(sys.sensor.state, SensorState::Measuring);
    assert!(!sys.pending_signal);
}

#[test]
fn edge_mode_never_polls() {
    let mut sys = edge_system();
    for _ in 0..10 {
        let due = sys.sched.tasks[WATCHDOG_TASK].next_due;
        sys.advance(due);
        let r = sys.tick(true, no_measurement(), true);
        assert!(r.fed);
        assert!(!r.poll_attempted);
    }
}

#[test]
fn watchdog_is_fed_within_every_window() {
    let mut sys = polled_system();
    let mut feeds = 0u32;
    while sys.now < 5_000_000 {
        let wd_due = sys.sched.tasks[WATCHDOG_TASK].next_due;
        let poll_due = sys.sched.tasks[SENSOR_POLL_TASK].next_due;
        let next = wd_due.min(poll_due);
        sys.advance(next);
        let r = sys.tick(false, no_measurement(), true);
        if r.fed {
            feeds += 1;
        }
        // Sampled liveness: the hardware deadline never lapses.
        assert!(sys.now - sys.wd.last_fed_at < 1_000_000);
    }
    // One feed per 200 ms over 5 s.
    assert_eq!(feeds, 25);
}

#[test]
fn poll_cadence_five_attempts_no_duplicate_consumption() {
    let mut sys = polled_system();
    let mut attempts = 0u32;
    let mut consumed: Vec<u64> = Vec::new();
    // The device completes measurement cycle k (k = 0, 1, ...) at
    // (k + 1) * 60 ms; each poll may consume only a cycle not yet consumed.
    let mut newest_consumed: Option<u64> = None;
    loop {
        let wd_due = sys.sched.tasks[WATCHDOG_TASK].next_due;
        let poll_due = sys.sched.tasks[SENSOR_POLL_TASK].next_due;
        let next = wd_due.min(poll_due);
        if next > 5_000_000 {
            break;
        }
        sys.advance(next);
        let completed = sys.now / 60_000;
        let newest = if completed == 0 { None } else { Some(completed - 1) };
        let ready = newest.is_some() && newest != newest_consumed;
        let pending = match newest {
            Some(k) => Measurement { distance_mm: (100 + k) as u16, status: RangeStatus::Valid },
            None => no_measurement(),
        };
        let r = sys.tick(ready, pending, true);
        assert!(sys.now - sys.wd.last_fed_at < 1_000_000);
        if r.poll_attempted {
            attempts += 1;
        } else {
            assert_eq!(r.consumed, None);
        }
        if let Some(d) = r.consumed {
            let k = newest.unwrap();
            assert_eq!(d, (100 + k) as u16);
            // No cycle is consumed twice.
            assert!(!consumed.contains(&k));
            consumed.push(k);
            newest_consumed = newest;
        }
    }
    // Polls land at 1, 2, 3, 4 and 5 seconds: five attempts, each finding a
    // fresh cycle.
    assert_eq!(attempts, 5);
    assert_eq!(consumed.len(), 5);
}

#[test]
fn poll_finding_nothing_changes_nothing() {
    let mut sys = polled_system();
    let before_usable = sys.last_usable;
    let poll_due = sys.sched.tasks[SENSOR_POLL_TASK].next_due;
    let wd_due = sys.sched.tasks[WATCHDOG_TASK].next_due;
    let mut next = wd_due.min(poll_due);
    let mut attempted = false;
    while !attempted {
        sys.advance(next);
        let r = sys.tick(false, no_measurement(), true);
        attempted = r.poll_attempted;
        assert_eq!(r.consumed, None);
        let wd_due = sys.sched.tasks[WATCHDOG_TASK].next_due;
        let poll_due = sys.sched.tasks[SENSOR_POLL_TASK].next_due;
        next = wd_due.min(poll_due);
    }
    assert_eq!(sys.last_usable, before_usable);
    assert_eq!(sys.sensor.state, SensorState::Measuring);
}

#[test]
fn saturated_reschedule_is_dropped_and_recovers() {
    let mut sys = polled_system();
    // The poll task's slot is already occupied by its first wake-up: an
    // extra reschedule request is rejected and dropped, fail-soft.
    let now = sys.now;
    let rejected = sys.sched.schedule_after(SENSOR_POLL_TASK, now, 500_000);
    assert!(!rejected);
    // No crash, and the watchdog keeps being fed on schedule.
    let mut feeds = 0u32;
    let mut attempts = 0u32;
    while sys.now < 2_000_000 {
        let wd_due = sys.sched.tasks[WATCHDOG_TASK].next_due;
        let poll_due = sys.sched.tasks[SENSOR_POLL_TASK].next_due;
        let next = wd_due.min(poll_due);
        sys.advance(next);
        let r = sys.tick(false, no_measurement(), true);
        if r.fed {
            feeds += 1;
        }
        if r.poll_attempted {
            attempts += 1;
        }
        assert!(sys.now - sys.wd.last_fed_at < 1_000_000);
    }
    assert_eq!(feeds, 10);
    // Normal poll scheduling resumed: attempts at 1 s and 2 s.
    assert_eq!(attempts, 2);
}

#[test]
fn bring_up_failure_leaves_watchdog_running() {
    let cfg = SystemConfig {
        watchdog_timeout: 1_000_000,
        feed_period: 200_000,
        trigger: TriggerMode::Polled,
        poll_interval: 1_000_000,
        start_now: 0,
    };
    let mut sys = System::new(cfg);
    let outcomes = BringUpOutcomes { static_init_ok: false, ..all_ok() };
    let r = sys.bring_up_sensor(None, 50_000, 60, outcomes);
    assert!(r.is_err());
    assert_eq!(sys.sensor.state, SensorState::Faulted);
    // The supervisor still feeds; polls attempt and find a faulted device,
    // consuming nothing.
    for _ in 0..12 {
        let wd_due = sys.sched.tasks[WATCHDOG_TASK].next_due;
        let poll_due = sys.sched.tasks[SENSOR_POLL_TASK].next_due;
        let next = wd_due.min(poll_due);
        sys.advance(next);
        let r = sys.tick(true, no_measurement(), true);
        assert_eq!(r.consumed, None);
        assert!(sys.now - sys.wd.last_fed_at < 1_000_000);
    }
    assert_eq!(sys.sensor.state, SensorState::Faulted);
}

#[test]
fn simultaneous_due_times_dispatch_in_priority_order() {
    let mut sys = polled_system();
    // Walk to the instant where both the supervisor (every 200 ms) and the
    // poll task (every 1 s) are due at once.
    while sys.now < 1_000_000 {
        let wd_due = sys.sched.tasks[WATCHDOG_TASK].next_due;
        let poll_due = sys.sched.tasks[SENSOR_POLL_TASK].next_due;
        let next = wd_due.min(poll_due);
        sys.advance(next);
        let r = sys.tick(false, no_measurement(), true);
        if sys.now == 1_000_000 {
            assert!(r.fed);
            assert!(r.poll_attempted);
        }
    }
}
