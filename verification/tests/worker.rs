use lightcrazy::device::protocol::{BatteryReadError, MouseStatus};
use lightcrazy::device::worker::{
    classify, next_sleep_interval, owned_poll_step, BatteryEvent, OwnedPollStage, OwnedPollStep, PollOutcome,
    Span, WorkerState,
};

#[test]
fn sleep_interval_first_poll_uses_base() {
    let base = Span::from_secs(60);
    assert_eq!(next_sleep_interval(base, 0), base);
    assert_eq!(next_sleep_interval(base, 1), base);
}

#[test]
fn sleep_interval_doubles() {
    let base = Span::from_secs(60);
    assert_eq!(next_sleep_interval(base, 2), Span::from_secs(120));
    assert_eq!(next_sleep_interval(base, 3), Span::from_secs(240));
}

#[test]
fn sleep_interval_caps_at_eight_times() {
    let base = Span::from_secs(60);
    assert_eq!(next_sleep_interval(base, 4), Span::from_secs(480));
    assert_eq!(next_sleep_interval(base, 5), Span::from_secs(480));
    assert_eq!(next_sleep_interval(base, 100), Span::from_secs(480));
}

#[test]
fn sleep_interval_scales_with_base() {
    let base = Span::from_secs(30);
    assert_eq!(next_sleep_interval(base, 2), Span::from_secs(60));
    assert_eq!(next_sleep_interval(base, 4), Span::from_secs(240));
}

#[test]
fn span_saturates() {
    assert_eq!(Span::from_secs(u64::MAX).as_millis(), u64::MAX);
    assert_eq!(next_sleep_interval(Span::from_millis(u64::MAX / 2), 4).as_millis(), u64::MAX);
    assert_eq!(Span::from_millis(100).saturating_sub(Span::from_millis(200)).as_millis(), 0);
    assert_eq!(Span::from_millis(2500).as_secs(), 2);
}

#[test]
fn classify_maps_read_results() {
    let s = MouseStatus { battery_level: 50, is_charging: false };
    assert_eq!(classify(Ok(s)), PollOutcome::Reading(s));
    assert_eq!(classify(Err(BatteryReadError::Asleep)), PollOutcome::Asleep);
    assert_eq!(classify(Err(BatteryReadError::Io)), PollOutcome::Disconnected);
}

#[test]
fn worker_polls_first_tick_then_waits_interval() {
    let mut w = WorkerState::new(Span::from_secs(1), Span::from_secs(5));
    assert!(w.tick(false));
    let s = MouseStatus { battery_level: 80, is_charging: true };
    assert_eq!(w.record(PollOutcome::Reading(s)), Some(BatteryEvent::Update(s)));
    // 1 s at 200 ms per tick: four quiet ticks, then a poll.
    for _ in 0..4 {
        assert!(!w.tick(false));
    }
    assert!(w.tick(false));
}

#[test]
fn worker_manual_refresh_polls_at_once() {
    let mut w = WorkerState::new(Span::from_secs(60), Span::from_secs(5));
    assert!(w.tick(false));
    assert!(!w.tick(false));
    assert!(w.tick(true));
}

#[test]
fn worker_backs_off_after_disconnect() {
    let mut w = WorkerState::new(Span::from_secs(1), Span::from_secs(1));
    assert!(w.tick(false));
    assert_eq!(w.record(PollOutcome::Disconnected), Some(BatteryEvent::Disconnected));
    // 1 s backoff: five quiet ticks, then the interval (1 s) starts counting.
    for _ in 0..5 {
        assert!(!w.tick(false));
    }
    for _ in 0..4 {
        assert!(!w.tick(false));
    }
    assert!(w.tick(false));
}

#[test]
fn worker_retries_busy_device_next_tick() {
    let mut w = WorkerState::new(Span::from_secs(60), Span::from_secs(5));
    assert!(w.tick(false));
    assert_eq!(w.record(PollOutcome::Busy), None);
    assert!(w.tick(false));
}

#[test]
fn worker_stretches_interval_while_asleep() {
    let mut w = WorkerState::new(Span::from_secs(60), Span::from_secs(5));
    assert!(w.tick(false));
    assert_eq!(w.record(PollOutcome::Asleep), Some(BatteryEvent::Asleep));
    assert_eq!(w.current_interval, Span::from_secs(60));
    w.record(PollOutcome::Asleep);
    assert_eq!(w.current_interval, Span::from_secs(120));
    w.record(PollOutcome::Asleep);
    w.record(PollOutcome::Asleep);
    assert_eq!(w.current_interval, Span::from_secs(480));
    w.record(PollOutcome::Reading(MouseStatus { battery_level: 1, is_charging: false }));
    assert_eq!(w.current_interval, Span::from_secs(60));
    assert_eq!(w.consecutive_asleep, 0);
}

#[test]
fn owned_poll_checks_in_order() {
    assert_eq!(owned_poll_step(OwnedPollStage::CheckPanel, true), OwnedPollStep::Check(OwnedPollStage::LockDevice));
    assert_eq!(owned_poll_step(OwnedPollStage::LockDevice, true), OwnedPollStep::Check(OwnedPollStage::RecheckPanel));
    assert_eq!(owned_poll_step(OwnedPollStage::RecheckPanel, true), OwnedPollStep::Check(OwnedPollStage::OpenDevice));
    assert_eq!(owned_poll_step(OwnedPollStage::OpenDevice, true), OwnedPollStep::ReadBattery);
    assert_eq!(owned_poll_step(OwnedPollStage::CheckPanel, false), OwnedPollStep::Finish(PollOutcome::Busy));
    assert_eq!(owned_poll_step(OwnedPollStage::LockDevice, false), OwnedPollStep::Finish(PollOutcome::Busy));
    assert_eq!(owned_poll_step(OwnedPollStage::RecheckPanel, false), OwnedPollStep::Finish(PollOutcome::Busy));
    assert_eq!(owned_poll_step(OwnedPollStage::OpenDevice, false), OwnedPollStep::Finish(PollOutcome::Disconnected));
}
