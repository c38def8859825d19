use lightcrazy::tray::notifications::{low_battery_due, NotificationState, COOLDOWN_SECS};
use std::time::Instant;

/// Charging at any level must never notify, even below threshold.
#[test]
fn not_notified_when_charging() {
    let s = NotificationState::new();
    assert!(!s.should_notify_low_battery(5, 10, 20, true));
    assert!(!s.should_notify_low_battery(15, 20, 20, true));
}

/// Above the threshold must never notify, regardless of trend.
#[test]
fn not_notified_above_threshold() {
    let s = NotificationState::new();
    assert!(!s.should_notify_low_battery(50, 60, 20, false));
    assert!(!s.should_notify_low_battery(21, 22, 20, false));
}

/// Equal-to-previous reading is "no change" and must not notify.
#[test]
fn not_notified_when_level_unchanged() {
    let s = NotificationState::new();
    assert!(!s.should_notify_low_battery(15, 15, 20, false));
}

/// Level rose: must not notify.
#[test]
fn not_notified_when_level_rose() {
    let s = NotificationState::new();
    assert!(!s.should_notify_low_battery(16, 15, 20, false));
}

/// First time we see a drop below threshold: notify.
#[test]
fn notified_on_fresh_drop_below_threshold() {
    let s = NotificationState::new();
    assert!(s.should_notify_low_battery(15, 16, 20, false));
    assert!(s.should_notify_low_battery(19, 20, 20, false));
}

/// After a notification has been sent, the cooldown window suppresses repeats.
#[test]
fn cooldown_suppresses_repeat() {
    let mut s = NotificationState::new();
    s.last_low_battery = Some(Instant::now());
    assert!(!s.should_notify_low_battery(10, 15, 20, false));
}

/// Cooldown expired: a fresh drop notifies again.
#[test]
fn cooldown_expires() {
    let mut s = NotificationState::new();
    s.last_low_battery = Some(Instant::now() - std::time::Duration::from_secs(COOLDOWN_SECS + 1));
    assert!(s.should_notify_low_battery(10, 15, 20, false));
}

#[test]
fn low_battery_due_follows_the_cooldown() {
    assert!(low_battery_due(10, 15, 20, false, None));
    assert!(!low_battery_due(10, 15, 20, false, Some(299)));
    assert!(low_battery_due(10, 15, 20, false, Some(300)));
    assert!(low_battery_due(20, 21, 20, false, Some(1000)));
    assert!(!low_battery_due(21, 22, 20, false, None));
}
