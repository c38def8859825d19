//! When to warn about a low battery. Showing the notification is the
//! caller's part; it then records the time in `last_low_battery`.
use vstd::prelude::*;
use std::time::{Duration, Instant};

verus! {

#[verifier::external_type_specification]
#[verifier::external_body]
pub struct ExInstant(Instant);

/// Minimum time between repeated low-battery notifications.
pub const COOLDOWN_SECS: u64 = 300;

/// How long ago `t` was, from `Instant::elapsed`. It depends on the clock,
/// so nothing is stated of it.
#[verifier::external_body]
fn elapsed_since(t: &Instant) -> Duration {
    t.elapsed()
}

/// Whole seconds of a duration, from `Duration::as_secs`. Nothing is stated
/// of it: the duration is opaque here.
#[verifier::external_body]
fn whole_seconds(d: &Duration) -> u64 {
    d.as_secs()
}

#[derive(Debug)]
pub struct NotificationState {
    /// When the last low-battery notification was sent; `None` if none was
    /// sent this session.
    pub last_low_battery: Option<Instant>,
}

/// The conditions under which a drop is worth an alert, cooldown aside:
/// not charging, at or below the threshold, and lower than the last reading.
pub open spec fn alert_conditions(current_level: u8, previous_level: u8, threshold: u8, is_charging: bool) -> bool {
    !is_charging && current_level <= threshold && current_level < previous_level
}

/// The alert rule, given the seconds since the last alert (`None` if none was sent).
pub open spec fn spec_low_battery_due(
    current_level: u8,
    previous_level: u8,
    threshold: u8,
    is_charging: bool,
    since_last: Option<u64>,
) -> bool {
    alert_conditions(current_level, previous_level, threshold, is_charging) && match since_last {
        None => true,
        Some(secs) => secs >= COOLDOWN_SECS,
    }
}

/// True when a low-battery alert is due: not charging, at or below the
/// threshold, dropped since the last reading, and no alert in the last
/// `COOLDOWN_SECS` seconds (`since_last` is the time since the last alert,
/// `None` if none was sent).
pub fn low_battery_due(
    current_level: u8,
    previous_level: u8,
    threshold: u8,
    is_charging: bool,
    since_last: Option<u64>,
) -> (b: bool)
    ensures
        b == spec_low_battery_due(current_level, previous_level, threshold, is_charging, since_last),
{
    if is_charging || current_level > threshold || current_level >= previous_level {
        return false;
    }
    match since_last {
        None => true,
        Some(secs) => secs >= COOLDOWN_SECS,
    }
}

impl NotificationState {
    pub fn new() -> (s: Self)
        ensures
            s.last_low_battery is None,
    {
        NotificationState { last_low_battery: None }
    }

    /// Whether a low-battery notification should be sent now (see
    /// `low_battery_due`); the time since the last one is read from the clock.
    pub fn should_notify_low_battery(
        &self,
        current_level: u8,
        previous_level: u8,
        threshold: u8,
        is_charging: bool,
    ) -> (b: bool)
        ensures
            b ==> alert_conditions(current_level, previous_level, threshold, is_charging),
            (alert_conditions(current_level, previous_level, threshold, is_charging)
                && self.last_low_battery is None) ==> b,
    {
        let since_last = match &self.last_low_battery {
            Some(t) => {
                let d = elapsed_since(t);
                Some(whole_seconds(&d))
            },
            None => None,
        };
        low_battery_due(current_level, previous_level, threshold, is_charging, since_last)
    }
}

impl Default for NotificationState {
    fn default() -> (s: Self)
        ensures
            s.last_low_battery is None,
    {
        Self::new()
    }
}


/// No alert while charging, above the threshold, or when the level has not
/// dropped since the last reading; and none within `COOLDOWN_SECS` of the
/// last alert.
pub proof fn law_alert_suppressed(
    current_level: u8,
    previous_level: u8,
    threshold: u8,
    is_charging: bool,
    since_last: Option<u64>,
)
    ensures
        (is_charging || current_level > threshold || current_level >= previous_level) ==> !spec_low_battery_due(
            current_level,
            previous_level,
            threshold,
            is_charging,
            since_last,
        ),
        (since_last matches Some(secs) && secs < COOLDOWN_SECS) ==> !spec_low_battery_due(
            current_level,
            previous_level,
            threshold,
            is_charging,
            since_last,
        ),
{
}

/// A fresh drop to or below the threshold while discharging alerts when
/// no alert was sent yet, or the last one is at least `COOLDOWN_SECS` old.
pub proof fn law_alert_on_fresh_drop(current_level: u8, previous_level: u8, threshold: u8, since_last: Option<u64>)
    requires
        current_level <= threshold,
        current_level < previous_level,
        since_last matches Some(secs) ==> secs >= COOLDOWN_SECS,
    ensures
        spec_low_battery_due(current_level, previous_level, threshold, false, since_last),
{
}

} // verus!
