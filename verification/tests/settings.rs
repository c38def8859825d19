use lightcrazy::device::protocol::{LiftOffDistance, PollingRate};
use lightcrazy::settings::{default_battery_interval_secs, Settings, INTERVAL_OPTIONS};

#[test]
fn test_default_settings() {
    let s = Settings::default();
    assert_eq!(s.polling_rate, 0x10);
    assert_eq!(s.lod, 1);
    assert_eq!(s.debounce_ms, 2);
    assert!(!s.angle_snap);
    assert_eq!(s.notification_threshold, 20);
    assert_eq!(s.battery_interval_secs, 60);
}

#[test]
fn test_polling_rate_conversion() {
    let mut s = Settings::default();
    s.set_polling_rate(PollingRate::Hz8000);
    assert_eq!(s.polling_rate, 0x40);
    assert_eq!(s.polling_rate(), PollingRate::Hz8000);
}

#[test]
fn test_clamp() {
    let mut s = Settings::default();
    s.notification_threshold = 99;
    s.battery_interval_secs = 7777;
    s.clamp();
    assert_eq!(s.notification_threshold, 50);
    assert_eq!(s.battery_interval_secs, 60); // reset to default
}

#[test]
fn test_interval_options_contain_default() {
    assert!(INTERVAL_OPTIONS.contains(&default_battery_interval_secs()));
}

#[test]
fn clamp_raises_low_threshold_and_keeps_presets() {
    let mut s = Settings::default();
    s.notification_threshold = 0;
    s.battery_interval_secs = 300;
    s.clamp();
    assert_eq!(s.notification_threshold, 5);
    assert_eq!(s.battery_interval_secs, 300);
}

#[test]
fn load_clamps_stored_and_defaults_on_failure() {
    let mut stored = Settings::default();
    stored.notification_threshold = 3;
    stored.battery_interval_secs = 45;
    stored.debounce_ms = 7;
    let s = Settings::load(Some(stored));
    assert_eq!(s.notification_threshold, 5);
    assert_eq!(s.battery_interval_secs, 60);
    assert_eq!(s.debounce_ms, 7);
    assert_eq!(Settings::load(None), Settings::default());
}

#[test]
fn unknown_bytes_read_as_defaults() {
    let mut s = Settings::default();
    s.polling_rate = 0x77;
    s.lod = 9;
    assert_eq!(s.polling_rate(), PollingRate::Hz2000);
    assert_eq!(s.lod(), LiftOffDistance::Medium);
}

#[test]
fn lod_round_trip() {
    let mut s = Settings::default();
    for l in [LiftOffDistance::Low, LiftOffDistance::Medium, LiftOffDistance::High] {
        s.set_lod(l);
        assert_eq!(s.lod(), l);
    }
    s.set_lod(LiftOffDistance::High);
    assert_eq!(s.lod, 2);
}

#[test]
fn polling_rate_round_trip_all() {
    let mut s = Settings::default();
    for r in [
        PollingRate::Hz125,
        PollingRate::Hz250,
        PollingRate::Hz500,
        PollingRate::Hz1000,
        PollingRate::Hz2000,
        PollingRate::Hz4000,
        PollingRate::Hz8000,
    ] {
        s.set_polling_rate(r);
        assert_eq!(s.polling_rate(), r);
    }
}
