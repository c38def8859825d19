//! The persisted settings and the rules that keep them usable. Reading and
//! writing the JSON file is the caller's part; `Settings::load` takes what
//! was read.
use vstd::prelude::*;
use crate::device::protocol::{LiftOffDistance, PollingRate};

verus! {

/// Battery check interval presets in seconds, offered as steps in the panel.
pub const INTERVAL_OPTIONS: [u64; 5] = [30, 60, 120, 300, 600];

/// Lowest and highest low-battery alert threshold, in percent.
pub const THRESHOLD_MIN: u8 = 5;
pub const THRESHOLD_MAX: u8 = 50;

#[derive(Debug, Clone, Copy, PartialEq, Eq, Structural)]
pub struct Settings {
    /// Stored as the protocol byte of the rate.
    pub polling_rate: u8,
    /// 0 = Low, 1 = Medium, 2 = High.
    pub lod: u8,
    pub debounce_ms: u8,
    pub angle_snap: bool,
    pub ripple_control: bool,
    pub motion_sync: bool,
    pub turbo_mode: bool,
    pub notification_threshold: u8,
    pub battery_interval_secs: u64,
}

pub open spec fn is_interval_option(secs: u64) -> bool {
    secs == 30 || secs == 60 || secs == 120 || secs == 300 || secs == 600
}

pub fn default_notification_threshold() -> (t: u8)
    ensures
        t == 20,
{
    20
}

pub fn default_battery_interval_secs() -> (s: u64)
    ensures
        s == 60,
{
    60
}

pub open spec fn spec_default_settings() -> Settings {
    Settings {
        polling_rate: 0x10,
        lod: 1,
        debounce_ms: 2,
        angle_snap: false,
        ripple_control: false,
        motion_sync: false,
        turbo_mode: false,
        notification_threshold: 20,
        battery_interval_secs: 60,
    }
}

impl Default for Settings {
    /// 2000 Hz, medium lift-off, 2 ms debounce, every feature off, alert at
    /// 20 %, battery checked every 60 s.
    fn default() -> (s: Self)
        ensures
            s == spec_default_settings(),
    {
        Settings {
            polling_rate: 0x10,
            lod: 1,
            debounce_ms: 2,
            angle_snap: false,
            ripple_control: false,
            motion_sync: false,
            turbo_mode: false,
            notification_threshold: default_notification_threshold(),
            battery_interval_secs: default_battery_interval_secs(),
        }
    }
}

/// The settings with the threshold clamped to 5-50 and an interval that is
/// not a preset replaced by the default 60 s.
pub open spec fn spec_clamped(s: Settings) -> Settings {
    Settings {
        notification_threshold: if s.notification_threshold < THRESHOLD_MIN {
            THRESHOLD_MIN
        } else if s.notification_threshold > THRESHOLD_MAX {
            THRESHOLD_MAX
        } else {
            s.notification_threshold
        },
        battery_interval_secs: if is_interval_option(s.battery_interval_secs) {
            s.battery_interval_secs
        } else {
            60
        },
        ..s
    }
}

/// Settings the panel and the tray can work with.
pub open spec fn usable(s: Settings) -> bool {
    THRESHOLD_MIN <= s.notification_threshold <= THRESHOLD_MAX && is_interval_option(
        s.battery_interval_secs,
    )
}

pub open spec fn spec_rate_of_byte(b: u8) -> PollingRate {
    if b == 0x08 {
        PollingRate::Hz125
    } else if b == 0x04 {
        PollingRate::Hz250
    } else if b == 0x02 {
        PollingRate::Hz500
    } else if b == 0x01 {
        PollingRate::Hz1000
    } else if b == 0x20 {
        PollingRate::Hz4000
    } else if b == 0x40 {
        PollingRate::Hz8000
    } else {
        PollingRate::Hz2000
    }
}

pub open spec fn spec_lod_of_byte(b: u8) -> LiftOffDistance {
    if b == 0 {
        LiftOffDistance::Low
    } else if b == 2 {
        LiftOffDistance::High
    } else {
        LiftOffDistance::Medium
    }
}

pub open spec fn spec_lod_byte(l: LiftOffDistance) -> u8 {
    match l {
        LiftOffDistance::Low => 0,
        LiftOffDistance::Medium => 1,
        LiftOffDistance::High => 2,
    }
}

/// Whether `secs` is one of `INTERVAL_OPTIONS`.
pub fn is_interval_preset(secs: u64) -> (b: bool)
    ensures
        b == is_interval_option(secs),
{
    let mut i: usize = 0;
    while i < 5
        invariant
            i <= 5,
            forall|j: int| 0 <= j < i ==> INTERVAL_OPTIONS@[j] != secs,
        decreases 5 - i,
    {
        if INTERVAL_OPTIONS[i] == secs {
            return true;
        }
        i = i + 1;
    }
    assert(INTERVAL_OPTIONS@ =~= seq![30u64, 60, 120, 300, 600]);
    assert(forall|j: int| 0 <= j < 5 ==> INTERVAL_OPTIONS@[j] != secs);
    assert(INTERVAL_OPTIONS@[0] == 30 && INTERVAL_OPTIONS@[1] == 60 && INTERVAL_OPTIONS@[2] == 120
        && INTERVAL_OPTIONS@[3] == 300 && INTERVAL_OPTIONS@[4] == 600);
    false
}

impl Settings {
    /// The settings to run with, from what was read from disk: `None` when
    /// reading or parsing failed (the caller then writes the defaults back),
    /// otherwise the stored settings, clamped. A missing file reads as the
    /// defaults.
    pub fn load(stored: Option<Settings>) -> (s: Settings)
        ensures
            s == match stored {
                Some(t) => spec_clamped(t),
                None => spec_default_settings(),
            },
            usable(s),
    {
        match stored {
            Some(t) => {
                let mut s = t;
                s.clamp();
                s
            },
            None => Settings::default(),
        }
    }

    /// Clamps the fields that have valid ranges, so that corrupt or
    /// hand-edited JSON cannot put the app into an unrecoverable state.
    pub fn clamp(&mut self)
        ensures
            *final(self) == spec_clamped(*old(self)),
            usable(*final(self)),
    {
        self.notification_threshold = if self.notification_threshold < THRESHOLD_MIN {
            THRESHOLD_MIN
        } else if self.notification_threshold > THRESHOLD_MAX {
            THRESHOLD_MAX
        } else {
            self.notification_threshold
        };
        if !is_interval_preset(self.battery_interval_secs) {
            self.battery_interval_secs = default_battery_interval_secs();
        }
    }

    /// The stored rate; an unknown byte reads as 2000 Hz.
    pub fn polling_rate(&self) -> (r: PollingRate)
        ensures
            r == spec_rate_of_byte(self.polling_rate),
    {
        match self.polling_rate {
            0x08 => PollingRate::Hz125,
            0x04 => PollingRate::Hz250,
            0x02 => PollingRate::Hz500,
            0x01 => PollingRate::Hz1000,
            0x10 => PollingRate::Hz2000,
            0x20 => PollingRate::Hz4000,
            0x40 => PollingRate::Hz8000,
            _ => PollingRate::Hz2000,
        }
    }

    /// The stored lift-off distance; an unknown value reads as Medium.
    pub fn lod(&self) -> (l: LiftOffDistance)
        ensures
            l == spec_lod_of_byte(self.lod),
    {
        match self.lod {
            0 => LiftOffDistance::Low,
            1 => LiftOffDistance::Medium,
            2 => LiftOffDistance::High,
            _ => LiftOffDistance::Medium,
        }
    }

    pub fn set_polling_rate(&mut self, rate: PollingRate)
        ensures
            *final(self) == (Settings { polling_rate: rate.spec_byte(), ..*old(self) }),
    {
        self.polling_rate = rate.to_byte();
    }

    pub fn set_lod(&mut self, lod: LiftOffDistance)
        ensures
            *final(self) == (Settings { lod: spec_lod_byte(lod), ..*old(self) }),
    {
        self.lod = match lod {
            LiftOffDistance::Low => 0,
            LiftOffDistance::Medium => 1,
            LiftOffDistance::High => 2,
        };
    }
}


/// A stored polling rate reads back as the same rate.
pub proof fn law_polling_rate_round_trip(s: Settings, rate: PollingRate)
    ensures
        spec_rate_of_byte((Settings { polling_rate: rate.spec_byte(), ..s }).polling_rate) == rate,
{
}

/// A stored lift-off distance reads back as the same distance.
pub proof fn law_lod_round_trip(s: Settings, lod: LiftOffDistance)
    ensures
        spec_lod_of_byte((Settings { lod: spec_lod_byte(lod), ..s }).lod) == lod,
{
}

/// Clamping always yields usable settings, leaves usable settings alone,
/// and touches nothing but the threshold and the interval.
pub proof fn law_clamp(s: Settings)
    ensures
        usable(spec_clamped(s)),
        usable(s) ==> spec_clamped(s) == s,
        spec_clamped(spec_clamped(s)) == spec_clamped(s),
        spec_clamped(s) == (Settings {
            notification_threshold: spec_clamped(s).notification_threshold,
            battery_interval_secs: spec_clamped(s).battery_interval_secs,
            ..s
        }),
{
}

/// The defaults are usable: the default interval is one of the presets.
pub proof fn law_defaults_usable()
    ensures
        usable(spec_default_settings()),
        is_interval_option(spec_default_settings().battery_interval_secs),
{
}

} // verus!
