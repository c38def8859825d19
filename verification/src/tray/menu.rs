//! The tray's battery context: what a new reading does to it, and the texts
//! the tray shows for it.
use vstd::prelude::*;
use crate::device::protocol::MouseStatus;
use crate::text::{append_decimal, spec_decimal};
use crate::tray::notifications::{alert_conditions, NotificationState};

verus! {

#[derive(Debug)]
pub struct BatteryContext {
    /// The current reading as (level, charging); `None` until the first
    /// successful poll, so that no "0 %" or low-battery icon shows before it.
    pub battery: Option<(u8, bool)>,
    pub notifications: NotificationState,
}

impl Default for BatteryContext {
    fn default() -> (c: Self)
        ensures
            c.battery is None,
            c.notifications.last_low_battery is None,
    {
        BatteryContext { battery: None, notifications: NotificationState::new() }
    }
}

/// The level a new reading is compared against: the last one, or 100 %
/// before the first, so that a first reading counts as a drop from a full
/// battery.
pub open spec fn previous_level(battery: Option<(u8, bool)>) -> u8 {
    match battery {
        Some((level, _)) => level,
        None => 100,
    }
}

pub open spec fn spec_title(battery: Option<(u8, bool)>) -> Seq<char> {
    match battery {
        Some((level, _)) => "Pulsar X2: "@ + spec_decimal(level as nat) + "%"@,
        None => "Pulsar X2: reading..."@,
    }
}

pub open spec fn spec_tool_tip(battery: Option<(u8, bool)>) -> (Seq<char>, Seq<char>) {
    match battery {
        Some((level, charging)) => (
            "Pulsar X2: "@ + spec_decimal(level as nat) + "%"@,
            if charging { "Charging"@ } else { "Discharging"@ },
        ),
        None => ("Pulsar X2"@, "Reading battery..."@),
    }
}

pub open spec fn spec_battery_label(battery: Option<(u8, bool)>) -> Seq<char> {
    match battery {
        Some((level, charging)) => "Battery: "@ + spec_decimal(level as nat) + "%"@ + if charging {
            " ⚡"@
        } else {
            Seq::empty()
        },
        None => "Battery: reading..."@,
    }
}

/// "Pulsar X2: {level}%".
fn level_title(level: u8) -> (s: String)
    ensures
        s@ == "Pulsar X2: "@ + spec_decimal(level as nat) + "%"@,
{
    let mut s = String::from_str("Pulsar X2: ");
    append_decimal(&mut s, level as u64);
    s.append("%");
    s
}

impl BatteryContext {
    /// Stores a new reading and says whether a low-battery alert is due for
    /// it (see `NotificationState::should_notify_low_battery`), comparing
    /// with the previous reading.
    pub fn apply_reading(&mut self, status: MouseStatus, threshold: u8) -> (notify: bool)
        ensures
            final(self).battery == Some((status.battery_level, status.is_charging)),
            final(self).notifications == old(self).notifications,
            notify ==> alert_conditions(
                status.battery_level,
                previous_level(old(self).battery),
                threshold,
                status.is_charging,
            ),
            (alert_conditions(
                status.battery_level,
                previous_level(old(self).battery),
                threshold,
                status.is_charging,
            ) && old(self).notifications.last_low_battery is None) ==> notify,
    {
        let old_level = match self.battery {
            Some((level, _)) => level,
            None => 100,
        };
        self.battery = Some((status.battery_level, status.is_charging));
        self.notifications.should_notify_low_battery(
            status.battery_level,
            old_level,
            threshold,
            status.is_charging,
        )
    }

    /// The tray title.
    pub fn title(&self) -> (s: String)
        ensures
            s@ == spec_title(self.battery),
    {
        match self.battery {
            Some((level, _)) => level_title(level),
            None => String::from_str("Pulsar X2: reading..."),
        }
    }

    /// The tool tip's title and description.
    pub fn tool_tip(&self) -> (t: (String, String))
        ensures
            (t.0@, t.1@) == spec_tool_tip(self.battery),
    {
        match self.battery {
            Some((level, charging)) => (
                level_title(level),
                if charging {
                    String::from_str("Charging")
                } else {
                    String::from_str("Discharging")
                },
            ),
            None => (String::from_str("Pulsar X2"), String::from_str("Reading battery...")),
        }
    }

    /// The battery line of the tray menu.
    pub fn battery_label(&self) -> (s: String)
        ensures
            s@ == spec_battery_label(self.battery),
    {
        match self.battery {
            Some((level, charging)) => {
                let mut s = String::from_str("Battery: ");
                append_decimal(&mut s, level as u64);
                s.append("%");
                if charging {
                    s.append(" ⚡");
                }
                proof {
                    assert(s@ =~= spec_battery_label(self.battery));
                }
                s
            },
            None => String::from_str("Battery: reading..."),
        }
    }
}

} // verus!
