//! What the panel shows besides the widgets: help texts, row heights,
//! the battery colour and bar, and interval labels.
use vstd::prelude::*;
use crate::settings::spec_lod_of_byte;
use crate::text::{append_decimal, decimal_string, spec_decimal};
use crate::ui::app::{
    lemma_tables, lod_label, lod_text, spec_dpi_value, spec_rate_at, App, SettingRow, DPI_VALUES,
    POLLING_RATES,
};

verus! {

pub const DPI_HELP: &'static str = "DPI (dots per inch) controls how far the cursor travels on screen \
relative to physical mouse movement. Higher values move the cursor further \
with less effort, which suits large monitors or fast-paced scenarios. \
Lower values give more precise control over small movements.\n\n\
The X2 supports six presets: 400, 800, 1600, 3200, 6400, and 12800. Use \
left/right to position the slider, then press Enter to apply the value \
to the sensor.";

pub const POLLING_RATE_HELP: &'static str = "Polling rate is how many times per second the mouse reports its \
position to the computer. Higher rates reduce the delay between physical \
movement and the on-screen response. 8000 Hz means one report every \
0.125 ms, versus 8 ms at 125 Hz.\n\n\
4K Hz requires the dedicated 4K receiver. 8K Hz requires the 8K dongle. \
Both also require a compatible host port. The improvement is most \
perceptible during fast, precise movements.";

pub const DEBOUNCE_HELP: &'static str = "Debounce sets the minimum time that must pass between two clicks \
registering as separate events. Mechanical switches can produce brief \
electrical noise on actuation, which may read as an unintended double-click \
at 0 ms.\n\n\
2-4 ms absorbs most switch variance without any perceptible delay. Higher \
values add a slight but measurable lag to click registration. Set to 0 only \
if your switches are clean and you need the fastest possible response.";

pub const LIFT_OFF_DISTANCE_HELP: &'static str = "Lift-off distance is the height above the surface at which the sensor \
stops tracking when the mouse is lifted.\n\n\
Low (0.7 mm) is ideal for players who frequently reposition — the sensor \
disengages almost immediately on lift, preventing cursor drift. Medium \
(1 mm) suits most surfaces and is the default. High (2 mm) helps on thick \
mouse feet or textured and reflective mousepads where the sensor may \
struggle to lock at very low clearance.";

pub const ANGLE_SNAP_HELP: &'static str = "Angle snapping applies a filter that pulls near-horizontal and \
near-vertical cursor movements toward a perfectly straight line. You can \
test the effect by slowly drawing a nearly-straight line in a paint program \
— with angle snapping on it will snap to the axis.\n\n\
Useful in productivity contexts where straight strokes matter. Most users \
leave it off in games, as it subtly alters diagonal movement direction and \
can interfere with precise aim.";

pub const RIPPLE_CONTROL_HELP: &'static str = "Ripple control smooths out jagged micro-movements in fast cursor \
strokes, reducing the irregular edges that appear at high speed and DPI. \
Like angle snapping, the effect is visible when drawing fast lines in a \
paint application.\n\n\
Most relevant for graphic and design work. In games it is generally left \
off, as the additional filtering can soften fine motor input.";

pub const MOTION_SYNC_HELP: &'static str = "Motion sync aligns the sensor's data transmission to the exact \
moment the computer polls for mouse position. Without it, sensor samples \
and polling cycles are slightly out of phase, introducing minor variability \
in when data arrives.\n\n\
With motion sync on, each position report is sent at the start of the \
polling window. This does not reduce average latency but decreases its \
variance, producing more consistent input timing — most noticeable at \
high polling rates.";

pub const TURBO_MODE_HELP: &'static str = "Turbo mode locks the sensor's internal scanning rate at 20,000 FPS \
regardless of DPI or polling rate. Normally the sensor scales its frame \
rate with those settings — at low DPI and polling rate it can drop well \
below 10K FPS, reducing tracking fidelity during fast movements.\n\n\
With turbo mode on, the sensor always operates at peak rate, ensuring \
maximum tracking accuracy under all conditions. The trade-off is \
meaningfully higher power consumption, which shortens battery life \
between charges.";

pub const NOTIFICATION_THRESHOLD_HELP: &'static str = "The battery percentage at which a desktop notification is sent \
warning that the mouse needs charging. Adjustable in 5% steps between \
5% and 50%.\n\n\
Set higher if you want an early warning and time to locate a cable. Set \
lower if you charge on a fixed routine and want to avoid frequent \
notifications during normal use.";

pub const BATTERY_INTERVAL_HELP: &'static str = "How often the background tray service polls the mouse for its \
current battery level. Shorter intervals keep the tray icon more up to \
date but cause the device to wake from idle slightly more often.\n\n\
60 seconds is a good default. 30 seconds is reasonable if you charge \
frequently and want accurate readings. Changes take effect the next time \
the tray service starts.";

pub open spec fn spec_description(row: SettingRow) -> (Seq<char>, Seq<char>) {
    match row {
        SettingRow::Dpi => ("DPI"@, DPI_HELP@),
        SettingRow::PollingRate => ("Polling Rate"@, POLLING_RATE_HELP@),
        SettingRow::Debounce => ("Debounce Time"@, DEBOUNCE_HELP@),
        SettingRow::LiftOffDistance => ("Lift-Off Distance"@, LIFT_OFF_DISTANCE_HELP@),
        SettingRow::AngleSnap => ("Angle Snapping"@, ANGLE_SNAP_HELP@),
        SettingRow::RippleControl => ("Ripple Control"@, RIPPLE_CONTROL_HELP@),
        SettingRow::MotionSync => ("Motion Sync"@, MOTION_SYNC_HELP@),
        SettingRow::TurboMode => ("Turbo Mode"@, TURBO_MODE_HELP@),
        SettingRow::NotificationThreshold => ("Alert Threshold"@, NOTIFICATION_THRESHOLD_HELP@),
        SettingRow::BatteryInterval => ("Battery Interval"@, BATTERY_INTERVAL_HELP@),
    }
}

/// The title and help text of a row.
pub fn setting_description(row: SettingRow) -> (d: (&'static str, &'static str))
    ensures
        (d.0@, d.1@) == spec_description(row),
{
    match row {
        SettingRow::Dpi => ("DPI", DPI_HELP),
        SettingRow::PollingRate => ("Polling Rate", POLLING_RATE_HELP),
        SettingRow::Debounce => ("Debounce Time", DEBOUNCE_HELP),
        SettingRow::LiftOffDistance => ("Lift-Off Distance", LIFT_OFF_DISTANCE_HELP),
        SettingRow::AngleSnap => ("Angle Snapping", ANGLE_SNAP_HELP),
        SettingRow::RippleControl => ("Ripple Control", RIPPLE_CONTROL_HELP),
        SettingRow::MotionSync => ("Motion Sync", MOTION_SYNC_HELP),
        SettingRow::TurboMode => ("Turbo Mode", TURBO_MODE_HELP),
        SettingRow::NotificationThreshold => ("Alert Threshold", NOTIFICATION_THRESHOLD_HELP),
        SettingRow::BatteryInterval => ("Battery Interval", BATTERY_INTERVAL_HELP),
    }
}

/// Lines a row takes: two for the slider rows, one for the others.
pub fn row_height(row: &SettingRow) -> (h: u16)
    ensures
        h == (match *row {
            SettingRow::Dpi | SettingRow::PollingRate | SettingRow::Debounce => 2u16,
            _ => 1u16,
        }),
{
    match row {
        SettingRow::Dpi | SettingRow::PollingRate | SettingRow::Debounce => 2,
        _ => 1,
    }
}

/// Colour of the battery gauge.
#[derive(Debug, Clone, Copy, PartialEq, Eq, Structural)]
pub enum BatteryColor {
    Red,
    Yellow,
    Green,
}

/// Red up to 10 %, yellow up to 25 %, green above.
pub fn battery_color(level: u8) -> (c: BatteryColor)
    ensures
        c == (if level <= 10 {
            BatteryColor::Red
        } else if level <= 25 {
            BatteryColor::Yellow
        } else {
            BatteryColor::Green
        }),
{
    if level <= 10 {
        BatteryColor::Red
    } else if level <= 25 {
        BatteryColor::Yellow
    } else {
        BatteryColor::Green
    }
}

/// The battery gauge: its text, and how many cells of the bar are filled
/// and empty.
#[derive(Debug, Clone)]
pub struct BatteryGauge {
    pub text: String,
    pub filled: usize,
    pub empty: usize,
}

/// `n` right-aligned in three columns.
pub open spec fn pad3(n: nat) -> Seq<char> {
    if n < 10 {
        "  "@ + spec_decimal(n)
    } else if n < 100 {
        " "@ + spec_decimal(n)
    } else {
        spec_decimal(n)
    }
}

pub open spec fn gauge_text(level: u8, charging: bool) -> Seq<char> {
    pad3(level as nat) + if charging {
        " % ⚡ "@
    } else {
        " % "@
    }
}

/// Bytes the gauge text takes: three digit columns, " % ", and the 3-byte
/// lightning sign with its space when charging.
pub open spec fn gauge_text_bytes(charging: bool) -> int {
    if charging {
        10
    } else {
        6
    }
}

/// The gauge in a field `width` cells wide: the text takes its byte length,
/// the bar the rest, filled in proportion to the level.
pub fn battery_gauge(level: u8, charging: bool, width: u16) -> (g: BatteryGauge)
    ensures
        g.text@ == gauge_text(level, charging),
        ({
            let bar: int = if width as int > gauge_text_bytes(charging) {
                width - gauge_text_bytes(charging)
            } else {
                0
            };
            let f: int = level * bar / 100;
            &&& g.filled == if f < bar { f } else { bar }
            &&& g.filled + g.empty == bar
        }),
{
    let mut text = if level < 10 {
        String::from_str("  ")
    } else if level < 100 {
        String::from_str(" ")
    } else {
        String::new()
    };
    append_decimal(&mut text, level as u64);
    let text_bytes: usize = if charging {
        text.append(" % ⚡ ");
        10
    } else {
        text.append(" % ");
        6
    };
    proof {
        assert(text@ =~= gauge_text(level, charging));
    }
    let bar_width: usize = if width as usize > text_bytes {
        width as usize - text_bytes
    } else {
        0
    };
    assert((level as usize) * bar_width <= 255 * 65535) by (nonlinear_arith)
        requires level <= 255, bar_width <= 65535;
    let f = (level as usize) * bar_width / 100;
    let filled = if f < bar_width {
        f
    } else {
        bar_width
    };
    BatteryGauge { text, filled, empty: bar_width - filled }
}

pub open spec fn spec_interval_label(secs: u64) -> Seq<char> {
    if secs < 60 {
        spec_decimal(secs as nat) + " s"@
    } else if secs % 60 == 0 {
        spec_decimal((secs / 60) as nat) + " m"@
    } else {
        spec_decimal((secs / 60) as nat) + " m "@ + spec_decimal((secs % 60) as nat) + " s"@
    }
}

/// "45 s", "5 m", "2 m 30 s".
pub fn interval_label(secs: u64) -> (s: String)
    ensures
        s@ == spec_interval_label(secs),
{
    let mut s = String::new();
    if secs < 60 {
        append_decimal(&mut s, secs);
        s.append(" s");
    } else if secs % 60 == 0 {
        append_decimal(&mut s, secs / 60);
        s.append(" m");
    } else {
        append_decimal(&mut s, secs / 60);
        s.append(" m ");
        append_decimal(&mut s, secs % 60);
        s.append(" s");
    }
    proof {
        assert(s@ =~= spec_interval_label(secs));
    }
    s
}

/// Name of a row in the settings list.
pub open spec fn spec_row_name(row: SettingRow) -> Seq<char> {
    match row {
        SettingRow::Dpi => "DPI"@,
        SettingRow::PollingRate => "Polling Rate"@,
        SettingRow::Debounce => "Debounce"@,
        SettingRow::LiftOffDistance => "Lift-Off Distance"@,
        SettingRow::AngleSnap => "Angle Snap"@,
        SettingRow::RippleControl => "Ripple Control"@,
        SettingRow::MotionSync => "Motion Sync"@,
        SettingRow::TurboMode => "Turbo Mode"@,
        SettingRow::NotificationThreshold => "Alert Threshold"@,
        SettingRow::BatteryInterval => "Battery Interval"@,
    }
}

pub fn row_name(row: SettingRow) -> (s: &'static str)
    ensures
        s@ == spec_row_name(row),
{
    match row {
        SettingRow::Dpi => "DPI",
        SettingRow::PollingRate => "Polling Rate",
        SettingRow::Debounce => "Debounce",
        SettingRow::LiftOffDistance => "Lift-Off Distance",
        SettingRow::AngleSnap => "Angle Snap",
        SettingRow::RippleControl => "Ripple Control",
        SettingRow::MotionSync => "Motion Sync",
        SettingRow::TurboMode => "Turbo Mode",
        SettingRow::NotificationThreshold => "Alert Threshold",
        SettingRow::BatteryInterval => "Battery Interval",
    }
}

/// The left part of a row: its name, behind a marker on the selected row.
pub open spec fn spec_row_label(selected: bool, row: SettingRow) -> Seq<char> {
    (if selected {
        " › "@
    } else {
        "   "@
    }) + spec_row_name(row)
}

pub fn row_label(selected: bool, row: SettingRow) -> (s: String)
    ensures
        s@ == spec_row_label(selected, row),
{
    let mut s = if selected {
        String::from_str(" › ")
    } else {
        String::from_str("   ")
    };
    s.append(row_name(row));
    s
}

/// A toggle's box, checked or not.
pub open spec fn spec_check_mark(on: bool) -> Seq<char> {
    if on {
        "☑ "@
    } else {
        "☐ "@
    }
}

/// The right part of a row: the pending slider value for the slider rows
/// (the highest preset past the table's end), the stored value for the
/// others, then two spaces; a box for the toggles.
pub open spec fn spec_row_value(a: App, row: SettingRow) -> Seq<char> {
    let s = a.settings;
    match row {
        SettingRow::Dpi => spec_decimal(spec_dpi_value(a.dpi_slider.spec_value() as int) as nat) + "  "@,
        SettingRow::PollingRate => spec_decimal(
            spec_rate_at(a.polling_slider.spec_value() as int).spec_hz() as nat,
        ) + " Hz  "@,
        SettingRow::Debounce => spec_decimal(a.debounce_slider.spec_value() as nat) + " ms  "@,
        SettingRow::LiftOffDistance => lod_text(spec_lod_of_byte(s.lod)) + "  "@,
        SettingRow::AngleSnap => spec_check_mark(s.angle_snap),
        SettingRow::RippleControl => spec_check_mark(s.ripple_control),
        SettingRow::MotionSync => spec_check_mark(s.motion_sync),
        SettingRow::TurboMode => spec_check_mark(s.turbo_mode),
        SettingRow::NotificationThreshold => spec_decimal(s.notification_threshold as nat) + " %  "@,
        SettingRow::BatteryInterval => spec_interval_label(s.battery_interval_secs) + "  "@,
    }
}

fn check_mark(on: bool) -> (s: String)
    ensures
        s@ == spec_check_mark(on),
{
    if on {
        String::from_str("☑ ")
    } else {
        String::from_str("☐ ")
    }
}

/// What a row shows on its right (see `spec_row_value`).
pub fn row_value(app: &App, row: SettingRow) -> (s: String)
    ensures
        s@ == spec_row_value(*app, row),
{
    proof {
        lemma_tables();
    }
    let settings = &app.settings;
    match row {
        SettingRow::Dpi => {
            let idx = app.dpi_slider.value() as usize;
            let mut s = decimal_string(DPI_VALUES[if idx < 5 { idx } else { 5 }] as u64);
            s.append("  ");
            s
        },
        SettingRow::PollingRate => {
            let idx = app.polling_slider.value() as usize;
            let rate = POLLING_RATES[if idx < 6 { idx } else { 6 }];
            let mut s = decimal_string(rate.as_hz() as u64);
            s.append(" Hz  ");
            s
        },
        SettingRow::Debounce => {
            let mut s = decimal_string(app.debounce_slider.value() as u64);
            s.append(" ms  ");
            s
        },
        SettingRow::LiftOffDistance => {
            let mut s = lod_label(settings.lod());
            s.append("  ");
            s
        },
        SettingRow::AngleSnap => check_mark(settings.angle_snap),
        SettingRow::RippleControl => check_mark(settings.ripple_control),
        SettingRow::MotionSync => check_mark(settings.motion_sync),
        SettingRow::TurboMode => check_mark(settings.turbo_mode),
        SettingRow::NotificationThreshold => {
            let mut s = decimal_string(settings.notification_threshold as u64);
            s.append(" %  ");
            s
        },
        SettingRow::BatteryInterval => {
            let mut s = interval_label(settings.battery_interval_secs);
            s.append("  ");
            s
        },
    }
}

pub open spec fn spec_connection_label(connected: bool, wired: bool) -> Seq<char> {
    if !connected {
        "not connected"@
    } else if wired {
        "wired"@
    } else {
        "wireless"@
    }
}

/// How the header names the connection.
pub fn connection_label(app: &App) -> (s: &'static str)
    ensures
        s@ == spec_connection_label(app.device_connected, app.device_wired),
{
    if !app.device_connected {
        "not connected"
    } else if app.device_wired {
        "wired"
    } else {
        "wireless"
    }
}

/// Key help shown in the footer while no status message is up.
pub const FOOTER_HINT: &'static str = "↑↓: navigate  ←→: adjust  Enter: apply  q: quit";

/// How the footer line is coloured.
#[derive(Debug, Clone, Copy, PartialEq, Eq, Structural)]
pub enum FooterTone {
    Error,
    Success,
    Hint,
}

/// The footer: the status message, in red for an error and green
/// otherwise, or the key help when there is none.
pub fn footer(app: &App) -> (f: (&str, FooterTone))
    ensures
        match app.status_msg {
            Some(m) => f.0@ == m.text@ && f.1 == (if m.is_error {
                FooterTone::Error
            } else {
                FooterTone::Success
            }),
            None => f.0@ == FOOTER_HINT@ && f.1 == FooterTone::Hint,
        },
{
    match &app.status_msg {
        Some(m) => (m.text.as_str(), if m.is_error {
            FooterTone::Error
        } else {
            FooterTone::Success
        }),
        None => (FOOTER_HINT, FooterTone::Hint),
    }
}

} // verus!
