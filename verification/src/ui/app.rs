//! The settings panel: which row is selected, what a key or a click does to
//! the pending values, which device request applying a value makes, and the
//! status line. Drawing, reading the terminal and talking to the device are
//! the caller's part.
use vstd::prelude::*;
use crate::device::protocol::{
    clamp_dpi, is_nearest_stage, set_angle_snap, set_debounce, set_dpi, set_lod, set_motion_sync,
    set_polling_rate, set_ripple_control, set_turbo_mode, spec_configure, spec_set_dpi, sub_from_55,
    toggle_values, LiftOffDistance, MouseStatus, PollingRate, ProtocolError, SUB_ANGLE_SNAP,
    SUB_DEBOUNCE, SUB_LOD, SUB_MOTION_SYNC, SUB_POLLING_RATE, SUB_RIPPLE, SUB_TURBO,
};
use crate::device::transport::{actions_view, ActionModel, Device, DeviceAction};
use crate::settings::{
    is_interval_option, spec_lod_byte, spec_lod_of_byte, spec_rate_of_byte, usable, Settings, INTERVAL_OPTIONS,
};
use crate::text::{append_decimal, spec_decimal};
use crate::ui::slider::{clamp_to, Slider};

verus! {

/// The six DPI presets. The slider holds the index, so that every step has
/// the same width on screen.
pub const DPI_VALUES: [u16; 6] = [400, 800, 1600, 3200, 6400, 12800];

pub const POLLING_RATES: [PollingRate; 7] = [
    PollingRate::Hz125,
    PollingRate::Hz250,
    PollingRate::Hz500,
    PollingRate::Hz1000,
    PollingRate::Hz2000,
    PollingRate::Hz4000,
    PollingRate::Hz8000,
];

pub const LOD_OPTIONS: [LiftOffDistance; 3] = [
    LiftOffDistance::Low,
    LiftOffDistance::Medium,
    LiftOffDistance::High,
];

/// A status message disappears after this long.
pub const STATUS_MSG_TTL_MS: u64 = 3000;

/// Number of rows in the panel.
pub const ROW_COUNT: usize = 10;

#[derive(Debug, Clone, Copy, PartialEq, Eq, Structural)]
pub enum SettingRow {
    Dpi,
    PollingRate,
    LiftOffDistance,
    Debounce,
    AngleSnap,
    RippleControl,
    MotionSync,
    TurboMode,
    NotificationThreshold,
    BatteryInterval,
}

/// The rows in the order the panel shows them.
pub const SETTINGS_ROWS: [SettingRow; 10] = [
    SettingRow::Dpi,
    SettingRow::PollingRate,
    SettingRow::Debounce,
    SettingRow::LiftOffDistance,
    SettingRow::AngleSnap,
    SettingRow::RippleControl,
    SettingRow::MotionSync,
    SettingRow::TurboMode,
    SettingRow::NotificationThreshold,
    SettingRow::BatteryInterval,
];

pub open spec fn spec_row(i: int) -> SettingRow {
    if i == 0 {
        SettingRow::Dpi
    } else if i == 1 {
        SettingRow::PollingRate
    } else if i == 2 {
        SettingRow::Debounce
    } else if i == 3 {
        SettingRow::LiftOffDistance
    } else if i == 4 {
        SettingRow::AngleSnap
    } else if i == 5 {
        SettingRow::RippleControl
    } else if i == 6 {
        SettingRow::MotionSync
    } else if i == 7 {
        SettingRow::TurboMode
    } else if i == 8 {
        SettingRow::NotificationThreshold
    } else {
        SettingRow::BatteryInterval
    }
}

pub open spec fn spec_dpi_value(i: int) -> u16 {
    if i == 0 {
        400
    } else if i == 1 {
        800
    } else if i == 2 {
        1600
    } else if i == 3 {
        3200
    } else if i == 4 {
        6400
    } else {
        12800
    }
}

pub open spec fn spec_rate_at(i: int) -> PollingRate {
    if i == 0 {
        PollingRate::Hz125
    } else if i == 1 {
        PollingRate::Hz250
    } else if i == 2 {
        PollingRate::Hz500
    } else if i == 3 {
        PollingRate::Hz1000
    } else if i == 4 {
        PollingRate::Hz2000
    } else if i == 5 {
        PollingRate::Hz4000
    } else {
        PollingRate::Hz8000
    }
}

pub open spec fn spec_lod_at(i: int) -> LiftOffDistance {
    if i == 0 {
        LiftOffDistance::Low
    } else if i == 1 {
        LiftOffDistance::Medium
    } else {
        LiftOffDistance::High
    }
}

pub open spec fn spec_interval_at(i: int) -> u64 {
    if i == 0 {
        30
    } else if i == 1 {
        60
    } else if i == 2 {
        120
    } else if i == 3 {
        300
    } else {
        600
    }
}

/// Index of `dpi` among the presets, 2 (1600) if it is none of them.
pub open spec fn spec_dpi_index(dpi: u16) -> int {
    if dpi == 400 {
        0
    } else if dpi == 800 {
        1
    } else if dpi == 1600 {
        2
    } else if dpi == 3200 {
        3
    } else if dpi == 6400 {
        4
    } else if dpi == 12800 {
        5
    } else {
        2
    }
}

pub open spec fn spec_rate_index(r: PollingRate) -> int {
    match r {
        PollingRate::Hz125 => 0,
        PollingRate::Hz250 => 1,
        PollingRate::Hz500 => 2,
        PollingRate::Hz1000 => 3,
        PollingRate::Hz2000 => 4,
        PollingRate::Hz4000 => 5,
        PollingRate::Hz8000 => 6,
    }
}

pub open spec fn spec_lod_index(l: LiftOffDistance) -> int {
    match l {
        LiftOffDistance::Low => 0,
        LiftOffDistance::Medium => 1,
        LiftOffDistance::High => 2,
    }
}

/// Index of `secs` among the interval presets, 1 (60 s) if it is none of them.
pub open spec fn spec_interval_index(secs: u64) -> int {
    if secs == 30 {
        0
    } else if secs == 120 {
        2
    } else if secs == 300 {
        3
    } else if secs == 600 {
        4
    } else {
        1
    }
}

pub(crate) proof fn lemma_tables()
    ensures
        forall|i: int| 0 <= i < 10 ==> #[trigger] SETTINGS_ROWS@[i] == spec_row(i),
        forall|i: int| 0 <= i < 6 ==> #[trigger] DPI_VALUES@[i] == spec_dpi_value(i),
        forall|i: int| 0 <= i < 7 ==> #[trigger] POLLING_RATES@[i] == spec_rate_at(i),
        forall|i: int| 0 <= i < 3 ==> #[trigger] LOD_OPTIONS@[i] == spec_lod_at(i),
        forall|i: int| 0 <= i < 5 ==> #[trigger] INTERVAL_OPTIONS@[i] == spec_interval_at(i),
{
    assert(SETTINGS_ROWS@ =~= seq![
        SettingRow::Dpi,
        SettingRow::PollingRate,
        SettingRow::Debounce,
        SettingRow::LiftOffDistance,
        SettingRow::AngleSnap,
        SettingRow::RippleControl,
        SettingRow::MotionSync,
        SettingRow::TurboMode,
        SettingRow::NotificationThreshold,
        SettingRow::BatteryInterval,
    ]);
    assert(DPI_VALUES@ =~= seq![400u16, 800, 1600, 3200, 6400, 12800]);
    assert(POLLING_RATES@ =~= seq![
        PollingRate::Hz125,
        PollingRate::Hz250,
        PollingRate::Hz500,
        PollingRate::Hz1000,
        PollingRate::Hz2000,
        PollingRate::Hz4000,
        PollingRate::Hz8000,
    ]);
    assert(LOD_OPTIONS@ =~= seq![LiftOffDistance::Low, LiftOffDistance::Medium, LiftOffDistance::High]);
    assert(INTERVAL_OPTIONS@ =~= seq![30u64, 60, 120, 300, 600]);
}

/// A key press, as far as the panel reads it.
#[derive(Debug, Clone, Copy, PartialEq, Eq, Structural)]
pub enum KeyInput {
    Char(char),
    Esc,
    Up,
    Down,
    Left,
    Right,
    Enter,
    Other,
}

/// A mouse event, as far as the panel reads it.
#[derive(Debug, Clone, Copy, PartialEq, Eq, Structural)]
pub enum MouseInput {
    ScrollUp,
    ScrollDown,
    LeftClick,
    RightClick,
    Other,
}

/// A change the panel asks the device to make.
#[derive(Debug, Clone, Copy, PartialEq, Eq, Structural)]
pub enum PanelRequest {
    SetDpi(u16),
    SetPollingRate(PollingRate),
    SetLod(LiftOffDistance),
    SetDebounce(u8),
    SetAngleSnap(bool),
    SetRippleControl(bool),
    SetMotionSync(bool),
    SetTurboMode(bool),
}

/// What became of a request.
#[derive(Debug, Clone)]
pub enum DeviceReply {
    /// No device is connected.
    NoDevice,
    /// The device is in use by the battery worker.
    Busy,
    /// The device accepted the change.
    Applied,
    /// The change failed with this message.
    Failed(String),
}

#[derive(Debug, Clone)]
pub struct StatusMessage {
    pub text: String,
    pub is_error: bool,
    /// The caller's clock when the message was set.
    pub shown_at_ms: u64,
}

/// What the panel knows of a connected device when it opens.
#[derive(Debug, Clone)]
pub struct Connection {
    pub path: String,
    pub wired: bool,
    pub firmware: Option<String>,
    /// DPI read from the device.
    pub dpi: u16,
}

/// The settings panel.
#[derive(Debug)]
pub struct App {
    pub device_connected: bool,
    pub device_path: String,
    pub device_wired: bool,
    pub settings: Settings,
    pub battery: Option<MouseStatus>,
    pub battery_loading: bool,
    pub firmware: Option<String>,
    /// Last DPI confirmed on the device.
    pub dpi: u16,
    /// Index into `DPI_VALUES`; pending until Enter.
    pub dpi_slider: Slider,
    /// Index into `POLLING_RATES`; pending until Enter.
    pub polling_slider: Slider,
    /// Debounce in ms, 0-20; pending until Enter.
    pub debounce_slider: Slider,
    pub settings_row: usize,
    pub status_msg: Option<StatusMessage>,
    pub should_quit: bool,
}

pub open spec fn on_off_text(v: bool) -> Seq<char> {
    if v {
        "ON"@
    } else {
        "OFF"@
    }
}

pub open spec fn lod_text(l: LiftOffDistance) -> Seq<char> {
    match l {
        LiftOffDistance::Low => "0.7 mm"@,
        LiftOffDistance::Medium => "1 mm"@,
        LiftOffDistance::High => "2 mm"@,
    }
}

/// "ON" or "OFF".
pub fn on_off(v: bool) -> (s: &'static str)
    ensures
        s@ == on_off_text(v),
{
    if v {
        "ON"
    } else {
        "OFF"
    }
}

/// The height a lift-off distance stands for.
pub fn lod_label(lod: LiftOffDistance) -> (s: String)
    ensures
        s@ == lod_text(lod),
{
    match lod {
        LiftOffDistance::Low => String::from_str("0.7 mm"),
        LiftOffDistance::Medium => String::from_str("1 mm"),
        LiftOffDistance::High => String::from_str("2 mm"),
    }
}

pub open spec fn dec(n: int) -> Seq<char> {
    spec_decimal(n as nat)
}

pub open spec fn status_is(m: Option<StatusMessage>, text: Seq<char>, is_error: bool, now_ms: u64) -> bool {
    m matches Some(s) && s.text@ == text && s.is_error == is_error && s.shown_at_ms == now_ms
}

/// The panel's own invariant: a row is selected and each slider has its range.
pub open spec fn panel_ok(a: App) -> bool {
    &&& a.settings_row < ROW_COUNT
    &&& a.dpi_slider.spec_min() == 0 && a.dpi_slider.spec_max() == 5
    &&& a.polling_slider.spec_min() == 0 && a.polling_slider.spec_max() == 6
    &&& a.debounce_slider.spec_min() == 0 && a.debounce_slider.spec_max() == 20
}

/// `b` is `a` with a new status message (or the same one).
pub open spec fn only_status(a: App, b: App) -> bool {
    b == (App { status_msg: b.status_msg, ..a })
}

/// A pending slider moved by `delta` steps, clamped to its range.
pub open spec fn moved(s: Slider, t: Slider, delta: int) -> bool {
    t.spec_min() == s.spec_min() && t.spec_max() == s.spec_max() && t.spec_value() == clamp_to(
        s.spec_value() + delta,
        s.spec_min(),
        s.spec_max(),
    )
}

/// What `adjust_setting(delta)` does: the new panel and the device request.
pub open spec fn spec_adjust(a: App, b: App, delta: int, now_ms: u64, req: Option<PanelRequest>) -> bool {
    let row = spec_row(a.settings_row as int);
    match row {
        SettingRow::Dpi => if delta == 0 {
            b == a && req == Some(PanelRequest::SetDpi(spec_dpi_value(a.dpi_slider.spec_value() as int)))
        } else {
            &&& b == (App { dpi_slider: b.dpi_slider, status_msg: b.status_msg, ..a })
            &&& moved(a.dpi_slider, b.dpi_slider, delta)
            &&& status_is(
                b.status_msg,
                "DPI "@ + dec(spec_dpi_value(b.dpi_slider.spec_value() as int) as int)
                    + " — press Enter to apply"@,
                false,
                now_ms,
            )
            &&& req is None
        },
        SettingRow::PollingRate => if delta == 0 {
            b == a && req == Some(PanelRequest::SetPollingRate(spec_rate_at(a.polling_slider.spec_value() as int)))
        } else {
            &&& b == (App { polling_slider: b.polling_slider, status_msg: b.status_msg, ..a })
            &&& moved(a.polling_slider, b.polling_slider, delta)
            &&& status_is(
                b.status_msg,
                "Polling "@ + dec(spec_rate_at(b.polling_slider.spec_value() as int).spec_hz() as int)
                    + " Hz — press Enter to apply"@,
                false,
                now_ms,
            )
            &&& req is None
        },
        SettingRow::LiftOffDistance => {
            let l = spec_lod_at(clamp_to(spec_lod_index(spec_lod_of_byte(a.settings.lod)) + delta, 0, 2) as int);
            b == (App { settings: Settings { lod: spec_lod_byte(l), ..a.settings }, ..a }) && req == Some(
                PanelRequest::SetLod(l),
            )
        },
        SettingRow::Debounce => if delta == 0 {
            b == a && req == Some(PanelRequest::SetDebounce(a.debounce_slider.spec_value() as u8))
        } else {
            &&& b == (App { debounce_slider: b.debounce_slider, status_msg: b.status_msg, ..a })
            &&& moved(a.debounce_slider, b.debounce_slider, delta)
            &&& status_is(
                b.status_msg,
                "Debounce "@ + dec(b.debounce_slider.spec_value() as int) + " ms — press Enter to apply"@,
                false,
                now_ms,
            )
            &&& req is None
        },
        SettingRow::AngleSnap => b == (App { settings: Settings { angle_snap: !a.settings.angle_snap, ..a.settings }, ..a })
            && req == Some(PanelRequest::SetAngleSnap(!a.settings.angle_snap)),
        SettingRow::RippleControl => b == (App {
            settings: Settings { ripple_control: !a.settings.ripple_control, ..a.settings },
            ..a
        }) && req == Some(PanelRequest::SetRippleControl(!a.settings.ripple_control)),
        SettingRow::MotionSync => b == (App { settings: Settings { motion_sync: !a.settings.motion_sync, ..a.settings }, ..a })
            && req == Some(PanelRequest::SetMotionSync(!a.settings.motion_sync)),
        SettingRow::TurboMode => b == (App { settings: Settings { turbo_mode: !a.settings.turbo_mode, ..a.settings }, ..a })
            && req == Some(PanelRequest::SetTurboMode(!a.settings.turbo_mode)),
        SettingRow::NotificationThreshold => if delta == 0 {
            b == a && req is None
        } else {
            let t = clamp_to(a.settings.notification_threshold + 5 * delta, 5, 50);
            &&& b == (App {
                settings: Settings { notification_threshold: t as u8, ..a.settings },
                status_msg: b.status_msg,
                ..a
            })
            &&& status_is(b.status_msg, "Alert threshold → "@ + dec(t as int) + "%"@, false, now_ms)
            &&& req is None
        },
        SettingRow::BatteryInterval => if delta == 0 {
            b == a && req is None
        } else {
            let secs = spec_interval_at(clamp_to(spec_interval_index(a.settings.battery_interval_secs) + delta, 0, 4) as int);
            &&& b == (App { settings: Settings { battery_interval_secs: secs, ..a.settings }, status_msg: b.status_msg, ..a })
            &&& status_is(b.status_msg, "Battery interval → "@ + dec(secs as int) + "s"@, false, now_ms)
            &&& req is None
        },
    }
}

/// The status a reply sets before the request's own message.
pub open spec fn reply_status(a: App, b: App, reply: DeviceReply, now_ms: u64) -> bool {
    match reply {
        DeviceReply::NoDevice => only_status(a, b) && status_is(b.status_msg, "No device"@, true, now_ms),
        DeviceReply::Busy => only_status(a, b) && status_is(
            b.status_msg,
            "Device busy — try again"@,
            true,
            now_ms,
        ),
        _ => b == a,
    }
}

/// What finishing `req` with `reply` does to the panel, starting from `m`,
/// the panel after the reply's own status.
pub open spec fn spec_finish(m: App, b: App, req: PanelRequest, reply: DeviceReply, now_ms: u64) -> bool {
    match req {
        PanelRequest::SetDpi(d) => match reply {
            DeviceReply::Applied => b == (App { dpi: d, status_msg: b.status_msg, ..m }) && status_is(
                b.status_msg,
                "DPI → "@ + dec(d as int),
                false,
                now_ms,
            ),
            DeviceReply::Failed(msg) => if msg@.len() > 0 {
                &&& b == (App { dpi_slider: b.dpi_slider, status_msg: b.status_msg, ..m })
                &&& b.dpi_slider == m.dpi_slider || (b.dpi_slider.spec_min() == m.dpi_slider.spec_min()
                    && b.dpi_slider.spec_max() == m.dpi_slider.spec_max())
                &&& b.dpi_slider.spec_value() == clamp_to(
                    spec_dpi_index(m.dpi),
                    m.dpi_slider.spec_min(),
                    m.dpi_slider.spec_max(),
                )
                &&& status_is(b.status_msg, "Error: "@ + msg@, true, now_ms)
            } else {
                b == m
            },
            _ => b == m,
        },
        PanelRequest::SetPollingRate(r) => match reply {
            DeviceReply::Applied => b == (App {
                settings: Settings { polling_rate: r.spec_byte(), ..m.settings },
                status_msg: b.status_msg,
                ..m
            }) && status_is(b.status_msg, "Polling → "@ + dec(r.spec_hz() as int) + " Hz"@, false, now_ms),
            DeviceReply::Failed(msg) => if msg@.len() > 0 {
                &&& b == (App { polling_slider: b.polling_slider, status_msg: b.status_msg, ..m })
                &&& b.polling_slider.spec_min() == m.polling_slider.spec_min()
                &&& b.polling_slider.spec_max() == m.polling_slider.spec_max()
                &&& b.polling_slider.spec_value() == clamp_to(
                    spec_rate_index(spec_rate_of_byte(m.settings.polling_rate)),
                    m.polling_slider.spec_min(),
                    m.polling_slider.spec_max(),
                )
                &&& status_is(b.status_msg, "Error: "@ + msg@, true, now_ms)
            } else {
                b == m
            },
            _ => b == m,
        },
        PanelRequest::SetDebounce(v) => match reply {
            DeviceReply::Applied => b == (App {
                settings: Settings { debounce_ms: v, ..m.settings },
                status_msg: b.status_msg,
                ..m
            }) && status_is(b.status_msg, "Debounce → "@ + dec(v as int) + " ms"@, false, now_ms),
            DeviceReply::Failed(msg) => if msg@.len() > 0 {
                &&& b == (App { debounce_slider: b.debounce_slider, status_msg: b.status_msg, ..m })
                &&& b.debounce_slider.spec_min() == m.debounce_slider.spec_min()
                &&& b.debounce_slider.spec_max() == m.debounce_slider.spec_max()
                &&& b.debounce_slider.spec_value() == clamp_to(
                    m.settings.debounce_ms as int,
                    m.debounce_slider.spec_min(),
                    m.debounce_slider.spec_max(),
                )
                &&& status_is(b.status_msg, "Error: "@ + msg@, true, now_ms)
            } else {
                b == m
            },
            _ => b == m,
        },
        PanelRequest::SetLod(l) => only_status(m, b) && status_is(b.status_msg, "LOD → "@ + lod_text(l), false, now_ms),
        PanelRequest::SetAngleSnap(v) => only_status(m, b) && status_is(
            b.status_msg,
            "Angle Snap → "@ + on_off_text(v),
            false,
            now_ms,
        ),
        PanelRequest::SetRippleControl(v) => only_status(m, b) && status_is(
            b.status_msg,
            "Ripple → "@ + on_off_text(v),
            false,
            now_ms,
        ),
        PanelRequest::SetMotionSync(v) => only_status(m, b) && status_is(
            b.status_msg,
            "Motion Sync → "@ + on_off_text(v),
            false,
            now_ms,
        ),
        PanelRequest::SetTurboMode(v) => only_status(m, b) && status_is(
            b.status_msg,
            "Turbo → "@ + on_off_text(v),
            false,
            now_ms,
        ),
    }
}

/// `prefix` + decimal `n` + `suffix`.
fn message(prefix: &str, n: u64, suffix: &str) -> (s: String)
    ensures
        s@ == prefix@ + spec_decimal(n as nat) + suffix@,
{
    let mut s = String::from_str(prefix);
    append_decimal(&mut s, n);
    s.append(suffix);
    s
}

/// `prefix` + `rest`.
fn join(prefix: &str, rest: &str) -> (s: String)
    ensures
        s@ == prefix@ + rest@,
{
    let mut s = String::from_str(prefix);
    s.append(rest);
    s
}

impl App {
    pub open spec fn spec_new(a: App, settings: Settings, connection: Option<Connection>) -> bool {
        &&& a.settings == settings
        &&& a.battery is None
        &&& a.battery_loading == connection is Some
        &&& a.device_connected == connection is Some
        &&& a.settings_row == 0
        &&& a.status_msg is None
        &&& !a.should_quit
        &&& panel_ok(a)
        &&& a.debounce_slider.spec_value() == clamp_to(settings.debounce_ms as int, 0, 20)
        &&& a.polling_slider.spec_value() == spec_rate_index(spec_rate_of_byte(settings.polling_rate))
        &&& match connection {
            Some(c) => {
                &&& a.device_path == c.path
                &&& a.device_wired == c.wired
                &&& a.firmware == c.firmware
                &&& a.dpi == c.dpi
                &&& a.dpi_slider.spec_value() == spec_dpi_index(c.dpi)
            },
            None => {
                &&& a.device_path@ == Seq::<char>::empty()
                &&& !a.device_wired
                &&& a.firmware is None
                &&& a.dpi == 1600
                &&& a.dpi_slider.spec_value() == 2
            },
        }
    }

    /// The panel as it opens: sliders at the device's DPI (1600 without a
    /// device) and at the stored rate and debounce.
    pub fn new(settings: Settings, connection: Option<Connection>) -> (a: App)
        ensures
            App::spec_new(a, settings, connection),
    {
        let connected = connection.is_some();
        let (device_path, device_wired, firmware, dpi) = match connection {
            Some(c) => (c.path, c.wired, c.firmware, c.dpi),
            None => (String::new(), false, None, 1600u16),
        };
        let dpi_idx = dpi_index(dpi);
        let polling_idx = rate_index(settings.polling_rate());
        App {
            device_connected: connected,
            device_path,
            device_wired,
            settings,
            battery: None,
            battery_loading: connected,
            firmware,
            dpi,
            dpi_slider: Slider::new(dpi_idx as u32, 0, 5),
            polling_slider: Slider::new(polling_idx as u32, 0, 6),
            debounce_slider: Slider::new(settings.debounce_ms as u32, 0, 20),
            settings_row: 0,
            status_msg: None,
            should_quit: false,
        }
    }

    pub fn set_status(&mut self, text: String, is_error: bool, now_ms: u64)
        ensures
            *final(self) == (App { status_msg: Some(StatusMessage { text, is_error, shown_at_ms: now_ms }), ..*old(self) }),
    {
        self.status_msg = Some(StatusMessage { text, is_error, shown_at_ms: now_ms });
    }

    /// A battery reading from the worker.
    pub fn receive_battery(&mut self, status: MouseStatus)
        ensures
            *final(self) == (App { battery: Some(status), battery_loading: false, ..*old(self) }),
    {
        self.battery = Some(status);
        self.battery_loading = false;
    }

    /// Clears the status message once it has been shown for `STATUS_MSG_TTL_MS`.
    pub fn tick(&mut self, now_ms: u64)
        ensures
            *final(self) == (match old(self).status_msg {
                Some(m) => if now_ms >= m.shown_at_ms && now_ms - m.shown_at_ms >= STATUS_MSG_TTL_MS {
                    App { status_msg: None, ..*old(self) }
                } else {
                    *old(self)
                },
                None => *old(self),
            }),
    {
        let expired = match &self.status_msg {
            Some(m) => now_ms >= m.shown_at_ms && now_ms - m.shown_at_ms >= STATUS_MSG_TTL_MS,
            None => false,
        };
        if expired {
            self.status_msg = None;
        }
    }

    /// Handles a key: q or Esc or Ctrl-C quits, Up/k and Down/j move between
    /// rows, Left/h and Right/l adjust the row, Enter applies it.
    pub fn on_key(&mut self, code: KeyInput, control: bool, now_ms: u64) -> (req: Option<PanelRequest>)
        requires
            panel_ok(*old(self)),
        ensures
            panel_ok(*final(self)),
            usable(old(self).settings) ==> usable(final(self).settings),
            match code {
                KeyInput::Char('q') | KeyInput::Esc => *final(self) == (App { should_quit: true, ..*old(self) })
                    && req is None,
                KeyInput::Char('c') if control => *final(self) == (App { should_quit: true, ..*old(self) })
                    && req is None,
                KeyInput::Up | KeyInput::Char('k') => *final(self) == (App {
                    settings_row: if old(self).settings_row == 0 { 0 } else { (old(self).settings_row - 1) as usize },
                    ..*old(self)
                }) && req is None,
                KeyInput::Down | KeyInput::Char('j') => *final(self) == (App {
                    settings_row: if old(self).settings_row + 1 < ROW_COUNT {
                        (old(self).settings_row + 1) as usize
                    } else {
                        (ROW_COUNT - 1) as usize
                    },
                    ..*old(self)
                }) && req is None,
                KeyInput::Left | KeyInput::Char('h') => spec_adjust(*old(self), *final(self), -1, now_ms, req),
                KeyInput::Right | KeyInput::Char('l') => spec_adjust(*old(self), *final(self), 1, now_ms, req),
                KeyInput::Enter => spec_adjust(*old(self), *final(self), 0, now_ms, req),
                _ => *final(self) == *old(self) && req is None,
            },
    {
        match code {
            KeyInput::Char('q') | KeyInput::Esc => {
                self.should_quit = true;
                None
            },
            KeyInput::Char('c') if control => {
                self.should_quit = true;
                None
            },
            KeyInput::Up | KeyInput::Char('k') => {
                self.settings_row = if self.settings_row == 0 { 0 } else { self.settings_row - 1 };
                None
            },
            KeyInput::Down | KeyInput::Char('j') => {
                self.settings_row = if self.settings_row + 1 < ROW_COUNT {
                    self.settings_row + 1
                } else {
                    ROW_COUNT - 1
                };
                None
            },
            KeyInput::Left | KeyInput::Char('h') => self.adjust_setting(-1, now_ms),
            KeyInput::Right | KeyInput::Char('l') => self.adjust_setting(1, now_ms),
            KeyInput::Enter => self.adjust_setting(0, now_ms),
            _ => None,
        }
    }

    /// Handles a mouse event: the wheel moves between rows, a left click
    /// adjusts the row down and a right click up.
    pub fn on_mouse(&mut self, kind: MouseInput, now_ms: u64) -> (req: Option<PanelRequest>)
        requires
            panel_ok(*old(self)),
        ensures
            panel_ok(*final(self)),
            usable(old(self).settings) ==> usable(final(self).settings),
            match kind {
                MouseInput::ScrollUp => *final(self) == (App {
                    settings_row: if old(self).settings_row == 0 { 0 } else { (old(self).settings_row - 1) as usize },
                    ..*old(self)
                }) && req is None,
                MouseInput::ScrollDown => *final(self) == (App {
                    settings_row: if old(self).settings_row + 1 < ROW_COUNT {
                        (old(self).settings_row + 1) as usize
                    } else {
                        (ROW_COUNT - 1) as usize
                    },
                    ..*old(self)
                }) && req is None,
                MouseInput::LeftClick => spec_adjust(*old(self), *final(self), -1, now_ms, req),
                MouseInput::RightClick => spec_adjust(*old(self), *final(self), 1, now_ms, req),
                MouseInput::Other => *final(self) == *old(self) && req is None,
            },
    {
        match kind {
            MouseInput::ScrollUp => {
                self.settings_row = if self.settings_row == 0 { 0 } else { self.settings_row - 1 };
                None
            },
            MouseInput::ScrollDown => {
                self.settings_row = if self.settings_row + 1 < ROW_COUNT {
                    self.settings_row + 1
                } else {
                    ROW_COUNT - 1
                };
                None
            },
            MouseInput::LeftClick => self.adjust_setting(-1, now_ms),
            MouseInput::RightClick => self.adjust_setting(1, now_ms),
            MouseInput::Other => None,
        }
    }

    /// Moves the selected row's value by `delta` (-1, 0 for Enter, 1). Values
    /// with a slider stay pending until Enter; the rest apply at once.
    #[verifier::rlimit(50)]
    fn adjust_setting(&mut self, delta: i32, now_ms: u64) -> (req: Option<PanelRequest>)
        requires
            panel_ok(*old(self)),
            -1 <= delta <= 1,
        ensures
            panel_ok(*final(self)),
            usable(old(self).settings) ==> usable(final(self).settings),
            spec_adjust(*old(self), *final(self), delta as int, now_ms, req),
    {
        proof {
            lemma_tables();
        }
        match SETTINGS_ROWS[self.settings_row] {
            SettingRow::Dpi => {
                if delta == 0 {
                    let idx = self.dpi_slider.value() as usize;
                    let dpi = DPI_VALUES[if idx < 5 { idx } else { 5 }];
                    Some(PanelRequest::SetDpi(dpi))
                } else {
                    if delta < 0 {
                        self.dpi_slider.decrease(1);
                    } else {
                        self.dpi_slider.increase(1);
                    }
                    let idx = self.dpi_slider.value() as usize;
                    let pending = DPI_VALUES[if idx < 5 { idx } else { 5 }];
                    self.set_status(message("DPI ", pending as u64, " — press Enter to apply"), false, now_ms);
                    None
                }
            },
            SettingRow::PollingRate => {
                if delta == 0 {
                    let idx = self.polling_slider.value() as usize;
                    let rate = POLLING_RATES[if idx < 6 { idx } else { 6 }];
                    Some(PanelRequest::SetPollingRate(rate))
                } else {
                    if delta < 0 {
                        self.polling_slider.decrease(1);
                    } else {
                        self.polling_slider.increase(1);
                    }
                    let idx = self.polling_slider.value() as usize;
                    let pending = POLLING_RATES[if idx < 6 { idx } else { 6 }];
                    self.set_status(
                        message("Polling ", pending.as_hz() as u64, " Hz — press Enter to apply"),
                        false,
                        now_ms,
                    );
                    None
                }
            },
            SettingRow::LiftOffDistance => {
                let idx = lod_index(self.settings.lod()) as i32;
                let sum = idx + delta;
                let new: usize = if sum < 0 {
                    0
                } else if sum > 2 {
                    2
                } else {
                    sum as usize
                };
                let lod = LOD_OPTIONS[new];
                self.settings.set_lod(lod);
                Some(PanelRequest::SetLod(lod))
            },
            SettingRow::Debounce => {
                if delta == 0 {
                    let val = self.debounce_slider.value() as u8;
                    Some(PanelRequest::SetDebounce(val))
                } else {
                    if delta < 0 {
                        self.debounce_slider.decrease(1);
                    } else {
                        self.debounce_slider.increase(1);
                    }
                    let pending = self.debounce_slider.value() as u8;
                    self.set_status(
                        message("Debounce ", pending as u64, " ms — press Enter to apply"),
                        false,
                        now_ms,
                    );
                    None
                }
            },
            SettingRow::AngleSnap => {
                self.settings.angle_snap = !self.settings.angle_snap;
                Some(PanelRequest::SetAngleSnap(self.settings.angle_snap))
            },
            SettingRow::RippleControl => {
                self.settings.ripple_control = !self.settings.ripple_control;
                Some(PanelRequest::SetRippleControl(self.settings.ripple_control))
            },
            SettingRow::MotionSync => {
                self.settings.motion_sync = !self.settings.motion_sync;
                Some(PanelRequest::SetMotionSync(self.settings.motion_sync))
            },
            SettingRow::TurboMode => {
                self.settings.turbo_mode = !self.settings.turbo_mode;
                Some(PanelRequest::SetTurboMode(self.settings.turbo_mode))
            },
            SettingRow::NotificationThreshold => {
                if delta == 0 {
                    return None;
                }
                let sum = self.settings.notification_threshold as i32 + delta * 5;
                let new: u8 = if sum < 5 {
                    5
                } else if sum > 50 {
                    50
                } else {
                    sum as u8
                };
                self.settings.notification_threshold = new;
                self.set_status(message("Alert threshold → ", new as u64, "%"), false, now_ms);
                None
            },
            SettingRow::BatteryInterval => {
                if delta == 0 {
                    return None;
                }
                let idx = interval_index(self.settings.battery_interval_secs) as i32;
                let sum = idx + delta;
                let new: usize = if sum < 0 {
                    0
                } else if sum > 4 {
                    4
                } else {
                    sum as usize
                };
                let secs = INTERVAL_OPTIONS[new];
                self.settings.battery_interval_secs = secs;
                self.set_status(message("Battery interval → ", secs, "s"), false, now_ms);
                None
            },
        }
    }

    /// Takes in what became of a request: a missing or busy device is
    /// reported, an applied value becomes the confirmed one, and a failed
    /// one puts its slider back to the confirmed value.
    pub fn finish(&mut self, req: PanelRequest, reply: DeviceReply, now_ms: u64)
        requires
            panel_ok(*old(self)),
        ensures
            panel_ok(*final(self)),
            usable(old(self).settings) ==> usable(final(self).settings),
            exists|m: App| reply_status(*old(self), m, reply, now_ms) && spec_finish(m, *final(self), req, reply, now_ms),
    {
        let ghost a = *self;
        let ghost rep = reply;
        match &reply {
            DeviceReply::NoDevice => self.set_status(String::from_str("No device"), true, now_ms),
            DeviceReply::Busy => self.set_status(String::from_str("Device busy — try again"), true, now_ms),
            _ => {},
        }
        let ghost m = *self;
        assert(reply_status(a, m, reply, now_ms));
        match req {
            PanelRequest::SetDpi(d) => match reply {
                DeviceReply::Applied => {
                    self.dpi = d;
                    self.set_status(message("DPI → ", d as u64, ""), false, now_ms);
                    proof { reveal_strlit(""); }
                },
                DeviceReply::Failed(msg) => {
                    if !msg.as_str().is_empty() {
                        let confirmed_idx = dpi_index(self.dpi);
                        self.dpi_slider.set_value(confirmed_idx as u32);
                        self.set_status(join("Error: ", msg.as_str()), true, now_ms);
                    }
                },
                _ => {},
            },
            PanelRequest::SetPollingRate(r) => match reply {
                DeviceReply::Applied => {
                    self.settings.set_polling_rate(r);
                    self.set_status(message("Polling → ", r.as_hz() as u64, " Hz"), false, now_ms);
                },
                DeviceReply::Failed(msg) => {
                    if !msg.as_str().is_empty() {
                        let confirmed_idx = rate_index(self.settings.polling_rate());
                        self.polling_slider.set_value(confirmed_idx as u32);
                        self.set_status(join("Error: ", msg.as_str()), true, now_ms);
                    }
                },
                _ => {},
            },
            PanelRequest::SetDebounce(v) => match reply {
                DeviceReply::Applied => {
                    self.settings.debounce_ms = v;
                    self.set_status(message("Debounce → ", v as u64, " ms"), false, now_ms);
                },
                DeviceReply::Failed(msg) => {
                    if !msg.as_str().is_empty() {
                        self.debounce_slider.set_value(self.settings.debounce_ms as u32);
                        self.set_status(join("Error: ", msg.as_str()), true, now_ms);
                    }
                },
                _ => {},
            },
            PanelRequest::SetLod(l) => {
                let label = lod_label(l);
                self.set_status(join("LOD → ", label.as_str()), false, now_ms);
            },
            PanelRequest::SetAngleSnap(v) => self.set_status(join("Angle Snap → ", on_off(v)), false, now_ms),
            PanelRequest::SetRippleControl(v) => self.set_status(join("Ripple → ", on_off(v)), false, now_ms),
            PanelRequest::SetMotionSync(v) => self.set_status(join("Motion Sync → ", on_off(v)), false, now_ms),
            PanelRequest::SetTurboMode(v) => self.set_status(join("Turbo → ", on_off(v)), false, now_ms),
        }
        assert(reply_status(a, m, rep, now_ms) && spec_finish(m, *self, req, rep, now_ms));
    }
}

/// Index of `dpi` among the presets, 2 if it is none of them.
pub fn dpi_index(dpi: u16) -> (i: usize)
    ensures
        i == spec_dpi_index(dpi),
        i < 6,
{
    if dpi == 400 {
        0
    } else if dpi == 800 {
        1
    } else if dpi == 1600 {
        2
    } else if dpi == 3200 {
        3
    } else if dpi == 6400 {
        4
    } else if dpi == 12800 {
        5
    } else {
        2
    }
}

pub fn rate_index(r: PollingRate) -> (i: usize)
    ensures
        i == spec_rate_index(r),
        i < 7,
{
    match r {
        PollingRate::Hz125 => 0,
        PollingRate::Hz250 => 1,
        PollingRate::Hz500 => 2,
        PollingRate::Hz1000 => 3,
        PollingRate::Hz2000 => 4,
        PollingRate::Hz4000 => 5,
        PollingRate::Hz8000 => 6,
    }
}

pub fn lod_index(l: LiftOffDistance) -> (i: usize)
    ensures
        i == spec_lod_index(l),
        i < 3,
{
    match l {
        LiftOffDistance::Low => 0,
        LiftOffDistance::Medium => 1,
        LiftOffDistance::High => 2,
    }
}

/// Index of `secs` among the interval presets, 1 if it is none of them.
pub fn interval_index(secs: u64) -> (i: usize)
    ensures
        i == spec_interval_index(secs),
        i < 5,
{
    if secs == 30 {
        0
    } else if secs == 120 {
        2
    } else if secs == 300 {
        3
    } else if secs == 600 {
        4
    } else {
        1
    }
}


/// The exchange of a toggle request for `feature`.
pub open spec fn toggle_plan(feature: u8, v: bool) -> Seq<ActionModel> {
    spec_configure(feature, toggle_values(v).0, toggle_values(v).1)
}

/// What the device exchange of a request must be.
pub open spec fn request_plan_ok(req: PanelRequest, r: Result<Vec<DeviceAction>, ProtocolError>) -> bool {
    match req {
        PanelRequest::SetDpi(d) => r matches Ok(v) && exists|i: int|
            is_nearest_stage(clamp_dpi(d), i) && actions_view(v@) == spec_set_dpi(i),
        PanelRequest::SetPollingRate(rate) => r matches Ok(v) && actions_view(v@) == spec_configure(
            SUB_POLLING_RATE,
            rate.spec_byte(),
            sub_from_55(rate.spec_byte()),
        ),
        PanelRequest::SetLod(l) => r matches Ok(v) && actions_view(v@) == spec_configure(
            SUB_LOD,
            l.spec_device_values().0,
            l.spec_device_values().1,
        ),
        PanelRequest::SetDebounce(ms) => if ms > 20 {
            r == Err::<Vec<DeviceAction>, ProtocolError>(ProtocolError::DebounceOutOfRange)
        } else {
            r matches Ok(v) && actions_view(v@) == spec_configure(SUB_DEBOUNCE, ms, sub_from_55(ms))
        },
        PanelRequest::SetAngleSnap(b) => r matches Ok(v) && actions_view(v@) == toggle_plan(SUB_ANGLE_SNAP, b),
        PanelRequest::SetRippleControl(b) => r matches Ok(v) && actions_view(v@) == toggle_plan(SUB_RIPPLE, b),
        PanelRequest::SetMotionSync(b) => r matches Ok(v) && actions_view(v@) == toggle_plan(SUB_MOTION_SYNC, b),
        PanelRequest::SetTurboMode(b) => r matches Ok(v) && actions_view(v@) == toggle_plan(SUB_TURBO, b),
    }
}

/// The device exchange that carries out a request.
pub fn request_actions(device: &Device, req: PanelRequest) -> (r: Result<Vec<DeviceAction>, ProtocolError>)
    ensures
        request_plan_ok(req, r),
{
    match req {
        PanelRequest::SetDpi(d) => Ok(set_dpi(device, d)),
        PanelRequest::SetPollingRate(rate) => Ok(set_polling_rate(device, rate)),
        PanelRequest::SetLod(l) => Ok(set_lod(device, l)),
        PanelRequest::SetDebounce(ms) => set_debounce(device, ms),
        PanelRequest::SetAngleSnap(b) => Ok(set_angle_snap(device, b)),
        PanelRequest::SetRippleControl(b) => Ok(set_ripple_control(device, b)),
        PanelRequest::SetMotionSync(b) => Ok(set_motion_sync(device, b)),
        PanelRequest::SetTurboMode(b) => Ok(set_turbo_mode(device, b)),
    }
}

/// The requests that bring the device in line with stored settings, in the
/// order they are sent: rate, lift-off, debounce, angle snap, ripple, motion
/// sync, turbo.
pub open spec fn spec_apply_requests(settings: Settings) -> Seq<PanelRequest> {
    seq![
        PanelRequest::SetPollingRate(spec_rate_of_byte(settings.polling_rate)),
        PanelRequest::SetLod(spec_lod_of_byte(settings.lod)),
        PanelRequest::SetDebounce(settings.debounce_ms),
        PanelRequest::SetAngleSnap(settings.angle_snap),
        PanelRequest::SetRippleControl(settings.ripple_control),
        PanelRequest::SetMotionSync(settings.motion_sync),
        PanelRequest::SetTurboMode(settings.turbo_mode),
    ]
}

/// The requests that bring the device in line with `settings`; each is
/// carried out on its own and a failure does not stop the others.
pub fn apply_settings_to_device(settings: &Settings) -> (v: Vec<PanelRequest>)
    ensures
        v@ == spec_apply_requests(*settings),
{
    let mut v: Vec<PanelRequest> = Vec::new();
    v.push(PanelRequest::SetPollingRate(settings.polling_rate()));
    v.push(PanelRequest::SetLod(settings.lod()));
    v.push(PanelRequest::SetDebounce(settings.debounce_ms));
    v.push(PanelRequest::SetAngleSnap(settings.angle_snap));
    v.push(PanelRequest::SetRippleControl(settings.ripple_control));
    v.push(PanelRequest::SetMotionSync(settings.motion_sync));
    v.push(PanelRequest::SetTurboMode(settings.turbo_mode));
    assert(v@ =~= spec_apply_requests(*settings));
    v
}

/// Whether the row at `i` is one of the three slider rows.
pub open spec fn is_slider_row(i: int) -> bool {
    spec_row(i) is Dpi || spec_row(i) is PollingRate || spec_row(i) is Debounce
}

/// Moving a slider only changes what is pending: nothing is sent to the
/// device, and the confirmed DPI and the stored settings stay as they were.
pub proof fn law_slider_moves_are_pending(a: App, b: App, delta: int, now_ms: u64, req: Option<PanelRequest>)
    requires
        panel_ok(a),
        delta != 0,
        is_slider_row(a.settings_row as int),
        spec_adjust(a, b, delta, now_ms, req),
    ensures
        req is None,
        b.dpi == a.dpi,
        b.settings == a.settings,
        b.settings_row == a.settings_row,
{
}

/// Enter on a slider row sends the pending value; once the device accepts
/// it, that value is the confirmed one and the slider stays where it was.
pub proof fn law_applied_confirms_pending(
    a: App,
    b: App,
    m: App,
    c: App,
    req: Option<PanelRequest>,
    now_enter: u64,
    now_reply: u64,
)
    requires
        panel_ok(a),
        spec_adjust(a, b, 0, now_enter, req),
        req is Some,
        reply_status(b, m, DeviceReply::Applied, now_reply),
        spec_finish(m, c, req->0, DeviceReply::Applied, now_reply),
    ensures
        spec_row(a.settings_row as int) is Dpi ==> c.dpi == spec_dpi_value(a.dpi_slider.spec_value() as int)
            && c.dpi_slider == a.dpi_slider,
        spec_row(a.settings_row as int) is PollingRate ==> spec_rate_of_byte(c.settings.polling_rate)
            == spec_rate_at(a.polling_slider.spec_value() as int) && c.polling_slider == a.polling_slider,
        spec_row(a.settings_row as int) is Debounce ==> c.settings.debounce_ms == a.debounce_slider.spec_value() as u8
            && c.debounce_slider == a.debounce_slider,
{
    if spec_row(a.settings_row as int) is PollingRate {
        let r = spec_rate_at(a.polling_slider.spec_value() as int);
        crate::settings::law_polling_rate_round_trip(m.settings, r);
    }
}

/// When the device refuses the value Enter sent, the confirmed value stays
/// and the slider goes back to it.
pub proof fn law_failed_restores_confirmed(
    a: App,
    b: App,
    m: App,
    c: App,
    req: Option<PanelRequest>,
    msg: String,
    now_enter: u64,
    now_reply: u64,
)
    requires
        panel_ok(a),
        spec_adjust(a, b, 0, now_enter, req),
        req is Some,
        msg@.len() > 0,
        reply_status(b, m, DeviceReply::Failed(msg), now_reply),
        spec_finish(m, c, req->0, DeviceReply::Failed(msg), now_reply),
    ensures
        spec_row(a.settings_row as int) is Dpi ==> c.dpi == a.dpi && c.dpi_slider.spec_value() == spec_dpi_index(a.dpi),
        spec_row(a.settings_row as int) is PollingRate ==> c.settings == a.settings
            && c.polling_slider.spec_value() == spec_rate_index(spec_rate_of_byte(a.settings.polling_rate)),
        spec_row(a.settings_row as int) is Debounce ==> c.settings == a.settings
            && c.debounce_slider.spec_value() == clamp_to(a.settings.debounce_ms as int, 0, 20),
{
}

/// A toggle row adjusted twice is back where it started.
pub proof fn law_toggle_twice_restores(
    a: App,
    b: App,
    c: App,
    d1: int,
    d2: int,
    now1: u64,
    now2: u64,
    r1: Option<PanelRequest>,
    r2: Option<PanelRequest>,
)
    requires
        panel_ok(a),
        spec_row(a.settings_row as int) is AngleSnap || spec_row(a.settings_row as int) is RippleControl
            || spec_row(a.settings_row as int) is MotionSync || spec_row(a.settings_row as int) is TurboMode,
        spec_adjust(a, b, d1, now1, r1),
        spec_adjust(b, c, d2, now2, r2),
    ensures
        c == a,
{
    assert(c.settings == a.settings);
}

/// The alert-threshold row: Enter does nothing; Left and Right move the
/// threshold by 5 % per step within 5-50 %, report the new value, and send
/// nothing to the device. No other setting changes.
pub proof fn law_threshold_row(a: App, b: App, delta: int, now_ms: u64, req: Option<PanelRequest>)
    requires
        panel_ok(a),
        spec_row(a.settings_row as int) is NotificationThreshold,
        spec_adjust(a, b, delta, now_ms, req),
    ensures
        req is None,
        delta == 0 ==> b == a,
        delta != 0 ==> {
            let t = b.settings.notification_threshold;
            &&& t == clamp_to(a.settings.notification_threshold + 5 * delta, 5, 50)
            &&& 5 <= t <= 50
            &&& b.settings == (Settings { notification_threshold: t, ..a.settings })
            &&& b == (App { settings: b.settings, status_msg: b.status_msg, ..a })
            &&& status_is(b.status_msg, "Alert threshold → "@ + dec(t as int) + "%"@, false, now_ms)
        },
{
}

/// The battery-interval row: Enter does nothing; Left and Right step
/// through `INTERVAL_OPTIONS` from the stored interval (from 60 s when it is
/// none of them), stopping at either end, and send nothing to the device.
/// The result is always one of the options.
pub proof fn law_interval_row(a: App, b: App, delta: int, now_ms: u64, req: Option<PanelRequest>)
    requires
        panel_ok(a),
        spec_row(a.settings_row as int) is BatteryInterval,
        spec_adjust(a, b, delta, now_ms, req),
    ensures
        req is None,
        delta == 0 ==> b == a,
        delta != 0 ==> {
            let secs = b.settings.battery_interval_secs;
            &&& secs == INTERVAL_OPTIONS@[clamp_to(spec_interval_index(a.settings.battery_interval_secs) + delta, 0, 4) as int]
            &&& is_interval_option(secs)
            &&& b.settings == (Settings { battery_interval_secs: secs, ..a.settings })
            &&& b == (App { settings: b.settings, status_msg: b.status_msg, ..a })
            &&& status_is(b.status_msg, "Battery interval → "@ + dec(secs as int) + "s"@, false, now_ms)
        },
        (a.settings.battery_interval_secs == 600 && delta == 1) ==> b.settings.battery_interval_secs == 600,
        (a.settings.battery_interval_secs == 30 && delta == -1) ==> b.settings.battery_interval_secs == 30,
{
    lemma_tables();
}

/// The toggle rows: every adjustment flips that one setting, asks the
/// device to take the new value, and, whatever the device answers (missing,
/// busy, applied or failed), keeps the flip and reports the new value as ON
/// or OFF without an error.
pub proof fn law_toggle_row(
    a: App,
    b: App,
    m: App,
    c: App,
    delta: int,
    now_key: u64,
    req: Option<PanelRequest>,
    reply: DeviceReply,
    now_reply: u64,
)
    requires
        panel_ok(a),
        spec_adjust(a, b, delta, now_key, req),
        req is Some,
        reply_status(b, m, reply, now_reply),
        spec_finish(m, c, req->0, reply, now_reply),
    ensures
        spec_row(a.settings_row as int) is AngleSnap ==> {
            let v = !a.settings.angle_snap;
            &&& req == Some(PanelRequest::SetAngleSnap(v))
            &&& c.settings == (Settings { angle_snap: v, ..a.settings })
            &&& status_is(c.status_msg, "Angle Snap → "@ + on_off_text(v), false, now_reply)
        },
        spec_row(a.settings_row as int) is RippleControl ==> {
            let v = !a.settings.ripple_control;
            &&& req == Some(PanelRequest::SetRippleControl(v))
            &&& c.settings == (Settings { ripple_control: v, ..a.settings })
            &&& status_is(c.status_msg, "Ripple → "@ + on_off_text(v), false, now_reply)
        },
        spec_row(a.settings_row as int) is MotionSync ==> {
            let v = !a.settings.motion_sync;
            &&& req == Some(PanelRequest::SetMotionSync(v))
            &&& c.settings == (Settings { motion_sync: v, ..a.settings })
            &&& status_is(c.status_msg, "Motion Sync → "@ + on_off_text(v), false, now_reply)
        },
        spec_row(a.settings_row as int) is TurboMode ==> {
            let v = !a.settings.turbo_mode;
            &&& req == Some(PanelRequest::SetTurboMode(v))
            &&& c.settings == (Settings { turbo_mode: v, ..a.settings })
            &&& status_is(c.status_msg, "Turbo → "@ + on_off_text(v), false, now_reply)
        },
{
}

/// Moving the DPI slider: one step in the direction of `delta`, within the
/// six presets; only the slider and the status change, the status names the
/// pending preset, and nothing is sent to the device.
pub proof fn law_dpi_move(a: App, b: App, delta: int, now_ms: u64, req: Option<PanelRequest>)
    requires
        panel_ok(a),
        delta == 1 || delta == -1,
        spec_row(a.settings_row as int) is Dpi,
        spec_adjust(a, b, delta, now_ms, req),
    ensures
        req is None,
        b == (App { dpi_slider: b.dpi_slider, status_msg: b.status_msg, ..a }),
        b.dpi_slider.spec_min() == 0 && b.dpi_slider.spec_max() == 5,
        b.dpi_slider.spec_value() == clamp_to(a.dpi_slider.spec_value() + delta, 0, 5),
        b.dpi_slider.spec_value() <= 5,
        status_is(
            b.status_msg,
            "DPI "@ + dec(DPI_VALUES@[b.dpi_slider.spec_value() as int] as int) + " — press Enter to apply"@,
            false,
            now_ms,
        ),
{
    lemma_tables();
}

/// The slider position of a polling rate is where that rate stands in
/// `POLLING_RATES`.
pub proof fn law_rate_index_finds_rate(r: PollingRate)
    ensures
        0 <= spec_rate_index(r) < 7,
        POLLING_RATES@[spec_rate_index(r)] == r,
{
    lemma_tables();
}

/// The position of a lift-off distance is where it stands in `LOD_OPTIONS`.
pub proof fn law_lod_index_finds_lod(l: LiftOffDistance)
    ensures
        0 <= spec_lod_index(l) < 3,
        LOD_OPTIONS@[spec_lod_index(l)] == l,
{
    lemma_tables();
}

/// The slider position of a preset DPI is where it stands in `DPI_VALUES`;
/// any other DPI opens at 1600.
pub proof fn law_dpi_index_finds_preset(dpi: u16)
    ensures
        0 <= spec_dpi_index(dpi) < 6,
        (exists|i: int| 0 <= i < 6 && #[trigger] DPI_VALUES@[i] == dpi) ==> DPI_VALUES@[spec_dpi_index(dpi)] == dpi,
        !(exists|i: int| 0 <= i < 6 && #[trigger] DPI_VALUES@[i] == dpi) ==> DPI_VALUES@[spec_dpi_index(dpi)] == 1600,
{
    lemma_tables();
}

/// The position of a preset interval is where it stands in
/// `INTERVAL_OPTIONS`; any other value counts as 60 s.
pub proof fn law_interval_index_finds_option(secs: u64)
    ensures
        0 <= spec_interval_index(secs) < 5,
        is_interval_option(secs) ==> INTERVAL_OPTIONS@[spec_interval_index(secs)] == secs,
        !is_interval_option(secs) ==> INTERVAL_OPTIONS@[spec_interval_index(secs)] == 60,
{
    lemma_tables();
}

/// The panel opens with the polling slider on the stored rate and, with a
/// device at a preset DPI, the DPI slider on that DPI.
pub proof fn law_panel_opens_at_stored_values(a: App, settings: Settings, connection: Option<Connection>)
    requires
        App::spec_new(a, settings, connection),
    ensures
        a.polling_slider.spec_value() < 7,
        POLLING_RATES@[a.polling_slider.spec_value() as int] == spec_rate_of_byte(settings.polling_rate),
        a.dpi_slider.spec_value() < 6,
        connection matches Some(c) ==> ((exists|i: int| 0 <= i < 6 && #[trigger] DPI_VALUES@[i] == c.dpi)
            ==> DPI_VALUES@[a.dpi_slider.spec_value() as int] == c.dpi),
        connection is None ==> DPI_VALUES@[a.dpi_slider.spec_value() as int] == 1600,
{
    lemma_tables();
    law_rate_index_finds_rate(spec_rate_of_byte(settings.polling_rate));
    if let Some(c) = connection {
        law_dpi_index_finds_preset(c.dpi);
    }
}

/// The lift-off row steps along `LOD_OPTIONS` from the stored distance, by
/// `delta` and clamped to the ends, stores the new distance, sends it to
/// the device, and changes nothing else.
pub proof fn law_lod_row(a: App, b: App, delta: int, now_ms: u64, req: Option<PanelRequest>)
    requires
        panel_ok(a),
        spec_row(a.settings_row as int) is LiftOffDistance,
        spec_adjust(a, b, delta, now_ms, req),
    ensures
        forall|i: int|
            0 <= i < 3 && #[trigger] LOD_OPTIONS@[i] == spec_lod_of_byte(a.settings.lod) ==> {
                let l = LOD_OPTIONS@[clamp_to(i + delta, 0, 2) as int];
                &&& spec_lod_of_byte(b.settings.lod) == l
                &&& req == Some(PanelRequest::SetLod(l))
            },
        b == (App { settings: Settings { lod: b.settings.lod, ..a.settings }, ..a }),
{
    lemma_tables();
    assert forall|i: int|
        0 <= i < 3 && #[trigger] LOD_OPTIONS@[i] == spec_lod_of_byte(a.settings.lod) implies {
            let l = LOD_OPTIONS@[clamp_to(i + delta, 0, 2) as int];
            &&& spec_lod_of_byte(b.settings.lod) == l
            &&& req == Some(PanelRequest::SetLod(l))
        } by {
        law_lod_index_finds_lod(spec_lod_of_byte(a.settings.lod));
        assert(i == spec_lod_index(spec_lod_of_byte(a.settings.lod)));
    }
}

/// The polling slider runs from 125 Hz, doubling at every step; the DPI
/// slider from 400 DPI, doubling at every step; the lift-off options go from
/// the lowest to the highest; the interval presets grow strictly.
pub proof fn law_slider_tables_double()
    ensures
        POLLING_RATES@.len() == 7 && POLLING_RATES@[0].spec_hz() == 125,
        forall|i: int| 0 <= i < 6 ==> #[trigger] POLLING_RATES@[i + 1].spec_hz() == 2 * POLLING_RATES@[i].spec_hz(),
        DPI_VALUES@.len() == 6 && DPI_VALUES@[0] == 400,
        forall|i: int| 0 <= i < 5 ==> #[trigger] DPI_VALUES@[i + 1] == 2 * DPI_VALUES@[i],
        LOD_OPTIONS@ == seq![LiftOffDistance::Low, LiftOffDistance::Medium, LiftOffDistance::High],
        INTERVAL_OPTIONS@.len() == 5,
        forall|i: int| 0 <= i < 4 ==> #[trigger] INTERVAL_OPTIONS@[i] < INTERVAL_OPTIONS@[i + 1],
{
    lemma_tables();
    assert forall|i: int| 0 <= i < 6 implies #[trigger] POLLING_RATES@[i + 1].spec_hz() == 2 * POLLING_RATES@[i].spec_hz() by {
        assert(POLLING_RATES@[i] == spec_rate_at(i) && POLLING_RATES@[i + 1] == spec_rate_at(i + 1));
    }
    assert forall|i: int| 0 <= i < 5 implies #[trigger] DPI_VALUES@[i + 1] == 2 * DPI_VALUES@[i] by {
        assert(DPI_VALUES@[i] == spec_dpi_value(i) && DPI_VALUES@[i + 1] == spec_dpi_value(i + 1));
    }
    assert forall|i: int| 0 <= i < 4 implies #[trigger] INTERVAL_OPTIONS@[i] < INTERVAL_OPTIONS@[i + 1] by {
        assert(INTERVAL_OPTIONS@[i] == spec_interval_at(i) && INTERVAL_OPTIONS@[i + 1] == spec_interval_at(i + 1));
    }
    assert(LOD_OPTIONS@ =~= seq![LiftOffDistance::Low, LiftOffDistance::Medium, LiftOffDistance::High]);
}

} // verus!
