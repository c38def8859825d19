//! The Pulsar X2 HID protocol: the commands that change a setting, the
//! battery query and its wake-up sequence, and the decoding of replies.
//! Each operation is described as the `DeviceAction`s it performs.
use vstd::prelude::*;
use crate::device::transport::{
    actions_view, spec_report, spec_send_command, write_command, zeros, ActionModel, Device,
    DeviceAction,
};

verus! {

pub const CMD_PREPARE: u8 = 0x03;
pub const CMD_READY: u8 = 0x04;
pub const CMD_CONFIG: u8 = 0x07;
pub const CMD_QUERY_STAGE: u8 = 0x08;

pub const SUB_POLLING_RATE: u8 = 0x00;
pub const SUB_STAGE_SWITCH: u8 = 0x04;
pub const SUB_LOD: u8 = 0x0a;
pub const SUB_DPI_CONFIG: u8 = 0x0a;
pub const SUB_DEBOUNCE: u8 = 0xa9;
pub const SUB_MOTION_SYNC: u8 = 0xab;
pub const SUB_ANGLE_SNAP: u8 = 0xaf;
pub const SUB_RIPPLE: u8 = 0xb1;
pub const SUB_TURBO: u8 = 0xb5;

pub const DPI_MIN: u16 = 400;
pub const DPI_MAX: u16 = 12800;

/// The six DPI stages: (device stage, DPI).
pub const DPI_STAGES: [(u8, u16); 6] = [
    (0, 400),
    (1, 800),
    (2, 1600),
    (3, 3200),
    (4, 6400),
    (5, 12800),
];

/// Battery level and charging state reported by the mouse.
#[derive(Debug, Clone, Copy, PartialEq, Eq, Structural)]
pub struct MouseStatus {
    pub battery_level: u8,
    pub is_charging: bool,
}

/// Report rates the sensor supports.
#[derive(Debug, Clone, Copy, PartialEq, Eq, Structural)]
pub enum PollingRate {
    Hz125,
    Hz250,
    Hz500,
    Hz1000,
    Hz2000,
    Hz4000,
    Hz8000,
}

impl PollingRate {
    /// The byte the device uses for this rate.
    pub open spec fn spec_byte(self) -> u8 {
        match self {
            PollingRate::Hz125 => 0x08,
            PollingRate::Hz250 => 0x04,
            PollingRate::Hz500 => 0x02,
            PollingRate::Hz1000 => 0x01,
            PollingRate::Hz2000 => 0x10,
            PollingRate::Hz4000 => 0x20,
            PollingRate::Hz8000 => 0x40,
        }
    }

    pub open spec fn spec_hz(self) -> u16 {
        match self {
            PollingRate::Hz125 => 125,
            PollingRate::Hz250 => 250,
            PollingRate::Hz500 => 500,
            PollingRate::Hz1000 => 1000,
            PollingRate::Hz2000 => 2000,
            PollingRate::Hz4000 => 4000,
            PollingRate::Hz8000 => 8000,
        }
    }

    /// Reports per second.
    pub fn as_hz(&self) -> (hz: u16)
        ensures
            hz == self.spec_hz(),
    {
        match self {
            PollingRate::Hz125 => 125,
            PollingRate::Hz250 => 250,
            PollingRate::Hz500 => 500,
            PollingRate::Hz1000 => 1000,
            PollingRate::Hz2000 => 2000,
            PollingRate::Hz4000 => 4000,
            PollingRate::Hz8000 => 8000,
        }
    }

    /// The protocol byte of this rate.
    pub fn to_byte(&self) -> (b: u8)
        ensures
            b == self.spec_byte(),
    {
        match self {
            PollingRate::Hz125 => 0x08,
            PollingRate::Hz250 => 0x04,
            PollingRate::Hz500 => 0x02,
            PollingRate::Hz1000 => 0x01,
            PollingRate::Hz2000 => 0x10,
            PollingRate::Hz4000 => 0x20,
            PollingRate::Hz8000 => 0x40,
        }
    }
}


/// Settings of the lift-off distance.
#[derive(Debug, Clone, Copy, PartialEq, Eq, Structural)]
pub enum LiftOffDistance {
    Low,
    Medium,
    High,
}

impl LiftOffDistance {
    pub open spec fn spec_device_values(self) -> (u8, u8) {
        match self {
            LiftOffDistance::Low => (0x03, 0x52),
            LiftOffDistance::Medium => (0x01, 0x54),
            LiftOffDistance::High => (0x02, 0x53),
        }
    }

    /// The (stage, value) bytes the device uses for this distance.
    pub fn to_device_values(&self) -> (r: (u8, u8))
        ensures
            r == self.spec_device_values(),
    {
        match self {
            LiftOffDistance::Low => (0x03, 0x52),
            LiftOffDistance::Medium => (0x01, 0x54),
            LiftOffDistance::High => (0x02, 0x53),
        }
    }
}

/// What could be read of the device, each part independently.
#[derive(Debug, Clone)]
pub struct DeviceInfo {
    pub firmware: Option<String>,
    pub current_dpi: Option<u16>,
    pub battery: Option<MouseStatus>,
}

/// Requests the protocol refuses before anything is sent.
#[derive(Debug, Clone, Copy, PartialEq, Eq, Structural)]
pub enum ProtocolError {
    /// A DPI stage outside 1-6.
    StageOutOfRange,
    /// A DPI outside `DPI_MIN..=DPI_MAX`.
    DpiOutOfRange,
    /// A debounce time above 20 ms.
    DebounceOutOfRange,
    /// A stage reply shorter than 7 bytes.
    InvalidStageResponse,
}

pub open spec fn spec_error_message(e: ProtocolError) -> Seq<char> {
    match e {
        ProtocolError::StageOutOfRange => "Stage must be 1-6"@,
        ProtocolError::DpiOutOfRange => "DPI must be between 400 and 12800"@,
        ProtocolError::DebounceOutOfRange => "Debounce must be 0-20ms"@,
        ProtocolError::InvalidStageResponse => "Invalid stage response"@,
    }
}

impl ProtocolError {
    /// The text shown to the user for this error.
    pub fn message(&self) -> (m: &'static str)
        ensures
            m@ == spec_error_message(*self),
    {
        match self {
            ProtocolError::StageOutOfRange => "Stage must be 1-6",
            ProtocolError::DpiOutOfRange => "DPI must be between 400 and 12800",
            ProtocolError::DebounceOutOfRange => "Debounce must be 0-20ms",
            ProtocolError::InvalidStageResponse => "Invalid stage response",
        }
    }
}

/// A 15-byte command made of one command byte followed by zeros.
pub open spec fn plain_command(code: u8) -> Seq<u8> {
    seq![code] + zeros(14)
}

/// A 15-byte configuration command: sub-command, stage byte, value byte.
pub open spec fn config_command(sub: u8, stage: u8, value: u8) -> Seq<u8> {
    seq![CMD_CONFIG, 0x00, 0x00, sub, 0x02, stage, value] + zeros(8)
}

/// `0x55 - x`, wrapping at 256.
pub open spec fn sub_from_55(x: u8) -> u8 {
    if x <= 0x55 {
        (0x55 - x) as u8
    } else {
        (0x55 + 256 - x) as u8
    }
}

/// The prepare/ready handshake that precedes every configuration command.
pub open spec fn spec_prepare() -> Seq<ActionModel> {
    seq![
        write_command(plain_command(CMD_PREPARE)),
        ActionModel::Sleep(50),
        write_command(plain_command(CMD_READY)),
        ActionModel::Sleep(50),
    ]
}

/// Handshake, then one configuration command.
pub open spec fn spec_configure(sub: u8, stage: u8, value: u8) -> Seq<ActionModel> {
    spec_prepare() + spec_send_command(config_command(sub, stage, value), false)
}

fn build_config_command(sub: u8, stage: u8, value: u8) -> (c: [u8; 15])
    ensures
        c@ == config_command(sub, stage, value),
{
    let c = [CMD_CONFIG, 0x00, 0x00, sub, 0x02, stage, value, 0x00, 0x00, 0x00, 0x00, 0x00, 0x00, 0x00, 0x00];
    assert(c@ =~= config_command(sub, stage, value));
    c
}

fn build_plain_command(code: u8) -> (c: [u8; 15])
    ensures
        c@ == plain_command(code),
{
    let c = [code, 0x00, 0x00, 0x00, 0x00, 0x00, 0x00, 0x00, 0x00, 0x00, 0x00, 0x00, 0x00, 0x00, 0x00];
    assert(c@ =~= plain_command(code));
    c
}

proof fn lemma_actions_push(s: Seq<DeviceAction>, a: DeviceAction)
    ensures
        actions_view(s.push(a)) == actions_view(s).push(a@),
{
    assert(actions_view(s.push(a)) =~= actions_view(s).push(a@));
}

/// Appends one action to `v`.
fn push_action(v: &mut Vec<DeviceAction>, a: DeviceAction)
    ensures
        actions_view(final(v)@) == actions_view(old(v)@).push(a@),
{
    let ghost v0 = v@;
    let ghost a0 = a;
    v.push(a);
    proof {
        lemma_actions_push(v0, a0);
    }
}

/// Appends `more` to `v`.
fn append_actions(v: &mut Vec<DeviceAction>, more: Vec<DeviceAction>)
    ensures
        actions_view(final(v)@) == actions_view(old(v)@) + actions_view(more@),
{
    let mut more = more;
    let ghost a = v@;
    let ghost b = more@;
    v.append(&mut more);
    assert(actions_view(v@) =~= actions_view(a) + actions_view(b));
}

/// The prepare/ready handshake, each command followed by a 50 ms pause.
fn send_prepare_sequence(device: &Device) -> (v: Vec<DeviceAction>)
    ensures
        actions_view(v@) == spec_prepare(),
{
    let prepare_cmd = build_plain_command(CMD_PREPARE);
    let mut v = device.send_command(&prepare_cmd, false);
    assert(actions_view(v@) =~= seq![write_command(plain_command(CMD_PREPARE))]);
    push_action(&mut v, DeviceAction::Sleep(50));
    assert(actions_view(v@) =~= seq![write_command(plain_command(CMD_PREPARE)), ActionModel::Sleep(50)]);
    let ready_cmd = build_plain_command(CMD_READY);
    let more = device.send_command(&ready_cmd, false);
    assert(actions_view(more@) =~= seq![write_command(plain_command(CMD_READY))]);
    append_actions(&mut v, more);
    push_action(&mut v, DeviceAction::Sleep(50));
    assert(actions_view(v@) =~= spec_prepare());
    v
}

/// Handshake followed by one configuration command.
fn send_configuration(device: &Device, sub: u8, stage: u8, value: u8) -> (v: Vec<DeviceAction>)
    ensures
        actions_view(v@) == spec_configure(sub, stage, value),
{
    let mut v = send_prepare_sequence(device);
    let command = build_config_command(sub, stage, value);
    append_actions(&mut v, device.send_command(&command, false));
    v
}

/// The firmware version read from the USB `bcdDevice` descriptor when the
/// device was opened.
pub fn get_firmware(device: &Device) -> (r: Result<String, ProtocolError>)
    ensures
        r matches Ok(v) && v@ == device.spec_firmware(),
{
    Ok(device.firmware_version().to_owned())
}

/// DPI of stage index `i` (0-based).
pub open spec fn stage_dpi(i: int) -> int {
    if i == 0 {
        400
    } else if i == 1 {
        800
    } else if i == 2 {
        1600
    } else if i == 3 {
        3200
    } else if i == 4 {
        6400
    } else {
        12800
    }
}

pub open spec fn dist(a: int, b: int) -> int {
    if a >= b {
        a - b
    } else {
        b - a
    }
}

/// Stage index `i` is the first among those nearest to `dpi`.
pub open spec fn is_nearest_stage(dpi: int, i: int) -> bool {
    &&& 0 <= i < 6
    &&& forall|j: int| 0 <= j < 6 ==> dist(dpi, stage_dpi(i)) <= dist(dpi, #[trigger] stage_dpi(j))
    &&& forall|j: int| 0 <= j < i ==> dist(dpi, #[trigger] stage_dpi(j)) > dist(dpi, stage_dpi(i))
}

pub open spec fn clamp_dpi(dpi: u16) -> int {
    if dpi < DPI_MIN {
        DPI_MIN as int
    } else if dpi > DPI_MAX {
        DPI_MAX as int
    } else {
        dpi as int
    }
}

/// The exchange that sets the DPI: the stage nearest to `dpi` (clamped to
/// 400-12800) is reprogrammed with its own DPI and then selected.
pub open spec fn spec_set_dpi(i: int) -> Seq<ActionModel> {
    spec_prepare() + spec_send_command(
        config_command(SUB_DPI_CONFIG, i as u8, ((stage_dpi(i) / 10) % 256) as u8),
        false,
    ) + seq![ActionModel::Sleep(50)] + spec_send_command(
        config_command(SUB_STAGE_SWITCH, i as u8, sub_from_55(i as u8)),
        false,
    )
}

proof fn lemma_stage_table()
    ensures
        forall|i: int| 0 <= i < 6 ==> #[trigger] DPI_STAGES@[i].0 == i && DPI_STAGES@[i].1 == stage_dpi(i),
{
    assert(DPI_STAGES@[0].1 == 400);
    assert(DPI_STAGES@[1].1 == 800);
    assert(DPI_STAGES@[2].1 == 1600);
    assert(DPI_STAGES@[3].1 == 3200);
    assert(DPI_STAGES@[4].1 == 6400);
    assert(DPI_STAGES@[5].1 == 12800);
}

/// Programs DPI stage `user_stage` (1-6) with `dpi` (400-12800), sent as
/// `dpi / 10` in one byte. Out-of-range arguments are refused and nothing
/// is sent.
pub fn configure_dpi_stage(device: &Device, user_stage: u8, dpi: u16) -> (r: Result<Vec<DeviceAction>, ProtocolError>)
    ensures
        r is Err <==> (!(1 <= user_stage <= 6) || !(DPI_MIN <= dpi <= DPI_MAX)),
        !(1 <= user_stage <= 6) ==> r == Err::<Vec<DeviceAction>, ProtocolError>(ProtocolError::StageOutOfRange),
        (1 <= user_stage <= 6 && !(DPI_MIN <= dpi <= DPI_MAX)) ==> r == Err::<Vec<DeviceAction>, ProtocolError>(ProtocolError::DpiOutOfRange),
        (1 <= user_stage <= 6 && DPI_MIN <= dpi <= DPI_MAX) ==> (r matches Ok(v) && actions_view(v@)
            == spec_send_command(config_command(SUB_DPI_CONFIG, (user_stage - 1) as u8, ((dpi / 10) % 256) as u8), false)),
{
    if !(1 <= user_stage && user_stage <= 6) {
        return Err(ProtocolError::StageOutOfRange);
    }
    if !(DPI_MIN <= dpi && dpi <= DPI_MAX) {
        return Err(ProtocolError::DpiOutOfRange);
    }
    let device_stage = user_stage - 1;
    let tenths: u16 = dpi / 10;
    let dpi_value: u8 = (tenths % 256) as u8;
    let command = build_config_command(SUB_DPI_CONFIG, device_stage, dpi_value);
    Ok(device.send_command(&command, false))
}

/// Makes DPI stage `user_stage` (1-6) the active one.
pub fn switch_to_dpi_stage(device: &Device, user_stage: u8) -> (r: Result<Vec<DeviceAction>, ProtocolError>)
    ensures
        !(1 <= user_stage <= 6) ==> r == Err::<Vec<DeviceAction>, ProtocolError>(ProtocolError::StageOutOfRange),
        (1 <= user_stage <= 6) ==> (r matches Ok(v) && actions_view(v@) == spec_send_command(
            config_command(SUB_STAGE_SWITCH, (user_stage - 1) as u8, sub_from_55((user_stage - 1) as u8)),
            false,
        )),
{
    if !(1 <= user_stage && user_stage <= 6) {
        return Err(ProtocolError::StageOutOfRange);
    }
    let device_stage = user_stage - 1;
    let value = 0x55u8.wrapping_sub(device_stage);
    let command = build_config_command(SUB_STAGE_SWITCH, device_stage, value);
    Ok(device.send_command(&command, false))
}

/// Sets the DPI: `dpi` is clamped to 400-12800, the nearest of the six
/// stages (the lower one on a tie) is programmed with its own DPI and
/// selected.
pub fn set_dpi(device: &Device, dpi: u16) -> (v: Vec<DeviceAction>)
    ensures
        exists|i: int| is_nearest_stage(clamp_dpi(dpi), i) && actions_view(v@) == spec_set_dpi(i),
{
    let clamped = if dpi < DPI_MIN {
        DPI_MIN
    } else if dpi > DPI_MAX {
        DPI_MAX
    } else {
        dpi
    };
    proof {
        lemma_stage_table();
    }
    let mut closest_stage: u8 = 1;
    let mut closest_dpi: u16 = DPI_STAGES[0].1;
    let mut min_diff: i32 = if clamped >= closest_dpi {
        (clamped - closest_dpi) as i32
    } else {
        (closest_dpi - clamped) as i32
    };
    let mut idx: usize = 0;
    while idx < 6
        invariant
            DPI_MIN <= clamped <= DPI_MAX,
            idx <= 6,
            1 <= closest_stage <= 6,
            closest_stage <= idx || (idx == 0 && closest_stage == 1),
            closest_dpi == stage_dpi(closest_stage - 1),
            min_diff == dist(clamped as int, stage_dpi(closest_stage - 1)),
            forall|j: int| 0 <= j < idx ==> min_diff <= dist(clamped as int, #[trigger] stage_dpi(j)),
            forall|j: int| 0 <= j < closest_stage - 1 ==> dist(clamped as int, #[trigger] stage_dpi(j)) > min_diff,
            forall|i: int| 0 <= i < 6 ==> #[trigger] DPI_STAGES@[i].0 == i && DPI_STAGES@[i].1 == stage_dpi(i),
        decreases 6 - idx,
    {
        let stage_value = DPI_STAGES[idx].1;
        let diff: i32 = if clamped >= stage_value {
            (clamped - stage_value) as i32
        } else {
            (stage_value - clamped) as i32
        };
        if diff < min_diff {
            min_diff = diff;
            closest_stage = (idx + 1) as u8;
            closest_dpi = stage_value;
        }
        idx = idx + 1;
    }
    let ghost i = closest_stage - 1;
    assert(is_nearest_stage(clamped as int, i));
    let mut v = send_prepare_sequence(device);
    match configure_dpi_stage(device, closest_stage, closest_dpi) {
        Ok(more) => append_actions(&mut v, more),
        Err(_) => {
            assert(false);
        },
    }
    push_action(&mut v, DeviceAction::Sleep(50));
    match switch_to_dpi_stage(device, closest_stage) {
        Ok(more) => append_actions(&mut v, more),
        Err(_) => {
            assert(false);
        },
    }
    assert(actions_view(v@) =~= spec_set_dpi(i));
    v
}

/// Sets the report rate.
pub fn set_polling_rate(device: &Device, rate: PollingRate) -> (v: Vec<DeviceAction>)
    ensures
        actions_view(v@) == spec_configure(SUB_POLLING_RATE, rate.spec_byte(), sub_from_55(rate.spec_byte())),
{
    let rate_byte = rate.to_byte();
    let value = 0x55u8.wrapping_sub(rate_byte);
    send_configuration(device, SUB_POLLING_RATE, rate_byte, value)
}

/// Sets the lift-off distance.
pub fn set_lod(device: &Device, lod: LiftOffDistance) -> (v: Vec<DeviceAction>)
    ensures
        actions_view(v@) == spec_configure(SUB_LOD, lod.spec_device_values().0, lod.spec_device_values().1),
{
    let (stage, value) = lod.to_device_values();
    send_configuration(device, SUB_LOD, stage, value)
}

/// Sets the click debounce time; only 0-20 ms are accepted.
pub fn set_debounce(device: &Device, milliseconds: u8) -> (r: Result<Vec<DeviceAction>, ProtocolError>)
    ensures
        milliseconds > 20 ==> r == Err::<Vec<DeviceAction>, ProtocolError>(ProtocolError::DebounceOutOfRange),
        milliseconds <= 20 ==> (r matches Ok(v) && actions_view(v@) == spec_configure(
            SUB_DEBOUNCE,
            milliseconds,
            sub_from_55(milliseconds),
        )),
{
    if milliseconds > 20 {
        return Err(ProtocolError::DebounceOutOfRange);
    }
    let value = 0x55u8.wrapping_sub(milliseconds);
    Ok(send_configuration(device, SUB_DEBOUNCE, milliseconds, value))
}

/// The (stage, value) bytes of an on/off feature.
pub open spec fn toggle_values(enabled: bool) -> (u8, u8) {
    if enabled {
        (0x01, 0x54)
    } else {
        (0x00, 0x55)
    }
}

/// Switches an on/off feature.
fn set_toggle_feature(device: &Device, feature: u8, enabled: bool) -> (v: Vec<DeviceAction>)
    ensures
        actions_view(v@) == spec_configure(feature, toggle_values(enabled).0, toggle_values(enabled).1),
{
    let (stage, value) = if enabled {
        (0x01u8, 0x54u8)
    } else {
        (0x00u8, 0x55u8)
    };
    send_configuration(device, feature, stage, value)
}

pub fn set_angle_snap(device: &Device, enabled: bool) -> (v: Vec<DeviceAction>)
    ensures
        actions_view(v@) == spec_configure(SUB_ANGLE_SNAP, toggle_values(enabled).0, toggle_values(enabled).1),
{
    set_toggle_feature(device, SUB_ANGLE_SNAP, enabled)
}

pub fn set_ripple_control(device: &Device, enabled: bool) -> (v: Vec<DeviceAction>)
    ensures
        actions_view(v@) == spec_configure(SUB_RIPPLE, toggle_values(enabled).0, toggle_values(enabled).1),
{
    set_toggle_feature(device, SUB_RIPPLE, enabled)
}

pub fn set_turbo_mode(device: &Device, enabled: bool) -> (v: Vec<DeviceAction>)
    ensures
        actions_view(v@) == spec_configure(SUB_TURBO, toggle_values(enabled).0, toggle_values(enabled).1),
{
    set_toggle_feature(device, SUB_TURBO, enabled)
}

pub fn set_motion_sync(device: &Device, enabled: bool) -> (v: Vec<DeviceAction>)
    ensures
        actions_view(v@) == spec_configure(SUB_MOTION_SYNC, toggle_values(enabled).0, toggle_values(enabled).1),
{
    set_toggle_feature(device, SUB_MOTION_SYNC, enabled)
}

/// The stage query command.
pub open spec fn stage_query_command() -> Seq<u8> {
    seq![CMD_QUERY_STAGE, 0x00, 0x00, 0x04, 0x01] + zeros(10)
}

/// The exchange that asks for the active DPI stage; its last read is the
/// reply that `query_current_stage` and `query_current_dpi` decode.
pub fn stage_query(device: &Device) -> (v: Vec<DeviceAction>)
    ensures
        actions_view(v@) == spec_send_command(stage_query_command(), true),
{
    let command = [CMD_QUERY_STAGE, 0x00, 0x00, 0x04, 0x01, 0x00, 0x00, 0x00, 0x00, 0x00, 0x00, 0x00, 0x00, 0x00, 0x00];
    assert(command@ =~= stage_query_command());
    device.send_command(&command, true)
}

/// The active stage (1-6) from the reply to `stage_query`: byte 6 holds the
/// 0-based stage.
pub fn query_current_stage(response: &[u8]) -> (r: Result<u8, ProtocolError>)
    requires
        response@.len() >= 7 ==> response@[6] < 255,
    ensures
        response@.len() < 7 ==> r == Err::<u8, ProtocolError>(ProtocolError::InvalidStageResponse),
        response@.len() >= 7 ==> r == Ok::<u8, ProtocolError>((response@[6] + 1) as u8),
{
    if response.len() < 7 {
        return Err(ProtocolError::InvalidStageResponse);
    }
    let device_stage = response[6];
    Ok(device_stage + 1)
}

/// The DPI of the active stage from the reply to `stage_query`.
pub fn query_current_dpi(response: &[u8]) -> (r: Result<u16, ProtocolError>)
    requires
        response@.len() >= 7 ==> response@[6] < 6,
    ensures
        response@.len() < 7 ==> r == Err::<u16, ProtocolError>(ProtocolError::InvalidStageResponse),
        response@.len() >= 7 ==> r == Ok::<u16, ProtocolError>(stage_dpi(response@[6] as int) as u16),
{
    let stage = query_current_stage(response)?;
    proof {
        lemma_stage_table();
    }
    Ok(DPI_STAGES[(stage - 1) as usize].1)
}


pub const CMD01_PACKET_A: [u8; 17] = [
    0x08, 0x01, 0x00, 0x00, 0x08, 0x8e, 0x0c, 0x4d, 0x4c, 0x00, 0x00, 0x00, 0x00, 0x00, 0x00, 0x00,
    0x11,
];
pub const CMD01_PACKET_B: [u8; 17] = [
    0x08, 0x01, 0x00, 0x00, 0x08, 0x95, 0x05, 0xdd, 0x4b, 0x00, 0x00, 0x00, 0x00, 0x00, 0x00, 0x00,
    0x82,
];
pub const CMD02_PACKET: [u8; 17] = [
    0x08, 0x02, 0x00, 0x00, 0x01, 0x01, 0x00, 0x00, 0x00, 0x00, 0x00, 0x00, 0x00, 0x00, 0x00, 0x00,
    0x49,
];
pub const CMD03_PACKET: [u8; 17] = [
    0x08, 0x03, 0x00, 0x00, 0x00, 0x00, 0x00, 0x00, 0x00, 0x00, 0x00, 0x00, 0x00, 0x00, 0x00, 0x00,
    0x4A,
];
pub const CMD04_PACKET: [u8; 17] = [
    0x08, 0x04, 0x00, 0x00, 0x00, 0x00, 0x00, 0x00, 0x00, 0x00, 0x00, 0x00, 0x00, 0x00, 0x00, 0x00,
    0x49,
];

/// Number of packets in the wake-up sequence sent when the battery query
/// gets no answer.
pub const INIT_SEQUENCE_LEN: usize = 18;

/// Packet `i` of the wake-up sequence.
pub open spec fn spec_init_packet(i: int) -> Seq<u8> {
    if i == 0 || i == 4 || i == 7 {
        CMD01_PACKET_A@
    } else if i == 9 {
        CMD01_PACKET_B@
    } else if i == 13 {
        CMD02_PACKET@
    } else if i == 16 || i == 17 {
        CMD04_PACKET@
    } else {
        CMD03_PACKET@
    }
}

/// Packet `i` of the wake-up sequence.
pub fn init_packet(i: usize) -> (p: [u8; 17])
    requires
        i < INIT_SEQUENCE_LEN,
    ensures
        p@ == spec_init_packet(i as int),
{
    if i == 0 || i == 4 || i == 7 {
        CMD01_PACKET_A
    } else if i == 9 {
        CMD01_PACKET_B
    } else if i == 13 {
        CMD02_PACKET
    } else if i == 16 || i == 17 {
        CMD04_PACKET
    } else {
        CMD03_PACKET
    }
}

/// How long the first battery query waits for its answer.
pub const PROBE_TIMEOUT_MS: u64 = 800;
/// How long the query after the wake-up sequence waits for its answer.
pub const WAKE_TIMEOUT_MS: u64 = 2000;
/// Each read waits at most this long.
pub const READ_SLICE_MS: i32 = 250;
/// Pause after each packet of the wake-up sequence.
pub const INIT_PAUSE_MS: u64 = 10;
/// Latest clock value an event may carry, so that deadlines stay representable.
pub const MAX_EVENT_CLOCK_MS: u64 = 0xffff_ffff_ffff_f000;

/// Why a battery read produced no status.
#[derive(Debug, Clone, Copy, PartialEq, Eq, Structural)]
pub enum BatteryReadError {
    /// The mouse answered neither the query nor the query after the wake-up
    /// sequence in time: it is asleep.
    Asleep,
    /// A write to the device failed, or the exchange was broken off.
    Io,
}

/// What the caller observed when it performed the last action.
#[derive(Debug, Clone)]
pub enum DeviceEvent {
    /// The input reports were drained.
    Drained,
    /// The report was written; `now_ms` is the caller's monotonic clock.
    Written { now_ms: u64 },
    /// The write failed.
    WriteFailed,
    /// A report arrived.
    Received { data: Vec<u8>, now_ms: u64 },
    /// The read failed or timed out.
    ReadFailed { now_ms: u64 },
    /// The pause is over.
    Slept { now_ms: u64 },
}

pub enum EventModel {
    Drained,
    Written { now_ms: u64 },
    WriteFailed,
    Received { data: Seq<u8>, now_ms: u64 },
    ReadFailed { now_ms: u64 },
    Slept { now_ms: u64 },
}

impl View for DeviceEvent {
    type V = EventModel;

    open spec fn view(&self) -> EventModel {
        match self {
            DeviceEvent::Drained => EventModel::Drained,
            DeviceEvent::Written { now_ms } => EventModel::Written { now_ms: *now_ms },
            DeviceEvent::WriteFailed => EventModel::WriteFailed,
            DeviceEvent::Received { data, now_ms } => EventModel::Received { data: data@, now_ms: *now_ms },
            DeviceEvent::ReadFailed { now_ms } => EventModel::ReadFailed { now_ms: *now_ms },
            DeviceEvent::Slept { now_ms } => EventModel::Slept { now_ms: *now_ms },
        }
    }
}

/// Where a battery read stands.
#[derive(Debug, Clone, Copy, PartialEq, Eq, Structural)]
pub enum BatteryPhase {
    /// Waiting for pending input to be drained.
    Draining,
    /// The battery query is being written.
    Probing,
    /// Waiting for the answer to the query until `deadline`.
    AwaitProbe { deadline: u64 },
    /// Packet `next` of the wake-up sequence is being written.
    Waking { next: usize },
    /// Pausing after packet `next` of the wake-up sequence.
    WakePause { next: usize },
    /// Waiting for the answer after the wake-up sequence until `deadline`.
    AwaitWake { deadline: u64 },
    /// The read is over.
    Finished,
}

/// The next thing a battery read asks of its caller.
#[derive(Debug)]
pub enum BatteryStep {
    /// Perform this action and report what happened.
    Perform(DeviceAction),
    /// The read is over with this result.
    Finish(Result<MouseStatus, BatteryReadError>),
}

pub enum StepModel {
    Perform(ActionModel),
    Finish(Result<MouseStatus, BatteryReadError>),
}

impl View for BatteryStep {
    type V = StepModel;

    open spec fn view(&self) -> StepModel {
        match self {
            BatteryStep::Perform(a) => StepModel::Perform(a@),
            BatteryStep::Finish(r) => StepModel::Finish(*r),
        }
    }
}

/// A report answering command `expected`: at least 7 bytes, report id 0x08,
/// command byte `expected`.
pub open spec fn is_reply(data: Seq<u8>, expected: u8) -> bool {
    data.len() >= 7 && data[0] == 0x08 && data[1] == expected
}

/// The status in a battery reply: byte 6 is the level, byte 7 the charging flag.
pub open spec fn status_of(data: Seq<u8>) -> MouseStatus {
    MouseStatus { battery_level: data[6], is_charging: data[7] != 0 }
}

/// The clock an event carries, 0 for those without one.
pub open spec fn event_clock(e: EventModel) -> u64 {
    match e {
        EventModel::Written { now_ms } => now_ms,
        EventModel::Received { now_ms, .. } => now_ms,
        EventModel::ReadFailed { now_ms } => now_ms,
        EventModel::Slept { now_ms } => now_ms,
        _ => 0,
    }
}

/// The events a battery read can take: clocks leave room for the longest
/// deadline, and no battery reply stops short of its charging byte.
pub open spec fn battery_event_ok(e: EventModel) -> bool {
    &&& event_clock(e) <= MAX_EVENT_CLOCK_MS
    &&& (e matches EventModel::Received { data, .. } ==> !(is_reply(data, 0x04) && data.len() == 7))
}

pub open spec fn fail_io() -> (BatteryPhase, StepModel) {
    (BatteryPhase::Finished, StepModel::Finish(Err(BatteryReadError::Io)))
}

/// While waiting for an answer until `deadline`: a battery reply ends the
/// read with its status; otherwise the read is repeated while the clock is
/// before the deadline, and once it is not, `on_timeout` follows.
pub open spec fn await_step(
    phase: BatteryPhase,
    deadline: u64,
    e: EventModel,
    on_timeout: (BatteryPhase, StepModel),
) -> (BatteryPhase, StepModel) {
    match e {
        EventModel::Received { data, now_ms } => {
            if is_reply(data, 0x04) {
                (BatteryPhase::Finished, StepModel::Finish(Ok(status_of(data))))
            } else if now_ms < deadline {
                (phase, StepModel::Perform(ActionModel::Read(READ_SLICE_MS)))
            } else {
                on_timeout
            }
        },
        EventModel::ReadFailed { now_ms } => {
            if now_ms < deadline {
                (phase, StepModel::Perform(ActionModel::Read(READ_SLICE_MS)))
            } else {
                on_timeout
            }
        },
        _ => fail_io(),
    }
}

/// No battery reply arrived and the deadline has passed.
pub open spec fn timed_out(deadline: u64, e: EventModel) -> bool {
    match e {
        EventModel::Received { data, now_ms } => !is_reply(data, 0x04) && now_ms >= deadline,
        EventModel::ReadFailed { now_ms } => now_ms >= deadline,
        _ => false,
    }
}

/// One transition of a battery read.
pub open spec fn spec_battery_step(phase: BatteryPhase, e: EventModel) -> (BatteryPhase, StepModel) {
    match phase {
        BatteryPhase::Draining => match e {
            EventModel::Drained => (
                BatteryPhase::Probing,
                StepModel::Perform(ActionModel::Write(spec_report(CMD04_PACKET@))),
            ),
            _ => fail_io(),
        },
        BatteryPhase::Probing => match e {
            EventModel::Written { now_ms } => (
                BatteryPhase::AwaitProbe { deadline: (now_ms + PROBE_TIMEOUT_MS) as u64 },
                StepModel::Perform(ActionModel::Read(READ_SLICE_MS)),
            ),
            _ => fail_io(),
        },
        BatteryPhase::AwaitProbe { deadline } => await_step(
            phase,
            deadline,
            e,
            (
                BatteryPhase::Waking { next: 0 },
                StepModel::Perform(ActionModel::Write(spec_report(spec_init_packet(0)))),
            ),
        ),
        BatteryPhase::Waking { next } => match e {
            EventModel::Written { .. } => (
                BatteryPhase::WakePause { next },
                StepModel::Perform(ActionModel::Sleep(INIT_PAUSE_MS)),
            ),
            _ => fail_io(),
        },
        BatteryPhase::WakePause { next } => match e {
            EventModel::Slept { now_ms } => if next + 1 < INIT_SEQUENCE_LEN {
                (
                    BatteryPhase::Waking { next: (next + 1) as usize },
                    StepModel::Perform(ActionModel::Write(spec_report(spec_init_packet(next + 1)))),
                )
            } else {
                (
                    BatteryPhase::AwaitWake { deadline: (now_ms + WAKE_TIMEOUT_MS) as u64 },
                    StepModel::Perform(ActionModel::Read(READ_SLICE_MS)),
                )
            },
            _ => fail_io(),
        },
        BatteryPhase::AwaitWake { deadline } => await_step(
            phase,
            deadline,
            e,
            (BatteryPhase::Finished, StepModel::Finish(Err(BatteryReadError::Asleep))),
        ),
        BatteryPhase::Finished => fail_io(),
    }
}

/// A battery read in progress: the query, and when the mouse does not
/// answer, the wake-up sequence and a second query.
#[derive(Debug)]
pub struct BatteryRead {
    phase: BatteryPhase,
}

impl BatteryRead {
    #[verifier::type_invariant]
    spec fn wf(self) -> bool {
        &&& (self.phase matches BatteryPhase::Waking { next } ==> next < INIT_SEQUENCE_LEN)
        &&& (self.phase matches BatteryPhase::WakePause { next } ==> next < INIT_SEQUENCE_LEN)
    }

    pub closed spec fn spec_phase(self) -> BatteryPhase {
        self.phase
    }

    /// Where the read stands.
    pub fn phase(&self) -> (p: BatteryPhase)
        ensures
            p == self.spec_phase(),
    {
        self.phase
    }

    /// Feeds what happened to the last action and returns what to do next.
    /// An event that does not answer the pending action ends the read
    /// with `BatteryReadError::Io`.
    pub fn step(&mut self, device: &Device, event: DeviceEvent) -> (r: BatteryStep)
        requires
            battery_event_ok(event@),
        ensures
            (final(self).spec_phase(), r@) == spec_battery_step(old(self).spec_phase(), event@),
    {
        proof {
            use_type_invariant(&*self);
        }
        let ghost e = event@;
        match self.phase {
            BatteryPhase::Draining => match event {
                DeviceEvent::Drained => {
                    self.phase = BatteryPhase::Probing;
                    BatteryStep::Perform(device.write_output(&CMD04_PACKET))
                },
                _ => self.fail(),
            },
            BatteryPhase::Probing => match event {
                DeviceEvent::Written { now_ms } => {
                    self.phase = BatteryPhase::AwaitProbe { deadline: now_ms + PROBE_TIMEOUT_MS };
                    BatteryStep::Perform(device.read_interrupt(READ_SLICE_MS))
                },
                _ => self.fail(),
            },
            BatteryPhase::AwaitProbe { deadline } => {
                match self.await_reply(device, deadline, event) {
                    Some(step) => step,
                    None => {
                        self.phase = BatteryPhase::Waking { next: 0 };
                        BatteryStep::Perform(device.write_output(&init_packet(0)))
                    },
                }
            },
            BatteryPhase::Waking { next } => match event {
                DeviceEvent::Written { .. } => {
                    self.phase = BatteryPhase::WakePause { next };
                    BatteryStep::Perform(DeviceAction::Sleep(INIT_PAUSE_MS))
                },
                _ => self.fail(),
            },
            BatteryPhase::WakePause { next } => match event {
                DeviceEvent::Slept { now_ms } => {
                    if next + 1 < INIT_SEQUENCE_LEN {
                        self.phase = BatteryPhase::Waking { next: next + 1 };
                        BatteryStep::Perform(device.write_output(&init_packet(next + 1)))
                    } else {
                        self.phase = BatteryPhase::AwaitWake { deadline: now_ms + WAKE_TIMEOUT_MS };
                        BatteryStep::Perform(device.read_interrupt(READ_SLICE_MS))
                    }
                },
                _ => self.fail(),
            },
            BatteryPhase::AwaitWake { deadline } => {
                match self.await_reply(device, deadline, event) {
                    Some(step) => step,
                    None => {
                        self.phase = BatteryPhase::Finished;
                        BatteryStep::Finish(Err(BatteryReadError::Asleep))
                    },
                }
            },
            BatteryPhase::Finished => self.fail(),
        }
    }

    fn fail(&mut self) -> (r: BatteryStep)
        ensures
            (final(self).spec_phase(), r@) == fail_io(),
    {
        self.phase = BatteryPhase::Finished;
        BatteryStep::Finish(Err(BatteryReadError::Io))
    }

    /// The waiting part of `step`; `None` when the deadline has passed.
    fn await_reply(&mut self, device: &Device, deadline: u64, event: DeviceEvent) -> (r: Option<BatteryStep>)
        requires
            battery_event_ok(event@),
        ensures
            r is None <==> timed_out(deadline, event@),
            r is None ==> *final(self) == *old(self),
            r matches Some(step) ==> (final(self).spec_phase(), step@) == await_step(
                old(self).spec_phase(),
                deadline,
                event@,
                fail_io(),
            ),
    {
        match event {
            DeviceEvent::Received { data, now_ms } => {
                if data.len() >= 7 && data[0] == 0x08 && data[1] == 0x04 {
                    self.phase = BatteryPhase::Finished;
                    Some(BatteryStep::Finish(Ok(MouseStatus { battery_level: data[6], is_charging: data[7] != 0 })))
                } else if now_ms < deadline {
                    Some(BatteryStep::Perform(device.read_interrupt(READ_SLICE_MS)))
                } else {
                    None
                }
            },
            DeviceEvent::ReadFailed { now_ms } => {
                if now_ms < deadline {
                    Some(BatteryStep::Perform(device.read_interrupt(READ_SLICE_MS)))
                } else {
                    None
                }
            },
            _ => Some(self.fail()),
        }
    }
}

/// Starts a battery read: pending input is drained first.
pub fn get_mouse_battery(device: &Device) -> (r: (BatteryRead, DeviceAction))
    ensures
        r.0.spec_phase() == BatteryPhase::Draining,
        r.1@ == ActionModel::Drain(6),
{
    (BatteryRead { phase: BatteryPhase::Draining }, device.drain_input(6))
}


/// Setting a preset DPI selects exactly that preset's stage.
pub proof fn law_preset_dpi_selects_its_stage(j: int)
    requires
        0 <= j < 6,
    ensures
        clamp_dpi(stage_dpi(j) as u16) == stage_dpi(j),
        is_nearest_stage(clamp_dpi(stage_dpi(j) as u16), j),
        forall|i: int| #[trigger] is_nearest_stage(clamp_dpi(stage_dpi(j) as u16), i) ==> i == j,
{
    assert(dist(stage_dpi(j), stage_dpi(j)) == 0);
    assert forall|i: int| #[trigger] is_nearest_stage(clamp_dpi(stage_dpi(j) as u16), i) implies i == j by {
        assert(dist(stage_dpi(j), stage_dpi(i)) <= dist(stage_dpi(j), stage_dpi(j)));
    }
}

/// The stage `set_dpi` picks is determined by the DPI: no two stages are
/// both the first nearest one.
pub proof fn law_nearest_stage_unique(dpi: int, i: int, k: int)
    requires
        is_nearest_stage(dpi, i),
        is_nearest_stage(dpi, k),
    ensures
        i == k,
{
    if i < k {
        assert(dist(dpi, stage_dpi(i)) > dist(dpi, stage_dpi(k)));
        assert(dist(dpi, stage_dpi(k)) <= dist(dpi, stage_dpi(i)));
    } else if k < i {
        assert(dist(dpi, stage_dpi(k)) > dist(dpi, stage_dpi(i)));
        assert(dist(dpi, stage_dpi(i)) <= dist(dpi, stage_dpi(k)));
    }
}

/// What a sequence of events does to a battery read: the final phase and
/// the steps asked for along the way.
pub open spec fn run_battery(phase: BatteryPhase, events: Seq<EventModel>) -> (BatteryPhase, Seq<StepModel>)
    decreases events.len(),
{
    if events.len() == 0 {
        (phase, Seq::empty())
    } else {
        let first = spec_battery_step(phase, events[0]);
        let rest = run_battery(first.0, events.drop_first());
        (rest.0, seq![first.1] + rest.1)
    }
}

/// A battery reply ends a read that is waiting for one, with the status it
/// carries, whether the mouse answered the first query or the one after the
/// wake-up sequence.
pub proof fn law_reply_ends_read(deadline: u64, data: Seq<u8>, now_ms: u64)
    requires
        is_reply(data, 0x04),
        data.len() >= 8,
    ensures
        spec_battery_step(BatteryPhase::AwaitProbe { deadline }, EventModel::Received { data, now_ms })
            == (BatteryPhase::Finished, StepModel::Finish(Ok(status_of(data)))),
        spec_battery_step(BatteryPhase::AwaitWake { deadline }, EventModel::Received { data, now_ms })
            == (BatteryPhase::Finished, StepModel::Finish(Ok(status_of(data)))),
{
}

/// `n` rounds of "written, then slept", all at clock `t`.
pub open spec fn wake_events(n: nat, t: u64) -> Seq<EventModel>
    decreases n,
{
    if n == 0 {
        Seq::empty()
    } else {
        seq![EventModel::Written { now_ms: t }, EventModel::Slept { now_ms: t }] + wake_events((n - 1) as nat, t)
    }
}

/// The steps from packet `k` of the wake-up sequence on: a 10 ms pause
/// after each packet, then the next packet, and after the last one a read.
pub open spec fn wake_steps(k: nat) -> Seq<StepModel>
    decreases INIT_SEQUENCE_LEN - k,
{
    if k + 1 < INIT_SEQUENCE_LEN {
        seq![
            StepModel::Perform(ActionModel::Sleep(INIT_PAUSE_MS)),
            StepModel::Perform(ActionModel::Write(spec_report(spec_init_packet((k + 1) as int)))),
        ] + wake_steps(k + 1)
    } else {
        seq![
            StepModel::Perform(ActionModel::Sleep(INIT_PAUSE_MS)),
            StepModel::Perform(ActionModel::Read(READ_SLICE_MS)),
        ]
    }
}

proof fn lemma_wake_from(k: nat, t: u64)
    requires
        k < INIT_SEQUENCE_LEN,
        t <= MAX_EVENT_CLOCK_MS,
    ensures
        run_battery(BatteryPhase::Waking { next: k as usize }, wake_events((INIT_SEQUENCE_LEN - k) as nat, t))
            == (BatteryPhase::AwaitWake { deadline: (t + WAKE_TIMEOUT_MS) as u64 }, wake_steps(k)),
    decreases INIT_SEQUENCE_LEN - k,
{
    let n = (INIT_SEQUENCE_LEN - k) as nat;
    let ev = wake_events(n, t);
    let rest = wake_events((n - 1) as nat, t);
    assert(ev == seq![EventModel::Written { now_ms: t }, EventModel::Slept { now_ms: t }] + rest);
    assert(ev[0] == EventModel::Written { now_ms: t });
    assert(ev.drop_first() =~= seq![EventModel::Slept { now_ms: t }] + rest);
    let ev1 = ev.drop_first();
    assert(ev1[0] == EventModel::Slept { now_ms: t });
    assert(ev1.drop_first() =~= rest);
    let p1 = spec_battery_step(BatteryPhase::WakePause { next: k as usize }, EventModel::Slept { now_ms: t });
    let r1 = run_battery(BatteryPhase::WakePause { next: k as usize }, ev1);
    let r2 = run_battery(p1.0, rest);
    assert(r1 == (r2.0, seq![p1.1] + r2.1));
    let r0 = run_battery(BatteryPhase::Waking { next: k as usize }, ev);
    assert(r0 == (r1.0, seq![StepModel::Perform(ActionModel::Sleep(INIT_PAUSE_MS))] + r1.1));
    if k + 1 < INIT_SEQUENCE_LEN {
        lemma_wake_from(k + 1, t);
        assert(p1.0 == BatteryPhase::Waking { next: (k + 1) as usize });
        assert(rest == wake_events((INIT_SEQUENCE_LEN - (k + 1)) as nat, t));
    } else {
        assert(rest == Seq::<EventModel>::empty());
        assert(r2 == (p1.0, Seq::<StepModel>::empty()));
    }
    assert(r0.1 =~= wake_steps(k));
}

/// When the mouse does not answer the battery query in time, the read
/// writes the wake-up sequence: all 18 packets in order, each followed by a
/// 10 ms pause, and then waits `WAKE_TIMEOUT_MS` for the answer.
pub proof fn law_wake_up_sequence(deadline: u64, t: u64)
    requires
        deadline <= t <= MAX_EVENT_CLOCK_MS,
    ensures
        run_battery(
            BatteryPhase::AwaitProbe { deadline },
            seq![EventModel::ReadFailed { now_ms: t }] + wake_events(INIT_SEQUENCE_LEN as nat, t),
        ) == (
            BatteryPhase::AwaitWake { deadline: (t + WAKE_TIMEOUT_MS) as u64 },
            seq![StepModel::Perform(ActionModel::Write(spec_report(spec_init_packet(0))))] + wake_steps(0),
        ),
{
    let ev = seq![EventModel::ReadFailed { now_ms: t }] + wake_events(INIT_SEQUENCE_LEN as nat, t);
    assert(ev[0] == EventModel::ReadFailed { now_ms: t });
    assert(ev.drop_first() =~= wake_events(INIT_SEQUENCE_LEN as nat, t));
    lemma_wake_from(0, t);
}

/// The exchange that switches an on/off feature, byte by byte: the prepare
/// command 0x03 and the ready command 0x04, each followed by a 50 ms pause,
/// then the configuration command 0x07 for `feature` with stage and value
/// (0x01, 0x54) to enable or (0x00, 0x55) to disable; every command padded
/// to 15 bytes with zeros and sent without reading a reply. Angle snap,
/// ripple control, turbo mode and motion sync are features 0xaf, 0xb1,
/// 0xb5 and 0xab.
pub proof fn law_toggle_exchange(feature: u8, enabled: bool)
    ensures
        ({
            let (stage, value): (u8, u8) = if enabled {
                (0x01, 0x54)
            } else {
                (0x00, 0x55)
            };
            spec_configure(feature, toggle_values(enabled).0, toggle_values(enabled).1) == seq![
                write_command(seq![0x03u8] + zeros(14)),
                ActionModel::Sleep(50),
                write_command(seq![0x04u8] + zeros(14)),
                ActionModel::Sleep(50),
                write_command(seq![0x07u8, 0x00, 0x00, feature, 0x02, stage, value] + zeros(8)),
            ]
        }),
        SUB_ANGLE_SNAP == 0xaf && SUB_RIPPLE == 0xb1 && SUB_TURBO == 0xb5 && SUB_MOTION_SYNC == 0xab,
{
    assert(spec_configure(feature, toggle_values(enabled).0, toggle_values(enabled).1) =~= seq![
        write_command(plain_command(CMD_PREPARE)),
        ActionModel::Sleep(50),
        write_command(plain_command(CMD_READY)),
        ActionModel::Sleep(50),
        write_command(config_command(feature, toggle_values(enabled).0, toggle_values(enabled).1)),
    ]);
}

/// The command that programs a DPI stage, byte by byte: 0x07, 0, 0, the
/// sub-command 0x0a, 0x02, the zero-based stage, `dpi / 10` truncated to a
/// byte, then zeros up to 15 bytes.
pub proof fn law_dpi_stage_command(user_stage: u8, dpi: u16)
    requires
        1 <= user_stage <= 6,
        DPI_MIN <= dpi <= DPI_MAX,
    ensures
        config_command(SUB_DPI_CONFIG, (user_stage - 1) as u8, ((dpi / 10) % 256) as u8) == seq![
            0x07u8,
            0x00,
            0x00,
            0x0a,
            0x02,
            (user_stage - 1) as u8,
            ((dpi / 10) % 256) as u8,
        ] + zeros(8),
{
}

/// The wake-up sequence, packet by packet, as the bytes written: CMD01
/// (A), three CMD03, CMD01 (A), two CMD03, CMD01 (A), CMD03, CMD01 (B),
/// three CMD03, CMD02, two CMD03, and two CMD04.
pub proof fn law_wake_up_packets()
    ensures
        ({
            let a: Seq<u8> = seq![0x08u8, 0x01, 0x00, 0x00, 0x08, 0x8e, 0x0c, 0x4d, 0x4c, 0x00, 0x00, 0x00, 0x00, 0x00, 0x00, 0x00, 0x11];
            let b: Seq<u8> = seq![0x08u8, 0x01, 0x00, 0x00, 0x08, 0x95, 0x05, 0xdd, 0x4b, 0x00, 0x00, 0x00, 0x00, 0x00, 0x00, 0x00, 0x82];
            let c2: Seq<u8> = seq![0x08u8, 0x02, 0x00, 0x00, 0x01, 0x01, 0x00, 0x00, 0x00, 0x00, 0x00, 0x00, 0x00, 0x00, 0x00, 0x00, 0x49];
            let c3: Seq<u8> = seq![0x08u8, 0x03, 0x00, 0x00, 0x00, 0x00, 0x00, 0x00, 0x00, 0x00, 0x00, 0x00, 0x00, 0x00, 0x00, 0x00, 0x4a];
            let c4: Seq<u8> = seq![0x08u8, 0x04, 0x00, 0x00, 0x00, 0x00, 0x00, 0x00, 0x00, 0x00, 0x00, 0x00, 0x00, 0x00, 0x00, 0x00, 0x49];
            Seq::new(INIT_SEQUENCE_LEN as nat, |i: int| spec_init_packet(i)) == seq![
                a, c3, c3, c3, a, c3, c3, a, c3, b, c3, c3, c3, c2, c3, c3, c4, c4,
            ]
        }),
{
    let a: Seq<u8> = seq![0x08u8, 0x01, 0x00, 0x00, 0x08, 0x8e, 0x0c, 0x4d, 0x4c, 0x00, 0x00, 0x00, 0x00, 0x00, 0x00, 0x00, 0x11];
    let b: Seq<u8> = seq![0x08u8, 0x01, 0x00, 0x00, 0x08, 0x95, 0x05, 0xdd, 0x4b, 0x00, 0x00, 0x00, 0x00, 0x00, 0x00, 0x00, 0x82];
    let c2: Seq<u8> = seq![0x08u8, 0x02, 0x00, 0x00, 0x01, 0x01, 0x00, 0x00, 0x00, 0x00, 0x00, 0x00, 0x00, 0x00, 0x00, 0x00, 0x49];
    let c3: Seq<u8> = seq![0x08u8, 0x03, 0x00, 0x00, 0x00, 0x00, 0x00, 0x00, 0x00, 0x00, 0x00, 0x00, 0x00, 0x00, 0x00, 0x00, 0x4a];
    let c4: Seq<u8> = seq![0x08u8, 0x04, 0x00, 0x00, 0x00, 0x00, 0x00, 0x00, 0x00, 0x00, 0x00, 0x00, 0x00, 0x00, 0x00, 0x00, 0x49];
    assert(CMD01_PACKET_A@ =~= a);
    assert(CMD01_PACKET_B@ =~= b);
    assert(CMD02_PACKET@ =~= c2);
    assert(CMD03_PACKET@ =~= c3);
    assert(CMD04_PACKET@ =~= c4);
    assert(Seq::new(INIT_SEQUENCE_LEN as nat, |i: int| spec_init_packet(i)) =~= seq![
        a, c3, c3, c3, a, c3, c3, a, c3, b, c3, c3, c3, c2, c3, c3, c4, c4,
    ]);
}

/// Each lift-off distance is sent as a stage byte and a value byte that
/// add up to 0x55, and the three distances use three different stages.
pub proof fn law_lod_device_values(l: LiftOffDistance, m: LiftOffDistance)
    ensures
        l.spec_device_values().0 + l.spec_device_values().1 == 0x55,
        l != m ==> l.spec_device_values().0 != m.spec_device_values().0,
{
}

/// Distinct polling rates are sent as distinct bytes.
pub proof fn law_rate_bytes_distinct(r: PollingRate, q: PollingRate)
    ensures
        r != q ==> r.spec_byte() != q.spec_byte(),
        r != q ==> r.spec_hz() != q.spec_hz(),
{
}

} // verus!
