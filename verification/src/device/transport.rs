//! The device as the protocol sees it: how an interface is picked from the
//! HID enumeration, how a command is framed into a report, and the exchanges
//! with the hardware, which this crate describes as `DeviceAction`s for the
//! caller that owns the HID handle to perform.
use vstd::prelude::*;
use crate::text::{append_decimal, digit_char, spec_decimal, spec_decimal_pad2};

verus! {

pub const VID: u16 = 0x3710;
pub const PID_WIRED: u16 = 0x3414;
pub const PID_8K_DONGLE: u16 = 0x5406;
pub const INTERFACE: i32 = 1;
pub const REPORT_ID: u8 = 0x08;

/// Length of a framed packet: report id, 15 command bytes, checksum.
pub const PACKET_LEN: usize = 17;
/// Length of the HID output report a packet is written as.
pub const REPORT_LEN: usize = 65;

#[derive(Debug, Clone, Copy, PartialEq, Eq, Structural)]
pub enum ConnectionMode {
    Wired,
    Wireless,
}

/// One entry of the HID enumeration, as far as the selection reads it.
#[derive(Debug, Clone)]
pub struct InterfaceInfo {
    pub vendor_id: u16,
    pub product_id: u16,
    pub interface_number: i32,
    /// The USB `bcdDevice` value.
    pub release_number: u16,
    pub path: String,
}

/// Why no device could be opened.
#[derive(Debug, Clone, Copy, PartialEq, Eq, Structural)]
pub enum OpenError {
    /// No enumerated interface is interface 1 of a Pulsar receiver or cable.
    NotFound,
}

/// An exchange with the hardware, performed by whoever holds the HID handle.
#[derive(Debug, Clone)]
pub enum DeviceAction {
    /// Write this output report.
    Write(Vec<u8>),
    /// Read one input report, waiting at most this many milliseconds.
    Read(i32),
    /// Pause for this many milliseconds.
    Sleep(u64),
    /// Discard pending input reports: this many reads of 1 ms each.
    Drain(usize),
}

/// The mathematical content of a `DeviceAction`.
pub enum ActionModel {
    Write(Seq<u8>),
    Read(i32),
    Sleep(u64),
    Drain(usize),
}

impl View for DeviceAction {
    type V = ActionModel;

    open spec fn view(&self) -> ActionModel {
        match self {
            DeviceAction::Write(r) => ActionModel::Write(r@),
            DeviceAction::Read(t) => ActionModel::Read(*t),
            DeviceAction::Sleep(ms) => ActionModel::Sleep(*ms),
            DeviceAction::Drain(n) => ActionModel::Drain(*n),
        }
    }
}

/// The models of a list of actions.
pub open spec fn actions_view(v: Seq<DeviceAction>) -> Seq<ActionModel> {
    v.map_values(|a: DeviceAction| a@)
}

/// The device found on the bus, with what the protocol needs to know of it.
#[derive(Debug, Clone)]
pub struct Device {
    mode: ConnectionMode,
    path: String,
    /// Decoded from the USB `bcdDevice` descriptor, e.g. "2.25" from 0x0225.
    firmware_version: String,
}

/// `n` zero bytes.
pub open spec fn zeros(n: nat) -> Seq<u8> {
    Seq::new(n, |_i: int| 0u8)
}

/// The sum of the bytes of `s`, as an integer.
pub open spec fn byte_sum(s: Seq<u8>) -> nat
    decreases s.len(),
{
    if s.len() == 0 {
        0
    } else {
        byte_sum(s.drop_last()) + s.last() as nat
    }
}

/// Each byte adds at most 255 to the sum.
pub proof fn lemma_byte_sum_bound(s: Seq<u8>)
    ensures
        byte_sum(s) <= 255 * s.len(),
    decreases s.len(),
{
    if s.len() > 0 {
        lemma_byte_sum_bound(s.drop_last());
    }
}

/// The 17-byte packet that carries `command`: the report id, the first 15
/// command bytes padded with zeros, and a checksum that makes all 17 bytes
/// add up to 0x55 modulo 256.
pub open spec fn spec_frame(command: Seq<u8>) -> Seq<u8> {
    let n: int = if command.len() < 15 { command.len() as int } else { 15 };
    let body = seq![REPORT_ID] + command.take(n) + zeros((15 - n) as nat);
    body.push(((0x55 + 256 * 16 - byte_sum(body)) % 256) as u8)
}

/// The 65-byte output report that writes a 17-byte packet.
pub open spec fn spec_report(packet: Seq<u8>) -> Seq<u8> {
    packet + zeros(48)
}

/// The action that sends `command` framed as a packet.
pub open spec fn write_command(command: Seq<u8>) -> ActionModel {
    ActionModel::Write(spec_report(spec_frame(command)))
}

/// The exchange of `send_command`.
pub open spec fn spec_send_command(command: Seq<u8>, read_response: bool) -> Seq<ActionModel> {
    if read_response {
        seq![write_command(command), ActionModel::Sleep(50), ActionModel::Read(1000)]
    } else {
        seq![write_command(command)]
    }
}

/// Whether an enumerated interface is the one the protocol talks to.
pub open spec fn is_target(info: InterfaceInfo) -> bool {
    info.vendor_id == VID && (info.product_id == PID_WIRED || info.product_id == PID_8K_DONGLE)
        && info.interface_number == INTERFACE
}

pub open spec fn mode_of(product_id: u16) -> ConnectionMode {
    if product_id == PID_WIRED {
        ConnectionMode::Wired
    } else {
        ConnectionMode::Wireless
    }
}

/// Decimal value of a BCD byte: high nibble tens, low nibble units.
pub open spec fn bcd_byte_value(b: u8) -> nat {
    ((b / 16) * 10 + b % 16) as nat
}

/// "{major}.{minor:02}" for a `bcdDevice` value.
pub open spec fn spec_bcd_version(bcd: u16) -> Seq<char> {
    spec_decimal(bcd_byte_value((bcd / 256) as u8)) + seq!['.'] + spec_decimal_pad2(
        bcd_byte_value((bcd % 256) as u8),
    )
}

/// Decodes a USB `bcdDevice` value into "{major}.{minor:02}".
///
/// The high byte is the major version and the low byte the minor version,
/// each nibble a decimal digit: 0x0225 gives "2.25", 0x0100 "1.00".
pub fn bcd_version(bcd: u16) -> (s: String)
    ensures
        s@ == spec_bcd_version(bcd),
{
    let major_bcd: u8 = (bcd >> 8) as u8;
    let minor_bcd: u8 = (bcd & 0xFF) as u8;
    assert(major_bcd == bcd / 256 && minor_bcd == bcd % 256) by (bit_vector)
        requires
            major_bcd == (bcd >> 8) as u8,
            minor_bcd == (bcd & 0xFF) as u8,
    ;
    assert(major_bcd >> 4 == major_bcd / 16 && major_bcd & 0x0F == major_bcd % 16) by (bit_vector);
    assert(minor_bcd >> 4 == minor_bcd / 16 && minor_bcd & 0x0F == minor_bcd % 16) by (bit_vector);
    let major: u8 = (major_bcd >> 4) * 10 + (major_bcd & 0x0F);
    let minor: u8 = (minor_bcd >> 4) * 10 + (minor_bcd & 0x0F);
    let mut s = String::new();
    append_decimal(&mut s, major as u64);
    s.append(".");
    if minor < 10 {
        s.append("0");
    }
    append_decimal(&mut s, minor as u64);
    proof {
        reveal_strlit(".");
        reveal_strlit("0");
        assert(s@ =~= spec_bcd_version(bcd));
    }
    s
}

impl Device {
    pub closed spec fn spec_mode(&self) -> ConnectionMode {
        self.mode
    }

    pub closed spec fn spec_path(&self) -> Seq<char> {
        self.path@
    }

    pub closed spec fn spec_firmware(&self) -> Seq<char> {
        self.firmware_version@
    }

    /// Picks the first enumerated interface that is interface 1 of the wired
    /// mouse or of the 8K dongle, and describes the device behind it. The
    /// caller opens the HID handle at the returned index.
    pub fn open(interfaces: &Vec<InterfaceInfo>) -> (r: Result<(usize, Device), OpenError>)
        ensures
            match r {
                Ok((i, dev)) => {
                    &&& i < interfaces.len()
                    &&& is_target(interfaces@[i as int])
                    &&& forall|j: int| 0 <= j < i ==> !is_target(#[trigger] interfaces@[j])
                    &&& dev.spec_mode() == mode_of(interfaces@[i as int].product_id)
                    &&& dev.spec_firmware() == spec_bcd_version(interfaces@[i as int].release_number)
                    &&& dev.spec_path() == interfaces@[i as int].path@
                },
                Err(e) => e == OpenError::NotFound && forall|j: int|
                    0 <= j < interfaces.len() ==> !is_target(#[trigger] interfaces@[j]),
            },
    {
        let mut i: usize = 0;
        while i < interfaces.len()
            invariant
                i <= interfaces.len(),
                forall|j: int| 0 <= j < i ==> !is_target(#[trigger] interfaces@[j]),
            decreases interfaces.len() - i,
        {
            let info = &interfaces[i];
            if info.vendor_id == VID && (info.product_id == PID_WIRED || info.product_id
                == PID_8K_DONGLE) && info.interface_number == INTERFACE {
                let mode = if info.product_id == PID_WIRED {
                    ConnectionMode::Wired
                } else {
                    ConnectionMode::Wireless
                };
                let firmware_version = bcd_version(info.release_number);
                let path = info.path.clone();
                return Ok((i, Device { mode, path, firmware_version }));
            }
            i = i + 1;
        }
        Err(OpenError::NotFound)
    }

    /// The firmware version decoded from the USB `bcdDevice` descriptor.
    pub fn firmware_version(&self) -> (v: &str)
        ensures
            v@ == self.spec_firmware(),
    {
        self.firmware_version.as_str()
    }

    /// The HID path the device was found at.
    pub fn path(&self) -> (p: &str)
        ensures
            p@ == self.spec_path(),
    {
        self.path.as_str()
    }

    pub fn is_wired(&self) -> (b: bool)
        ensures
            b == (self.spec_mode() == ConnectionMode::Wired),
    {
        match self.mode {
            ConnectionMode::Wired => true,
            ConnectionMode::Wireless => false,
        }
    }

    pub fn is_wireless(&self) -> (b: bool)
        ensures
            b == (self.spec_mode() == ConnectionMode::Wireless),
    {
        match self.mode {
            ConnectionMode::Wired => false,
            ConnectionMode::Wireless => true,
        }
    }

    /// Writes a ready-made 17-byte packet.
    pub fn write_output(&self, packet: &[u8; 17]) -> (a: DeviceAction)
        ensures
            a@ == ActionModel::Write(spec_report(packet@)),
    {
        self.send_raw_packet(packet)
    }

    /// Discards up to `attempts` pending input reports.
    pub fn drain_input(&self, attempts: usize) -> (a: DeviceAction)
        ensures
            a@ == ActionModel::Drain(attempts),
    {
        DeviceAction::Drain(attempts)
    }

    /// Frames `command_data` into a packet and writes it; when
    /// `read_response` holds, waits 50 ms and reads the reply.
    pub fn send_command(&self, command_data: &[u8], read_response: bool) -> (v: Vec<DeviceAction>)
        ensures
            actions_view(v@) == spec_send_command(command_data@, read_response),
    {
        let packet = frame_command(command_data);
        let mut v: Vec<DeviceAction> = Vec::new();
        v.push(self.send_raw_packet(&packet));
        if read_response {
            v.push(DeviceAction::Sleep(50));
            v.push(self.read_interrupt(1000));
        }
        proof {
            assert(actions_view(v@) =~= spec_send_command(command_data@, read_response));
        }
        v
    }

    /// Writes a 17-byte packet as a 65-byte output report.
    pub fn send_raw_packet(&self, packet: &[u8; 17]) -> (a: DeviceAction)
        ensures
            a@ == ActionModel::Write(spec_report(packet@)),
    {
        let mut report: Vec<u8> = Vec::new();
        let mut i: usize = 0;
        while i < 17
            invariant
                i <= 17,
                report@ =~= packet@.take(i as int),
            decreases 17 - i,
        {
            report.push(packet[i]);
            i = i + 1;
        }
        while i < 65
            invariant
                17 <= i <= 65,
                report@ =~= packet@ + zeros((i - 17) as nat),
            decreases 65 - i,
        {
            report.push(0);
            i = i + 1;
        }
        DeviceAction::Write(report)
    }

    /// Reads one input report, waiting at most `timeout_ms`.
    pub fn read_interrupt(&self, timeout_ms: i32) -> (a: DeviceAction)
        ensures
            a@ == ActionModel::Read(timeout_ms),
    {
        DeviceAction::Read(timeout_ms)
    }
}

/// The 17-byte packet carrying `command_data` (see `spec_frame`).
pub fn frame_command(command_data: &[u8]) -> (p: [u8; 17])
    ensures
        p@ == spec_frame(command_data@),
{
    let mut packet = [0u8; 17];
    packet[0] = REPORT_ID;
    let len: usize = if command_data.len() < 15 { command_data.len() } else { 15 };
    let mut i: usize = 0;
    while i < len
        invariant
            len <= 15,
            len <= command_data@.len(),
            i <= len,
            packet@.len() == 17,
            packet@[0] == REPORT_ID,
            forall|k: int| 1 <= k <= i ==> packet@[k] == command_data@[k - 1],
            forall|k: int| i < k < 17 ==> packet@[k] == 0,
        decreases len - i,
    {
        packet[i + 1] = command_data[i];
        i = i + 1;
    }
    let ghost body = seq![REPORT_ID] + command_data@.take(len as int) + zeros((15 - len) as nat);
    assert(packet@.take(16) =~= body);
    let mut sum: u8 = 0;
    let mut k: usize = 0;
    while k < 16
        invariant
            k <= 16,
            packet@.len() == 17,
            packet@.take(16) == body,
            sum as nat == byte_sum(body.take(k as int)) % 256,
        decreases 16 - k,
    {
        proof {
            assert(body.take(k + 1).drop_last() =~= body.take(k as int));
        }
        sum = sum.wrapping_add(packet[k]);
        k = k + 1;
    }
    assert(body.take(16) =~= body);
    packet[16] = 0x55u8.wrapping_sub(sum);
    proof {
        lemma_byte_sum_bound(body);
        let bs = byte_sum(body);
        assert((0x55 + 256 * 16 - bs) % 256 == (0x55 - bs % 256 + 256) % 256) by (nonlinear_arith)
            requires bs <= 256 * 16 {}
        assert(packet@ =~= spec_frame(command_data@));
    }
    packet
}


proof fn lemma_byte_sum_append(a: Seq<u8>, b: Seq<u8>)
    ensures
        byte_sum(a + b) == byte_sum(a) + byte_sum(b),
    decreases b.len(),
{
    if b.len() == 0 {
        assert(a + b =~= a);
    } else {
        lemma_byte_sum_append(a, b.drop_last());
        assert((a + b).drop_last() =~= a + b.drop_last());
    }
}

/// Every framed packet is 17 bytes long, starts with the report id, carries
/// the command's first 15 bytes, and its bytes add up to 0x55 modulo 256:
/// the device's checksum rule.
pub proof fn law_frame_checksum(command: Seq<u8>)
    ensures
        spec_frame(command).len() == PACKET_LEN,
        spec_frame(command)[0] == REPORT_ID,
        forall|i: int| 0 <= i < 15 && i < command.len() ==> spec_frame(command)[i + 1] == command[i],
        byte_sum(spec_frame(command)) % 256 == 0x55,
{
    let n: int = if command.len() < 15 { command.len() as int } else { 15 };
    let body = seq![REPORT_ID] + command.take(n) + zeros((15 - n) as nat);
    let c = ((0x55 + 256 * 16 - byte_sum(body)) % 256) as u8;
    assert(spec_frame(command) == body.push(c));
    assert(body.push(c) =~= body + seq![c]);
    lemma_byte_sum_append(body, seq![c]);
    assert(seq![c].drop_last() =~= Seq::<u8>::empty());
    assert(byte_sum(Seq::<u8>::empty()) == 0);
    assert(seq![c].last() == c);
    assert(byte_sum(seq![c]) == c as nat);
    lemma_byte_sum_bound(body);
    let bs = byte_sum(body);
    assert((bs + (0x55 + 256 * 16 - bs) % 256) % 256 == 0x55) by (nonlinear_arith)
        requires bs <= 255 * 16;
    assert forall|i: int| 0 <= i < 15 && i < command.len() implies spec_frame(command)[i + 1] == command[i] by {
        assert(body[i + 1] == command.take(n)[i]);
    }
}

/// Whether every nibble of `v` is a decimal digit.
pub open spec fn is_bcd(v: u16) -> bool {
    &&& v / 4096 <= 9
    &&& (v / 256) % 16 <= 9
    &&& (v / 16) % 16 <= 9
    &&& v % 16 <= 9
}

proof fn lemma_bcd_nibbles(v: u16)
    ensures
        ((v / 256) as u8) / 16 == v / 4096,
        ((v / 256) as u8) % 16 == (v / 256) % 16,
        ((v % 256) as u8) / 16 == (v / 16) % 16,
        ((v % 256) as u8) % 16 == v % 16,
        v == (v / 4096) * 4096 + ((v / 256) % 16) * 256 + ((v / 16) % 16) * 16 + v % 16,
{
    assert(((v / 256) as u8) / 16 == v / 4096) by (bit_vector);
    assert(((v / 256) as u8) % 16 == (v / 256) % 16) by (bit_vector);
    assert(((v % 256) as u8) / 16 == (v / 16) % 16) by (bit_vector);
    assert(((v % 256) as u8) % 16 == v % 16) by (bit_vector);
    assert(v == (v / 4096) * 4096 + ((v / 256) % 16) * 256 + ((v / 16) % 16) * 16 + v % 16) by (bit_vector);
}

/// A number below 100 in base ten: one digit below 10, two from 10 on.
proof fn lemma_small_decimal(n: nat)
    requires
        n < 100,
    ensures
        spec_decimal(n) == if n < 10 {
            seq![digit_char(n)]
        } else {
            seq![digit_char(n / 10), digit_char(n % 10)]
        },
        spec_decimal_pad2(n) == seq![digit_char(n / 10), digit_char(n % 10)],
{
    reveal_with_fuel(spec_decimal, 2);
    if n < 10 {
        assert(seq!['0'] + seq![digit_char(n)] =~= seq![digit_char(n / 10), digit_char(n % 10)]);
    } else {
        assert(seq![digit_char(n / 10)].push(digit_char(n % 10)) =~= seq![digit_char(n / 10), digit_char(n % 10)]);
    }
}

/// The version of a valid BCD value, digit by digit: the major number
/// without a leading zero, a dot, then exactly two minor digits.
pub proof fn law_bcd_version_digits(v: u16)
    requires
        is_bcd(v),
    ensures
        ({
            let (d3, d2, d1, d0) = (v / 4096, (v / 256) % 16, (v / 16) % 16, v % 16);
            spec_bcd_version(v) == if d3 == 0 {
                seq![digit_char(d2 as nat), '.', digit_char(d1 as nat), digit_char(d0 as nat)]
            } else {
                seq![digit_char(d3 as nat), digit_char(d2 as nat), '.', digit_char(d1 as nat), digit_char(d0 as nat)]
            }
        }),
{
    lemma_bcd_nibbles(v);
    let major: nat = bcd_byte_value((v / 256) as u8);
    let minor: nat = bcd_byte_value((v % 256) as u8);
    assert(major == 10 * (v / 4096) + (v / 256) % 16);
    assert(minor == 10 * ((v / 16) % 16) + v % 16);
    lemma_small_decimal(major);
    lemma_small_decimal(minor);
    assert(minor / 10 == (v / 16) % 16 && minor % 10 == v % 16);
    assert(major / 10 == v / 4096 && major % 10 == (v / 256) % 16);
    if v / 4096 == 0 {
        assert(spec_bcd_version(v) =~= seq![
            digit_char(((v / 256) % 16) as nat),
            '.',
            digit_char(((v / 16) % 16) as nat),
            digit_char((v % 16) as nat),
        ]);
    } else {
        assert(spec_bcd_version(v) =~= seq![
            digit_char((v / 4096) as nat),
            digit_char(((v / 256) % 16) as nat),
            '.',
            digit_char(((v / 16) % 16) as nat),
            digit_char((v % 16) as nat),
        ]);
    }
}

/// Distinct valid BCD values give distinct version strings: a version
/// string names exactly one `bcdDevice` value.
pub proof fn law_bcd_version_injective(a: u16, b: u16)
    requires
        is_bcd(a),
        is_bcd(b),
        a != b,
    ensures
        spec_bcd_version(a) != spec_bcd_version(b),
{
    law_bcd_version_digits(a);
    law_bcd_version_digits(b);
    lemma_bcd_nibbles(a);
    lemma_bcd_nibbles(b);
    let sa = spec_bcd_version(a);
    let sb = spec_bcd_version(b);
    if sa == sb {
        let (a3, a2, a1, a0) = (a / 4096, (a / 256) % 16, (a / 16) % 16, a % 16);
        let (b3, b2, b1, b0) = (b / 4096, (b / 256) % 16, (b / 16) % 16, b % 16);
        assert(sa.len() == sb.len());
        if a3 == 0 {
            assert(b3 == 0);
            assert(sa[0] == sb[0] && sa[2] == sb[2] && sa[3] == sb[3]);
            assert(a2 == b2 && a1 == b1 && a0 == b0);
        } else {
            assert(b3 != 0);
            assert(sa[0] == sb[0] && sa[1] == sb[1] && sa[3] == sb[3] && sa[4] == sb[4]);
            assert(a3 == b3 && a2 == b2 && a1 == b1 && a0 == b0);
        }
        assert(false);
    }
}

} // verus!
