use lightcrazy::device::protocol::{
    configure_dpi_stage,
    get_firmware, get_mouse_battery, init_packet, query_current_dpi, query_current_stage, set_angle_snap,
    set_debounce, set_dpi, set_lod, set_motion_sync, set_polling_rate, set_ripple_control, set_turbo_mode,
    stage_query, BatteryPhase, BatteryReadError, BatteryStep, DeviceEvent, LiftOffDistance, MouseStatus,
    PollingRate, ProtocolError, CMD04_PACKET, DPI_MAX, DPI_MIN, DPI_STAGES, INIT_SEQUENCE_LEN,
};
use lightcrazy::device::transport::{frame_command, Device, DeviceAction, InterfaceInfo};

fn device() -> Device {
    let list = vec![InterfaceInfo {
        vendor_id: 0x3710,
        product_id: 0x5406,
        interface_number: 1,
        release_number: 0x0225,
        path: "/dev/hidraw0".to_string(),
    }];
    Device::open(&list).unwrap().1
}

fn report(command: &[u8]) -> Vec<u8> {
    let p = frame_command(command);
    let mut r = p.to_vec();
    r.resize(65, 0);
    r
}

fn config(sub: u8, stage: u8, value: u8) -> Vec<u8> {
    report(&[0x07, 0, 0, sub, 0x02, stage, value, 0, 0, 0, 0, 0, 0, 0, 0])
}

fn writes(v: &[DeviceAction]) -> Vec<Vec<u8>> {
    v.iter()
        .filter_map(|a| match a {
            DeviceAction::Write(r) => Some(r.clone()),
            _ => None,
        })
        .collect()
}

fn prepare() -> Vec<Vec<u8>> {
    vec![report(&[0x03; 1]), report(&[0x04; 1])]
}

#[test]
fn polling_rate_hz_values() {
    assert_eq!(PollingRate::Hz125.as_hz(), 125);
    assert_eq!(PollingRate::Hz1000.as_hz(), 1000);
    assert_eq!(PollingRate::Hz8000.as_hz(), 8000);
    assert_eq!(PollingRate::Hz4000.to_byte(), 0x20);
}

#[test]
fn set_dpi_programs_and_selects_nearest_stage() {
    let dev = device();
    let v = set_dpi(&dev, 1600);
    assert_eq!(v.len(), 7);
    let mut expected = prepare();
    expected.push(config(0x0a, 2, 160));
    expected.push(config(0x04, 2, 0x53));
    assert_eq!(writes(&v), expected);
    assert!(matches!(v[1], DeviceAction::Sleep(50)));
    assert!(matches!(v[3], DeviceAction::Sleep(50)));
    assert!(matches!(v[5], DeviceAction::Sleep(50)));
}

#[test]
fn set_dpi_clamps_and_rounds() {
    let dev = device();
    // 100 clamps to 400: stage 0.
    assert_eq!(writes(&set_dpi(&dev, 100))[3], config(0x04, 0, 0x55));
    // 20000 clamps to 12800: stage 5; 1280 truncates to one byte, 0.
    let w = writes(&set_dpi(&dev, 20000));
    assert_eq!(w[2], config(0x0a, 5, 0));
    assert_eq!(w[3], config(0x04, 5, 0x50));
    // 600 is as near to 400 as to 800: the lower stage wins.
    assert_eq!(writes(&set_dpi(&dev, 600))[3], config(0x04, 0, 0x55));
    assert_eq!(writes(&set_dpi(&dev, 601))[3], config(0x04, 1, 0x54));
    // 6400 / 10 = 640 is sent as 640 mod 256 = 128.
    assert_eq!(writes(&set_dpi(&dev, 5000))[2], config(0x0a, 4, 128));
}

#[test]
fn settings_commands() {
    let dev = device();
    let mut e = prepare();
    e.push(config(0x00, 0x40, 0x15));
    assert_eq!(writes(&set_polling_rate(&dev, PollingRate::Hz8000)), e);
    let mut e = prepare();
    e.push(config(0x0a, 0x03, 0x52));
    assert_eq!(writes(&set_lod(&dev, LiftOffDistance::Low)), e);
    let mut e = prepare();
    e.push(config(0xa9, 20, 0x41));
    assert_eq!(writes(&set_debounce(&dev, 20).unwrap()), e);
    assert_eq!(set_debounce(&dev, 21).unwrap_err(), ProtocolError::DebounceOutOfRange);
    assert_eq!(ProtocolError::DebounceOutOfRange.message(), "Debounce must be 0-20ms");
}

#[test]
fn toggle_commands() {
    let dev = device();
    assert_eq!(writes(&set_angle_snap(&dev, true))[2], config(0xaf, 1, 0x54));
    assert_eq!(writes(&set_ripple_control(&dev, false))[2], config(0xb1, 0, 0x55));
    assert_eq!(writes(&set_turbo_mode(&dev, true))[2], config(0xb5, 1, 0x54));
    assert_eq!(writes(&set_motion_sync(&dev, true))[2], config(0xab, 1, 0x54));
}

#[test]
fn stage_query_and_decoding() {
    let dev = device();
    let v = stage_query(&dev);
    assert_eq!(writes(&v), vec![report(&[0x08, 0, 0, 0x04, 0x01])]);
    assert!(matches!(v[2], DeviceAction::Read(1000)));
    let reply = [0x08, 0x08, 0, 0, 0, 0, 3, 0];
    assert_eq!(query_current_stage(&reply), Ok(4));
    assert_eq!(query_current_dpi(&reply), Ok(3200));
    assert_eq!(query_current_stage(&reply[..6]), Err(ProtocolError::InvalidStageResponse));
    assert_eq!(query_current_dpi(&[8, 8, 0, 0, 0, 0, 5]), Ok(12800));
}

#[test]
fn firmware_from_descriptor() {
    assert_eq!(get_firmware(&device()).unwrap(), "2.25");
}

fn finish(step: BatteryStep) -> Result<MouseStatus, BatteryReadError> {
    match step {
        BatteryStep::Finish(r) => r,
        other => panic!("expected the end, got {:?}", other),
    }
}

fn perform(step: BatteryStep) -> DeviceAction {
    match step {
        BatteryStep::Perform(a) => a,
        other => panic!("expected an action, got {:?}", other),
    }
}

#[test]
fn battery_read_answered_at_once() {
    let dev = device();
    let (mut read, first) = get_mouse_battery(&dev);
    assert!(matches!(first, DeviceAction::Drain(6)));
    let a = perform(read.step(&dev, DeviceEvent::Drained));
    match a {
        DeviceAction::Write(r) => assert_eq!(&r[..17], &CMD04_PACKET),
        other => panic!("{:?}", other),
    }
    assert!(matches!(perform(read.step(&dev, DeviceEvent::Written { now_ms: 0 })), DeviceAction::Read(250)));
    // A report for another command is skipped.
    let other = vec![0x08, 0x05, 0, 0, 0, 0, 1, 1];
    assert!(matches!(
        perform(read.step(&dev, DeviceEvent::Received { data: other, now_ms: 100 })),
        DeviceAction::Read(250)
    ));
    let reply = vec![0x08, 0x04, 0, 0, 0, 0, 73, 1, 0];
    let r = finish(read.step(&dev, DeviceEvent::Received { data: reply, now_ms: 200 }));
    assert_eq!(r, Ok(MouseStatus { battery_level: 73, is_charging: true }));
    assert_eq!(read.phase(), BatteryPhase::Finished);
}

#[test]
fn battery_read_wakes_the_mouse() {
    let dev = device();
    let (mut read, _) = get_mouse_battery(&dev);
    perform(read.step(&dev, DeviceEvent::Drained));
    perform(read.step(&dev, DeviceEvent::Written { now_ms: 1000 }));
    // No answer before the 800 ms deadline: the wake-up sequence starts.
    assert!(matches!(perform(read.step(&dev, DeviceEvent::ReadFailed { now_ms: 1500 })), DeviceAction::Read(250)));
    let mut a = perform(read.step(&dev, DeviceEvent::ReadFailed { now_ms: 1800 }));
    for i in 0..INIT_SEQUENCE_LEN {
        match a {
            DeviceAction::Write(r) => assert_eq!(&r[..17], &init_packet(i)),
            other => panic!("{:?}", other),
        }
        assert!(matches!(perform(read.step(&dev, DeviceEvent::Written { now_ms: 1900 })), DeviceAction::Sleep(10)));
        a = perform(read.step(&dev, DeviceEvent::Slept { now_ms: 2000 }));
    }
    assert!(matches!(a, DeviceAction::Read(250)));
    assert_eq!(read.phase(), BatteryPhase::AwaitWake { deadline: 4000 });
    let reply = vec![0x08, 0x04, 0, 0, 0, 0, 12, 0];
    let r = finish(read.step(&dev, DeviceEvent::Received { data: reply, now_ms: 2500 }));
    assert_eq!(r, Ok(MouseStatus { battery_level: 12, is_charging: false }));
}

#[test]
fn battery_read_reports_asleep_and_io() {
    let dev = device();
    let (mut read, _) = get_mouse_battery(&dev);
    perform(read.step(&dev, DeviceEvent::Drained));
    perform(read.step(&dev, DeviceEvent::Written { now_ms: 0 }));
    perform(read.step(&dev, DeviceEvent::ReadFailed { now_ms: 800 }));
    for _ in 0..INIT_SEQUENCE_LEN {
        perform(read.step(&dev, DeviceEvent::Written { now_ms: 900 }));
        perform(read.step(&dev, DeviceEvent::Slept { now_ms: 1000 }));
    }
    assert!(matches!(perform(read.step(&dev, DeviceEvent::ReadFailed { now_ms: 2000 })), DeviceAction::Read(250)));
    assert_eq!(finish(read.step(&dev, DeviceEvent::ReadFailed { now_ms: 3000 })), Err(BatteryReadError::Asleep));

    let (mut read, _) = get_mouse_battery(&dev);
    perform(read.step(&dev, DeviceEvent::Drained));
    assert_eq!(finish(read.step(&dev, DeviceEvent::WriteFailed)), Err(BatteryReadError::Io));
    assert_eq!(finish(read.step(&dev, DeviceEvent::Drained)), Err(BatteryReadError::Io));
}

#[test]
fn dpi_stage_table() {
    assert_eq!(DPI_STAGES[3], (3, 3200));
    assert_eq!(DPI_MIN, 400);
    assert_eq!(DPI_MAX, 12800);
}

#[test]
fn dpi_stage_programming_range() {
    let dev = device();
    assert_eq!(configure_dpi_stage(&dev, 0, 800).unwrap_err(), ProtocolError::StageOutOfRange);
    assert_eq!(configure_dpi_stage(&dev, 7, 800).unwrap_err(), ProtocolError::StageOutOfRange);
    assert_eq!(configure_dpi_stage(&dev, 3, 399).unwrap_err(), ProtocolError::DpiOutOfRange);
    assert_eq!(configure_dpi_stage(&dev, 3, 12801).unwrap_err(), ProtocolError::DpiOutOfRange);
    let actions = configure_dpi_stage(&dev, 3, 3200).unwrap();
    assert_eq!(actions.len(), 1);
    match &actions[0] {
        DeviceAction::Write(report) => {
            assert_eq!(report[..8], [0x08, 0x07, 0x00, 0x00, 0x0a, 0x02, 0x02, 64]);
            assert!(report[8..16].iter().all(|b| *b == 0));
        }
        other => panic!("unexpected action {:?}", other),
    }
}
