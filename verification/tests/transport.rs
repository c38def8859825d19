use lightcrazy::device::transport::{bcd_version, frame_command, Device, DeviceAction, InterfaceInfo, OpenError};

#[test]
fn bcd_version_decodes_correctly() {
    assert_eq!(bcd_version(0x0225), "2.25"); // Pulsar 8K Dongle
    assert_eq!(bcd_version(0x0100), "1.00");
    assert_eq!(bcd_version(0x0310), "3.10");
    assert_eq!(bcd_version(0x0000), "0.00");
    assert_eq!(bcd_version(0x9999), "99.99");
}

fn iface(vendor_id: u16, product_id: u16, interface_number: i32, release_number: u16, path: &str) -> InterfaceInfo {
    InterfaceInfo { vendor_id, product_id, interface_number, release_number, path: path.to_string() }
}

#[test]
fn open_picks_first_matching_interface() {
    let list = vec![
        iface(0x3710, 0x5406, 0, 0x0225, "/dev/hidraw0"),
        iface(0x1234, 0x5406, 1, 0x0225, "/dev/hidraw1"),
        iface(0x3710, 0x5406, 1, 0x0225, "/dev/hidraw2"),
        iface(0x3710, 0x3414, 1, 0x0100, "/dev/hidraw3"),
    ];
    let (i, dev) = Device::open(&list).unwrap();
    assert_eq!(i, 2);
    assert!(dev.is_wireless());
    assert!(!dev.is_wired());
    assert_eq!(dev.firmware_version(), "2.25");
    assert_eq!(dev.path(), "/dev/hidraw2");
}

#[test]
fn open_wired_cable() {
    let list = vec![iface(0x3710, 0x3414, 1, 0x0310, "/dev/hidraw5")];
    let (i, dev) = Device::open(&list).unwrap();
    assert_eq!(i, 0);
    assert!(dev.is_wired());
    assert_eq!(dev.firmware_version(), "3.10");
}

#[test]
fn open_without_device_fails() {
    let list = vec![iface(0x3710, 0x3414, 0, 0x0310, "/dev/hidraw5")];
    assert_eq!(Device::open(&list).unwrap_err(), OpenError::NotFound);
    assert_eq!(Device::open(&Vec::new()).unwrap_err(), OpenError::NotFound);
}

#[test]
fn framed_packet_has_checksum() {
    let p = frame_command(&[0x04, 0, 0, 0, 0, 0, 0, 0, 0, 0, 0, 0, 0, 0, 0]);
    assert_eq!(p[0], 0x08);
    assert_eq!(p[1], 0x04);
    assert_eq!(p[16], 0x49);
    let sum: u32 = p.iter().map(|&b| b as u32).sum();
    assert_eq!(sum % 256, 0x55);
}

#[test]
fn framing_truncates_long_commands() {
    let long: Vec<u8> = (1..=20).collect();
    let p = frame_command(&long);
    assert_eq!(&p[1..16], &long[..15]);
    let sum: u32 = p.iter().map(|&b| b as u32).sum();
    assert_eq!(sum % 256, 0x55);
}

#[test]
fn send_command_writes_a_65_byte_report() {
    let (_, dev) = Device::open(&vec![iface(0x3710, 0x3414, 1, 0x0100, "p")]).unwrap();
    let v = dev.send_command(&[0x08, 0, 0, 4, 1], true);
    assert_eq!(v.len(), 3);
    match &v[0] {
        DeviceAction::Write(r) => {
            assert_eq!(r.len(), 65);
            assert_eq!(&r[..6], &[0x08, 0x08, 0, 0, 4, 1]);
            assert!(r[17..].iter().all(|&b| b == 0));
        }
        other => panic!("unexpected {:?}", other),
    }
    assert!(matches!(v[1], DeviceAction::Sleep(50)));
    assert!(matches!(v[2], DeviceAction::Read(1000)));
    assert_eq!(dev.send_command(&[1], false).len(), 1);
}

#[test]
fn distinct_bcd_values_give_distinct_versions() {
    let values = [0x0000u16, 0x0001, 0x0010, 0x0100, 0x0225, 0x1000, 0x0909, 0x9999, 0x1001, 0x0110];
    for a in values {
        for b in values {
            if a != b {
                assert_ne!(bcd_version(a), bcd_version(b), "{:#06x} {:#06x}", a, b);
            }
        }
    }
    assert_eq!(bcd_version(0x1001), "10.01");
    assert_eq!(bcd_version(0x0110), "1.10");
}
