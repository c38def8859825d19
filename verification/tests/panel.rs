use lightcrazy::device::protocol::{LiftOffDistance, MouseStatus, PollingRate};
use lightcrazy::device::transport::{Device, DeviceAction, InterfaceInfo};
use lightcrazy::settings::Settings;
use lightcrazy::ui::app::{
    apply_settings_to_device, lod_label, on_off, request_actions, App, Connection, DeviceReply, KeyInput,
    MouseInput, PanelRequest, SETTINGS_ROWS,
};
use lightcrazy::ui::app::SettingRow;

fn connected(dpi: u16) -> App {
    App::new(
        Settings::default(),
        Some(Connection { path: "/dev/hidraw3".to_string(), wired: false, firmware: Some("2.25".to_string()), dpi }),
    )
}

fn goto(app: &mut App, row: SettingRow) {
    let idx = SETTINGS_ROWS.iter().position(|r| *r == row).unwrap();
    app.settings_row = idx;
}

fn status(app: &App) -> (String, bool) {
    let m = app.status_msg.as_ref().unwrap();
    (m.text.clone(), m.is_error)
}

#[test]
fn labels() {
    assert_eq!(on_off(true), "ON");
    assert_eq!(on_off(false), "OFF");
    assert_eq!(lod_label(LiftOffDistance::Low), "0.7 mm");
    assert_eq!(lod_label(LiftOffDistance::Medium), "1 mm");
    assert_eq!(lod_label(LiftOffDistance::High), "2 mm");
}

#[test]
fn new_panel_positions_sliders() {
    let app = connected(3200);
    assert_eq!(app.dpi_slider.value(), 3);
    assert_eq!(app.polling_slider.value(), 4);
    assert_eq!(app.debounce_slider.value(), 2);
    assert!(app.battery_loading);
    let app = App::new(Settings::default(), None);
    assert_eq!(app.dpi, 1600);
    assert_eq!(app.dpi_slider.value(), 2);
    assert!(!app.battery_loading);
    assert_eq!(connected(1234).dpi_slider.value(), 2);
}

#[test]
fn navigation_and_quit() {
    let mut app = connected(1600);
    assert_eq!(app.on_key(KeyInput::Up, false, 0), None);
    assert_eq!(app.settings_row, 0);
    for _ in 0..20 {
        app.on_key(KeyInput::Char('j'), false, 0);
    }
    assert_eq!(app.settings_row, 9);
    app.on_mouse(MouseInput::ScrollUp, 0);
    assert_eq!(app.settings_row, 8);
    app.on_key(KeyInput::Char('c'), false, 0);
    assert!(!app.should_quit);
    app.on_key(KeyInput::Char('c'), true, 0);
    assert!(app.should_quit);
    let mut app = connected(1600);
    app.on_key(KeyInput::Esc, false, 0);
    assert!(app.should_quit);
}

#[test]
fn dpi_is_pending_until_enter() {
    let mut app = connected(1600);
    assert_eq!(app.on_key(KeyInput::Right, false, 10), None);
    assert_eq!(status(&app), ("DPI 3200 — press Enter to apply".to_string(), false));
    assert_eq!(app.dpi, 1600);
    let req = app.on_key(KeyInput::Enter, false, 20).unwrap();
    assert_eq!(req, PanelRequest::SetDpi(3200));
    app.finish(req, DeviceReply::Applied, 30);
    assert_eq!(app.dpi, 3200);
    assert_eq!(status(&app), ("DPI → 3200".to_string(), false));
}

#[test]
fn failed_dpi_restores_slider() {
    let mut app = connected(800);
    app.on_key(KeyInput::Right, false, 0);
    app.on_key(KeyInput::Right, false, 0);
    let req = app.on_key(KeyInput::Enter, false, 0).unwrap();
    assert_eq!(req, PanelRequest::SetDpi(3200));
    app.finish(req, DeviceReply::Failed("HID write failed".to_string()), 5);
    assert_eq!(app.dpi_slider.value(), 1);
    assert_eq!(status(&app), ("Error: HID write failed".to_string(), true));
}

#[test]
fn missing_or_busy_device_is_reported() {
    let mut app = connected(1600);
    let req = app.on_key(KeyInput::Enter, false, 0).unwrap();
    app.finish(req, DeviceReply::NoDevice, 1);
    assert_eq!(status(&app), ("No device".to_string(), true));
    app.finish(req, DeviceReply::Busy, 2);
    assert_eq!(status(&app), ("Device busy — try again".to_string(), true));
    assert_eq!(app.dpi, 1600);
}

#[test]
fn polling_rate_row() {
    let mut app = connected(1600);
    goto(&mut app, SettingRow::PollingRate);
    app.on_mouse(MouseInput::RightClick, 0);
    assert_eq!(status(&app), ("Polling 4000 Hz — press Enter to apply".to_string(), false));
    let req = app.on_key(KeyInput::Enter, false, 0).unwrap();
    assert_eq!(req, PanelRequest::SetPollingRate(PollingRate::Hz4000));
    app.finish(req, DeviceReply::Applied, 0);
    assert_eq!(app.settings.polling_rate(), PollingRate::Hz4000);
    assert_eq!(status(&app), ("Polling → 4000 Hz".to_string(), false));
    app.on_key(KeyInput::Right, false, 0);
    let req = app.on_key(KeyInput::Enter, false, 0).unwrap();
    app.finish(req, DeviceReply::Failed("x".to_string()), 0);
    assert_eq!(app.polling_slider.value(), 5);
}

#[test]
fn debounce_row() {
    let mut app = connected(1600);
    goto(&mut app, SettingRow::Debounce);
    app.on_key(KeyInput::Left, false, 0);
    app.on_key(KeyInput::Left, false, 0);
    app.on_key(KeyInput::Left, false, 0);
    assert_eq!(app.debounce_slider.value(), 0);
    assert_eq!(status(&app), ("Debounce 0 ms — press Enter to apply".to_string(), false));
    let req = app.on_key(KeyInput::Enter, false, 0).unwrap();
    assert_eq!(req, PanelRequest::SetDebounce(0));
    app.finish(req, DeviceReply::Applied, 0);
    assert_eq!(app.settings.debounce_ms, 0);
    assert_eq!(status(&app), ("Debounce → 0 ms".to_string(), false));
}

#[test]
fn immediate_rows() {
    let mut app = connected(1600);
    goto(&mut app, SettingRow::LiftOffDistance);
    let req = app.on_key(KeyInput::Right, false, 0).unwrap();
    assert_eq!(req, PanelRequest::SetLod(LiftOffDistance::High));
    assert_eq!(app.settings.lod(), LiftOffDistance::High);
    app.finish(req, DeviceReply::NoDevice, 0);
    assert_eq!(status(&app), ("LOD → 2 mm".to_string(), false));
    assert_eq!(app.on_key(KeyInput::Right, false, 0), Some(PanelRequest::SetLod(LiftOffDistance::High)));

    goto(&mut app, SettingRow::AngleSnap);
    let req = app.on_key(KeyInput::Enter, false, 0).unwrap();
    assert_eq!(req, PanelRequest::SetAngleSnap(true));
    app.finish(req, DeviceReply::Applied, 0);
    assert_eq!(status(&app), ("Angle Snap → ON".to_string(), false));

    goto(&mut app, SettingRow::TurboMode);
    let req = app.on_mouse(MouseInput::LeftClick, 0).unwrap();
    assert_eq!(req, PanelRequest::SetTurboMode(true));
    app.finish(req, DeviceReply::Applied, 0);
    assert_eq!(status(&app), ("Turbo → ON".to_string(), false));
}

#[test]
fn threshold_and_interval_rows() {
    let mut app = connected(1600);
    goto(&mut app, SettingRow::NotificationThreshold);
    assert_eq!(app.on_key(KeyInput::Enter, false, 0), None);
    for _ in 0..10 {
        app.on_key(KeyInput::Right, false, 0);
    }
    assert_eq!(app.settings.notification_threshold, 50);
    assert_eq!(status(&app), ("Alert threshold → 50%".to_string(), false));
    for _ in 0..20 {
        app.on_key(KeyInput::Left, false, 0);
    }
    assert_eq!(app.settings.notification_threshold, 5);

    goto(&mut app, SettingRow::BatteryInterval);
    app.on_key(KeyInput::Right, false, 0);
    assert_eq!(app.settings.battery_interval_secs, 120);
    assert_eq!(status(&app), ("Battery interval → 120s".to_string(), false));
    for _ in 0..5 {
        app.on_key(KeyInput::Right, false, 0);
    }
    assert_eq!(app.settings.battery_interval_secs, 600);
}

#[test]
fn status_expires_and_battery_arrives() {
    let mut app = connected(1600);
    app.on_key(KeyInput::Right, false, 1000);
    app.tick(3999);
    assert!(app.status_msg.is_some());
    app.tick(4000);
    assert!(app.status_msg.is_none());
    let s = MouseStatus { battery_level: 42, is_charging: false };
    app.receive_battery(s);
    assert_eq!(app.battery, Some(s));
    assert!(!app.battery_loading);
}

#[test]
fn requests_become_device_exchanges() {
    let list = vec![InterfaceInfo {
        vendor_id: 0x3710,
        product_id: 0x3414,
        interface_number: 1,
        release_number: 0x0100,
        path: String::new(),
    }];
    let dev = Device::open(&list).unwrap().1;
    assert_eq!(request_actions(&dev, PanelRequest::SetDpi(1600)).unwrap().len(), 7);
    assert!(request_actions(&dev, PanelRequest::SetDebounce(30)).is_err());
    let v = request_actions(&dev, PanelRequest::SetMotionSync(false)).unwrap();
    assert!(matches!(v.last(), Some(DeviceAction::Write(_))));
    let reqs = apply_settings_to_device(&Settings::default());
    assert_eq!(reqs.len(), 7);
    assert_eq!(reqs[0], PanelRequest::SetPollingRate(PollingRate::Hz2000));
    assert_eq!(reqs[1], PanelRequest::SetLod(LiftOffDistance::Medium));
    assert_eq!(reqs[2], PanelRequest::SetDebounce(2));
}

#[test]
fn toggle_pressed_twice_is_restored() {
    let mut app = connected(1600);
    goto(&mut app, SettingRow::MotionSync);
    let before = app.settings;
    assert_eq!(app.on_key(KeyInput::Left, false, 0), Some(PanelRequest::SetMotionSync(!before.motion_sync)));
    assert_eq!(app.on_key(KeyInput::Enter, false, 0), Some(PanelRequest::SetMotionSync(before.motion_sync)));
    assert_eq!(app.settings, before);
}
