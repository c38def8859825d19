use lightcrazy::settings::Settings;
use lightcrazy::ui::app::{App, Connection, DeviceReply, KeyInput, PanelRequest, SettingRow};
use lightcrazy::ui::render::{
    battery_color, battery_gauge, connection_label, footer, interval_label, row_height, row_label,
    row_name, row_value, setting_description, BatteryColor, FooterTone, FOOTER_HINT,
};

fn stored() -> Settings {
    Settings {
        polling_rate: 0x20,
        lod: 2,
        debounce_ms: 4,
        angle_snap: true,
        ripple_control: false,
        motion_sync: true,
        turbo_mode: false,
        notification_threshold: 15,
        battery_interval_secs: 120,
    }
}

#[test]
fn interval_labels() {
    assert_eq!(interval_label(30), "30 s");
    assert_eq!(interval_label(60), "1 m");
    assert_eq!(interval_label(600), "10 m");
    assert_eq!(interval_label(150), "2 m 30 s");
    assert_eq!(interval_label(0), "0 s");
}

#[test]
fn battery_colors() {
    assert_eq!(battery_color(10), BatteryColor::Red);
    assert_eq!(battery_color(11), BatteryColor::Yellow);
    assert_eq!(battery_color(25), BatteryColor::Yellow);
    assert_eq!(battery_color(26), BatteryColor::Green);
}

#[test]
fn battery_gauge_layout() {
    let g = battery_gauge(50, false, 30);
    assert_eq!(g.text, " 50 % ");
    assert_eq!(g.filled + g.empty, 24);
    assert_eq!(g.filled, 12);
    let g = battery_gauge(100, true, 30);
    assert_eq!(g.text, "100 % ⚡ ");
    assert_eq!(g.filled, 20);
    assert_eq!(g.empty, 0);
    let g = battery_gauge(7, false, 3);
    assert_eq!(g.text, "  7 % ");
    assert_eq!(g.filled + g.empty, 0);
}

#[test]
fn rows_and_help() {
    assert_eq!(row_height(&SettingRow::Dpi), 2);
    assert_eq!(row_height(&SettingRow::AngleSnap), 1);
    let (title, body) = setting_description(SettingRow::BatteryInterval);
    assert_eq!(title, "Battery Interval");
    assert!(body.starts_with("How often the background tray service polls"));
    assert_eq!(setting_description(SettingRow::NotificationThreshold).0, "Alert Threshold");
}

#[test]
fn row_names_and_labels() {
    assert_eq!(row_name(SettingRow::LiftOffDistance), "Lift-Off Distance");
    assert_eq!(row_name(SettingRow::NotificationThreshold), "Alert Threshold");
    assert_eq!(row_label(true, SettingRow::Dpi), " › DPI");
    assert_eq!(row_label(false, SettingRow::TurboMode), "   Turbo Mode");
}

#[test]
fn row_values_show_pending_and_stored_values() {
    let conn = Connection { path: "/dev/hidraw1".to_string(), wired: true, firmware: None, dpi: 3200 };
    let app = App::new(stored(), Some(conn));
    assert_eq!(row_value(&app, SettingRow::Dpi), "3200  ");
    assert_eq!(row_value(&app, SettingRow::PollingRate), "4000 Hz  ");
    assert_eq!(row_value(&app, SettingRow::Debounce), "4 ms  ");
    assert_eq!(row_value(&app, SettingRow::LiftOffDistance), "2 mm  ");
    assert_eq!(row_value(&app, SettingRow::AngleSnap), "☑ ");
    assert_eq!(row_value(&app, SettingRow::RippleControl), "☐ ");
    assert_eq!(row_value(&app, SettingRow::MotionSync), "☑ ");
    assert_eq!(row_value(&app, SettingRow::TurboMode), "☐ ");
    assert_eq!(row_value(&app, SettingRow::NotificationThreshold), "15 %  ");
    assert_eq!(row_value(&app, SettingRow::BatteryInterval), "2 m  ");
}

#[test]
fn row_value_follows_the_pending_slider() {
    let mut app = App::new(stored(), None);
    assert_eq!(row_value(&app, SettingRow::Dpi), "1600  ");
    app.on_key(KeyInput::Right, false, 0);
    assert_eq!(row_value(&app, SettingRow::Dpi), "3200  ");
    assert_eq!(app.dpi, 1600);
}

#[test]
fn header_and_footer() {
    let wired = App::new(stored(), Some(Connection { path: String::new(), wired: true, firmware: None, dpi: 800 }));
    let wireless = App::new(stored(), Some(Connection { path: String::new(), wired: false, firmware: None, dpi: 800 }));
    let mut none = App::new(stored(), None);
    assert_eq!(connection_label(&wired), "wired");
    assert_eq!(connection_label(&wireless), "wireless");
    assert_eq!(connection_label(&none), "not connected");

    assert_eq!(footer(&none), (FOOTER_HINT, FooterTone::Hint));
    none.finish(PanelRequest::SetDpi(800), DeviceReply::NoDevice, 5);
    assert_eq!(footer(&none), ("No device", FooterTone::Error));
    none.set_status("DPI → 800".to_string(), false, 6);
    assert_eq!(footer(&none), ("DPI → 800", FooterTone::Success));
}
