use lightcrazy::device::protocol::MouseStatus;
use lightcrazy::tray::launch::{launch_order, nix_candidates, term_hint, terminal_command};
use lightcrazy::tray::menu::BatteryContext;
use lightcrazy::tray::watcher::{lists_watcher, watcher_wait_step, WatcherWait, WATCHER_NAME, WATCHER_TIMEOUT_MS};
use std::time::Instant;

#[test]
fn tray_texts_before_and_after_reading() {
    let mut ctx = BatteryContext::default();
    assert_eq!(ctx.title(), "Pulsar X2: reading...");
    assert_eq!(ctx.tool_tip(), ("Pulsar X2".to_string(), "Reading battery...".to_string()));
    assert_eq!(ctx.battery_label(), "Battery: reading...");
    let notify = ctx.apply_reading(MouseStatus { battery_level: 87, is_charging: true }, 20);
    assert!(!notify);
    assert_eq!(ctx.battery, Some((87, true)));
    assert_eq!(ctx.title(), "Pulsar X2: 87%");
    assert_eq!(ctx.tool_tip(), ("Pulsar X2: 87%".to_string(), "Charging".to_string()));
    assert_eq!(ctx.battery_label(), "Battery: 87% ⚡");
    ctx.apply_reading(MouseStatus { battery_level: 5, is_charging: false }, 20);
    assert_eq!(ctx.battery_label(), "Battery: 5%");
    assert_eq!(ctx.tool_tip().1, "Discharging");
}

#[test]
fn reading_alerts_on_drop_below_threshold() {
    let mut ctx = BatteryContext::default();
    assert!(!ctx.apply_reading(MouseStatus { battery_level: 30, is_charging: false }, 20));
    assert!(ctx.apply_reading(MouseStatus { battery_level: 19, is_charging: false }, 20));
    assert!(!ctx.apply_reading(MouseStatus { battery_level: 19, is_charging: false }, 20));
    ctx.notifications.last_low_battery = Some(Instant::now());
    assert!(!ctx.apply_reading(MouseStatus { battery_level: 10, is_charging: false }, 20));
}

#[test]
fn first_reading_below_threshold_alerts() {
    let mut ctx = BatteryContext::default();
    assert!(ctx.apply_reading(MouseStatus { battery_level: 15, is_charging: false }, 20));
}

#[test]
fn term_hints() {
    assert_eq!(term_hint("xterm-kitty"), Some("kitty"));
    assert_eq!(term_hint("foot-extra"), Some("foot"));
    assert_eq!(term_hint("xterm-ghostty"), Some("ghostty"));
    assert_eq!(term_hint("xterm-256color"), None);
}

#[test]
fn terminals_tried_in_order_without_repeats() {
    assert_eq!(
        launch_order(Some("foot"), Some("xterm-kitty")),
        vec!["foot", "kitty", "alacritty", "wezterm", "ghostty", "konsole", "gnome-terminal", "xterm"]
    );
    assert_eq!(
        launch_order(Some(""), Some("alacritty")),
        vec!["alacritty", "kitty", "wezterm", "ghostty", "foot", "konsole", "gnome-terminal", "xterm"]
    );
    assert_eq!(launch_order(Some("kitty"), Some("xterm-kitty"))[..2], ["kitty", "alacritty"]);
    assert_eq!(launch_order(None, None).len(), 8);
    assert_eq!(launch_order(Some("/opt/st"), None)[0], "/opt/st");
}

#[test]
fn terminal_command_lines() {
    let extra = ["--options"];
    assert_eq!(terminal_command("kitty", "/bin/lc", &extra), vec!["kitty", "-e", "/bin/lc", "--options"]);
    assert_eq!(terminal_command("foot", "/bin/lc", &extra), vec!["foot", "/bin/lc", "--options"]);
    assert_eq!(terminal_command("wezterm", "lc", &extra), vec!["wezterm", "start", "--", "lc", "--options"]);
    assert_eq!(terminal_command("gnome-terminal", "lc", &extra), vec!["gnome-terminal", "--", "lc", "--options"]);
    assert_eq!(terminal_command("/nix/bin/st", "lc", &extra), vec!["/nix/bin/st", "-e", "lc", "--options"]);
}

#[test]
fn nix_profile_candidates() {
    let skip = vec!["kitty".to_string()];
    let c = nix_candidates("bob", "/home/bob", &skip);
    assert_eq!(c.len(), 7 * 4);
    assert_eq!(c[0], "/etc/profiles/per-user/bob/bin/alacritty");
    assert_eq!(c[1], "/home/bob/.nix-profile/bin/alacritty");
    assert_eq!(c[2], "/run/current-system/sw/bin/alacritty");
    assert_eq!(c[3], "/nix/var/nix/profiles/default/bin/alacritty");
    assert_eq!(c[4], "/etc/profiles/per-user/bob/bin/foot");
    assert!(!c.iter().any(|p| p.ends_with("/kitty")));
}

#[test]
fn launch_order_never_repeats_a_terminal() {
    for explicit in [None, Some(""), Some("kitty"), Some("foot"), Some("/opt/st")] {
        for term in [None, Some("xterm-kitty"), Some("foot-extra"), Some("ghostty"), Some("xterm-256color")] {
            let order = launch_order(explicit, term);
            for i in 0..order.len() {
                for j in (i + 1)..order.len() {
                    assert_ne!(order[i], order[j], "{:?} {:?}", explicit, term);
                }
            }
        }
    }
}

#[test]
fn waiting_for_the_tray_watcher() {
    let names = vec![":1.4".to_string(), "org.freedesktop.Notifications".to_string()];
    assert!(!lists_watcher(&names));
    let mut with = names.clone();
    with.push(WATCHER_NAME.to_string());
    assert!(lists_watcher(&with));
    assert!(!lists_watcher(&Vec::new()));
    assert_eq!(watcher_wait_step(true, 0, WATCHER_TIMEOUT_MS), WatcherWait::Ready);
    assert_eq!(watcher_wait_step(true, 40_000, WATCHER_TIMEOUT_MS), WatcherWait::Ready);
    assert_eq!(watcher_wait_step(false, 29_999, WATCHER_TIMEOUT_MS), WatcherWait::Retry);
    assert_eq!(watcher_wait_step(false, 30_000, WATCHER_TIMEOUT_MS), WatcherWait::GiveUp);
}
