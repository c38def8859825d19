use lightcrazy::lock::{lock_path, LockEnv, DEVICE_LOCK, TRAY_LOCK, UI_LOCK};

fn envs() -> Vec<LockEnv> {
    vec![
        LockEnv { runtime_dir: Some("/run/user/1000".to_string()), run_exists: true, uid: None, user: None },
        LockEnv { runtime_dir: None, run_exists: true, uid: Some("1000".to_string()), user: None },
        LockEnv { runtime_dir: None, run_exists: true, uid: None, user: None },
        LockEnv { runtime_dir: None, run_exists: false, uid: None, user: Some("alice".to_string()) },
        LockEnv { runtime_dir: None, run_exists: false, uid: None, user: None },
    ]
}

#[test]
fn test_lock_paths_are_distinct() {
    for env in envs() {
        let tray = lock_path("lightcrazy-tray", &env);
        let ui = lock_path("lightcrazy-ui", &env);
        let device = lock_path("lightcrazy-device", &env);
        assert_ne!(tray, ui);
        assert_ne!(tray, device);
        assert_ne!(ui, device);
    }
}

#[test]
fn test_lock_paths_end_with_lock() {
    for env in envs() {
        for name in &["lightcrazy-tray", "lightcrazy-ui", "lightcrazy-device"] {
            assert!(lock_path(name, &env).ends_with(".lock"));
        }
    }
}

#[test]
fn lock_paths_per_environment() {
    let e = envs();
    assert_eq!(lock_path(TRAY_LOCK, &e[0]), "/run/user/1000/lightcrazy-tray.lock");
    assert_eq!(lock_path(UI_LOCK, &e[1]), "/run/user/1000/lightcrazy-ui.lock");
    assert_eq!(lock_path(DEVICE_LOCK, &e[2]), "/run/user/0/lightcrazy-device.lock");
    assert_eq!(lock_path(TRAY_LOCK, &e[3]), "/tmp/lightcrazy-tray-alice.lock");
    assert_eq!(lock_path(TRAY_LOCK, &e[4]), "/tmp/lightcrazy-tray-unknown.lock");
    let trailing = LockEnv { runtime_dir: Some("/run/user/7/".to_string()), run_exists: false, uid: None, user: None };
    assert_eq!(lock_path(UI_LOCK, &trailing), "/run/user/7/lightcrazy-ui.lock");
}
