use win11_clipboard_history::config_manager::{ConfigManager, MonitorInfo, WindowState};

fn monitor(name: Option<&str>, x: i32, y: i32, width: u32, height: u32, scale: bool) -> MonitorInfo {
    MonitorInfo { name: name.map(|s| s.to_string()), x, y, width, height, scale_positive: scale }
}

fn state_of(manager: &ConfigManager) -> (Option<String>, i32, i32) {
    let state = manager.get_state();
    (state.monitor_name, state.x, state.y)
}

#[test]
fn new_manager_holds_the_default_state() {
    let manager = ConfigManager::new("/data".to_string());
    assert_eq!(state_of(&manager), (None, 0, 0));
    assert!(manager.save_to_disk().is_none());
    assert_eq!(manager.config_path(), "/data/window_state.json");
    let default = WindowState::default();
    assert_eq!((default.monitor_name, default.x, default.y), (None, 0, 0));
}

#[test]
fn update_marks_the_state_for_writing() {
    let mut manager = ConfigManager::new("/data".to_string());
    manager.update_state(Some("HDMI-1".to_string()), 10, -20);
    assert_eq!(state_of(&manager), (Some("HDMI-1".to_string()), 10, -20));
    let request = manager.save_to_disk().unwrap();
    assert_eq!(request.data_dir, "/data");
    assert_eq!(request.path, "/data/window_state.json");
    assert_eq!((request.state.monitor_name, request.state.x, request.state.y),
        (Some("HDMI-1".to_string()), 10, -20));
    manager.sync_to_disk(false);
    assert!(manager.save_to_disk().is_some());
    manager.sync_to_disk(true);
    assert!(manager.save_to_disk().is_none());
    manager.sync_to_disk(true);
    assert!(manager.save_to_disk().is_none());
}

#[test]
fn load_takes_only_a_state_that_was_read() {
    let mut manager = ConfigManager::new("/data".to_string());
    assert_eq!(manager.load(None), Ok(()));
    assert_eq!(state_of(&manager), (None, 0, 0));
    assert_eq!(manager.load(Some(Err("bad json".to_string()))), Err("bad json".to_string()));
    assert_eq!(state_of(&manager), (None, 0, 0));
    let stored = WindowState { monitor_name: Some("eDP-1".to_string()), x: 5, y: 6 };
    assert_eq!(manager.load(Some(Ok(stored))), Ok(()));
    assert_eq!(state_of(&manager), (Some("eDP-1".to_string()), 5, 6));
    assert!(manager.save_to_disk().is_none());
}

#[test]
fn position_validity() {
    let m = monitor(Some("A"), 100, 50, 1920, 1080, true);
    assert!(ConfigManager::is_position_valid(100, 50, &m, 400));
    assert!(ConfigManager::is_position_valid(2019, 929, &m, 400));
    assert!(!ConfigManager::is_position_valid(2020, 50, &m, 400));
    assert!(!ConfigManager::is_position_valid(99, 50, &m, 400));
    assert!(!ConfigManager::is_position_valid(100, 49, &m, 400));
    assert!(!ConfigManager::is_position_valid(100, 930, &m, 400));
    assert!(ConfigManager::is_position_valid(100, 930, &m, 398));
    assert!(!ConfigManager::is_position_valid(100, 50, &m, u32::MAX));
}

#[test]
fn bottom_center_formula() {
    let m = monitor(None, 0, 0, 1920, 1080, true);
    assert_eq!(ConfigManager::calculate_bottom_center(&m, 400, 500), (760, 535));
    let shifted = monitor(None, -1920, 100, 1921, 1081, true);
    assert_eq!(ConfigManager::calculate_bottom_center(&shifted, 401, 500), (-1160, 636));
    let huge = monitor(None, i32::MAX, i32::MIN, u32::MAX, 0, true);
    assert_eq!(
        ConfigManager::calculate_bottom_center(&huge, 0, u32::MAX),
        (i32::MAX, i32::MIN)
    );
}

#[test]
fn stored_position_is_kept_where_it_still_fits() {
    let monitors =
        vec![monitor(Some("A"), 0, 0, 1920, 1080, true), monitor(Some("B"), 1920, 0, 1280, 1024, true)];
    let mut manager = ConfigManager::new("/data".to_string());
    manager.update_state(Some("B".to_string()), 2000, 300);
    assert_eq!(manager.get_valid_position(&monitors, 400, 500), (2000, 300));
    manager.update_state(Some("B".to_string()), 10, 300);
    assert_eq!(manager.get_valid_position(&monitors, 400, 500), (760, 535));
    manager.update_state(Some("C".to_string()), 10, 10);
    assert_eq!(manager.get_valid_position(&monitors, 400, 500), (760, 535));
    manager.update_state(None, 10, 10);
    assert_eq!(manager.get_valid_position(&monitors, 400, 500), (760, 535));
}

#[test]
fn fallback_monitor_is_the_first_usable_one() {
    let monitors = vec![
        monitor(Some("A"), 0, 0, 800, 600, false),
        monitor(Some("B"), 800, 0, 1000, 1000, true),
    ];
    let manager = ConfigManager::new("/data".to_string());
    assert_eq!(manager.get_valid_position(&monitors, 200, 100), (1200, 855));
    let none_usable = vec![monitor(None, 0, 0, 800, 600, false), monitor(None, 1, 1, 1, 1, false)];
    assert_eq!(manager.get_valid_position(&none_usable, 200, 100), (300, 455));
}

#[test]
fn first_monitor_of_a_name_decides() {
    let monitors = vec![
        monitor(Some("A"), 0, 0, 100, 100, true),
        monitor(Some("A"), 0, 0, 5000, 5000, true),
    ];
    let mut manager = ConfigManager::new("/data".to_string());
    manager.update_state(Some("A".to_string()), 500, 500);
    assert_eq!(manager.get_valid_position(&monitors, 10, 10), (45, 45));
}
