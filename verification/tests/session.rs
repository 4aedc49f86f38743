use win11_clipboard_history::session::{
    get_session_type, init, is_wayland, is_x11, parse_session_type, SessionCache, SessionEnv,
    SessionType,
};

fn env_of(session_type: Option<&str>, wayland_display: bool, display: bool) -> SessionEnv {
    SessionEnv { session_type: session_type.map(|s| s.to_string()), wayland_display, display }
}

#[test]
fn test_session_cache() {
    let mut cache = SessionCache::new();
    let env = env_of(Some("x11"), false, true);
    let first = get_session_type(&mut cache, &env);
    let second = get_session_type(&mut cache, &env);
    assert_eq!(first, second);
}

#[test]
fn test_session_detection() {
    let mut cache = SessionCache::new();
    let _ = is_wayland(&mut cache, &env_of(None, false, false));
}

#[test]
fn session_type_signal_names_wayland() {
    let env = env_of(Some("wayland"), false, false);
    assert_eq!(SessionType::detect(&env), (SessionType::Wayland, "XDG_SESSION_TYPE"));
    let mut cache = SessionCache::new();
    assert_eq!(get_session_type(&mut cache, &env), SessionType::Wayland);
}

#[test]
fn session_type_signal_ignores_case_and_space() {
    assert_eq!(parse_session_type("  WayLand\n"), Some(SessionType::Wayland));
    assert_eq!(parse_session_type("X11"), Some(SessionType::X11));
    assert_eq!(parse_session_type("\u{3000}x11\u{a0}"), Some(SessionType::X11));
    assert_eq!(parse_session_type("tty"), None);
    assert_eq!(parse_session_type(""), None);
    assert_eq!(parse_session_type("way land"), None);
    assert_eq!(parse_session_type("x11x"), None);
}

#[test]
fn session_type_signal_wins_over_displays() {
    let env = env_of(Some("x11"), true, true);
    assert_eq!(SessionType::detect(&env), (SessionType::X11, "XDG_SESSION_TYPE"));
}

#[test]
fn unknown_signal_value_falls_back_to_displays() {
    assert_eq!(
        SessionType::detect(&env_of(Some("tty"), true, true)),
        (SessionType::Wayland, "WAYLAND_DISPLAY")
    );
    assert_eq!(
        SessionType::detect(&env_of(Some("mir"), false, true)),
        (SessionType::X11, "DISPLAY")
    );
    assert_eq!(SessionType::detect(&env_of(None, true, false)).0, SessionType::Wayland);
}

#[test]
fn no_signals_give_unknown() {
    let env = env_of(None, false, false);
    assert_eq!(SessionType::detect(&env), (SessionType::Unknown, "None"));
    let mut cache = SessionCache::new();
    assert!(!is_wayland(&mut cache, &env));
    assert!(!is_x11(&mut cache, &env));
}

#[test]
fn later_environment_does_not_change_the_answer() {
    let mut cache = SessionCache::new();
    assert_eq!(cache.known(), None);
    init(&mut cache, &env_of(Some("wayland"), false, false));
    assert_eq!(cache.known(), Some(SessionType::Wayland));
    let changed = env_of(Some("x11"), false, true);
    assert_eq!(get_session_type(&mut cache, &changed), SessionType::Wayland);
    assert!(is_wayland(&mut cache, &changed));
    assert!(!is_x11(&mut cache, &env_of(None, false, false)));
}
