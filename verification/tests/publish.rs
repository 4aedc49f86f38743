use win11_clipboard_history::error::{ErrorKind, PasteError};
use win11_clipboard_history::gif_manager::helpers::{
    check_wayland_helper, check_x11_helper, copy_gif_to_clipboard_wayland,
    copy_gif_to_clipboard_x11, copy_url_to_clipboard, file_uri, ClipboardEnv, TextOutcome,
    WAYLAND_SETTLE_MILLIS,
};
use win11_clipboard_history::gif_manager::{
    paste_gif_to_clipboard, paste_gif_to_clipboard_with_uri, PublishDirective, PublishEvent,
};
use win11_clipboard_history::subprocess::{HelperStatus, Launch};

const URL: &str = "https://media.example.com/cat.gif";
const PATH: &str = "/cache/gifs/1.gif";

fn env_of(wayland: Option<&str>, runtime: Option<&str>, display: Option<&str>) -> ClipboardEnv {
    ClipboardEnv {
        wayland_display: wayland.map(|s| s.to_string()),
        xdg_runtime_dir: runtime.map(|s| s.to_string()),
        display: display.map(|s| s.to_string()),
    }
}

fn full_env() -> ClipboardEnv {
    env_of(Some("wayland-0"), Some("/run/user/1000"), Some(":0"))
}

fn pair(a: &str, b: &str) -> (String, String) {
    (a.to_string(), b.to_string())
}

#[test]
fn wayland_helper_plan() {
    let command = copy_gif_to_clipboard_wayland(PATH, &full_env()).unwrap();
    assert_eq!(command.program, "wl-copy");
    assert_eq!(command.args, vec!["--type", "text/uri-list"]);
    assert_eq!(
        command.env,
        vec![pair("WAYLAND_DISPLAY", "wayland-0"), pair("XDG_RUNTIME_DIR", "/run/user/1000")]
    );
    assert_eq!(command.input, Some("file:///cache/gifs/1.gif\n".to_string()));
    assert_eq!(command.launch, Launch::Background { settle_millis: 150 });
    assert_eq!(WAYLAND_SETTLE_MILLIS, 150);
}

#[test]
fn wayland_helper_needs_its_environment() {
    let e = copy_gif_to_clipboard_wayland(PATH, &env_of(None, Some("/run"), Some(":0")))
        .unwrap_err();
    assert_eq!(e.kind, ErrorKind::EnvironmentUnavailable);
    assert_eq!(e.message, "WAYLAND_DISPLAY not set; Wayland clipboard not available");
    let e = copy_gif_to_clipboard_wayland(PATH, &env_of(Some("w"), None, Some(":0")))
        .unwrap_err();
    assert_eq!(e.kind, ErrorKind::EnvironmentUnavailable);
    assert_eq!(e.message, "XDG_RUNTIME_DIR not set; Wayland clipboard not available");
    let e = copy_gif_to_clipboard_wayland(PATH, &env_of(None, None, None)).unwrap_err();
    assert_eq!(e.message, "WAYLAND_DISPLAY not set; Wayland clipboard not available");
}

#[test]
fn x11_helper_plan() {
    let command = copy_gif_to_clipboard_x11(PATH, &full_env()).unwrap();
    assert_eq!(command.program, "xclip");
    assert_eq!(
        command.args,
        vec!["-selection", "clipboard", "-t", "text/uri-list", "-loops", "0"]
    );
    assert_eq!(command.env, vec![pair("DISPLAY", ":0")]);
    assert_eq!(command.input, Some("file:///cache/gifs/1.gif".to_string()));
    assert_eq!(command.launch, Launch::Detached);
    let e = copy_gif_to_clipboard_x11(PATH, &env_of(Some("w"), Some("/run"), None)).unwrap_err();
    assert_eq!(e.kind, ErrorKind::EnvironmentUnavailable);
    assert_eq!(e.message, "DISPLAY not set; X11 clipboard not available");
}

fn detail(result: Result<(), PasteError>) -> (ErrorKind, String) {
    let e = result.unwrap_err();
    (e.kind, e.message)
}

#[test]
fn wayland_helper_health_check() {
    assert!(check_wayland_helper(&HelperStatus::Running).is_ok());
    assert!(check_wayland_helper(&HelperStatus::Exited { success: true, stderr: None }).is_ok());
    assert!(check_wayland_helper(&HelperStatus::Exited {
        success: true,
        stderr: Some("noise".to_string())
    })
    .is_ok());
    assert_eq!(
        detail(check_wayland_helper(&HelperStatus::Exited {
            success: false,
            stderr: Some("no compositor".to_string())
        })),
        (ErrorKind::SubprocessExitedWithError, "wl-copy failed: no compositor".to_string())
    );
    assert_eq!(
        detail(check_wayland_helper(&HelperStatus::Exited { success: false, stderr: None })),
        (ErrorKind::SubprocessExitedWithError, "wl-copy failed with unknown error".to_string())
    );
    assert_eq!(
        detail(check_wayland_helper(&HelperStatus::SpawnFailed("not found".to_string()))),
        (
            ErrorKind::SubprocessSpawnFailed,
            "Failed to spawn wl-copy: not found. Make sure wl-clipboard is installed."
                .to_string()
        )
    );
    assert_eq!(
        detail(check_wayland_helper(&HelperStatus::WriteFailed("pipe".to_string()))),
        (ErrorKind::SubprocessSpawnFailed, "Failed to write to wl-copy: pipe".to_string())
    );
    assert_eq!(
        detail(check_wayland_helper(&HelperStatus::CheckFailed("gone".to_string()))),
        (
            ErrorKind::SubprocessExitedWithError,
            "Failed to check wl-copy status: gone".to_string()
        )
    );
}

#[test]
fn x11_helper_is_never_looked_at_again() {
    assert!(check_x11_helper(&HelperStatus::Running).is_ok());
    assert!(check_x11_helper(&HelperStatus::Exited { success: false, stderr: None }).is_ok());
    assert!(check_x11_helper(&HelperStatus::CheckFailed("x".to_string())).is_ok());
    assert_eq!(
        detail(check_x11_helper(&HelperStatus::SpawnFailed("not found".to_string()))),
        (
            ErrorKind::SubprocessSpawnFailed,
            "Failed to spawn xclip: not found. Make sure xclip is installed.".to_string()
        )
    );
    assert_eq!(
        detail(check_x11_helper(&HelperStatus::WriteFailed("pipe".to_string()))),
        (ErrorKind::SubprocessSpawnFailed, "Failed to write to xclip: pipe".to_string())
    );
}

#[test]
fn plain_text_outcomes() {
    assert!(copy_url_to_clipboard(&TextOutcome::Done).is_ok());
    assert_eq!(
        detail(copy_url_to_clipboard(&TextOutcome::OpenFailed("busy".to_string()))),
        (ErrorKind::PublishFailed, "Failed to open clipboard: busy".to_string())
    );
    assert_eq!(
        detail(copy_url_to_clipboard(&TextOutcome::SetFailed("busy".to_string()))),
        (ErrorKind::PublishFailed, "Failed to set clipboard: busy".to_string())
    );
    assert_eq!(file_uri("/a b.gif"), "file:///a b.gif");
}

fn program_of(directive: PublishDirective) -> String {
    match directive {
        PublishDirective::Launch(command) => command.program,
        other => panic!("unexpected directive {:?}", other),
    }
}

fn published(directive: PublishDirective) -> Option<String> {
    match directive {
        PublishDirective::Finished(Ok(text)) => text,
        other => panic!("unexpected directive {:?}", other),
    }
}

fn failed() -> HelperStatus {
    HelperStatus::SpawnFailed("not found".to_string())
}

#[test]
fn wayland_session_publishes_through_the_wayland_helper() {
    let mut job = paste_gif_to_clipboard_with_uri(URL, true, full_env());
    match job.directive() {
        PublishDirective::Fetch(url) => assert_eq!(url, URL),
        other => panic!("unexpected directive {:?}", other),
    }
    job.report(PublishEvent::Fetched(Ok(PATH.to_string())));
    assert_eq!(program_of(job.directive()), "wl-copy");
    job.report(PublishEvent::Launched(HelperStatus::Running));
    assert_eq!(published(job.directive()), Some("file:///cache/gifs/1.gif".to_string()));
}

#[test]
fn wayland_failure_falls_through_to_x11_and_then_to_plain_text() {
    let mut job = paste_gif_to_clipboard_with_uri(URL, true, full_env());
    job.report(PublishEvent::Fetched(Ok(PATH.to_string())));
    assert_eq!(program_of(job.directive()), "wl-copy");
    job.report(PublishEvent::Launched(failed()));
    assert_eq!(program_of(job.directive()), "xclip");
    job.report(PublishEvent::Launched(failed()));
    match job.directive() {
        PublishDirective::SetText(text) => assert_eq!(text, URL),
        other => panic!("unexpected directive {:?}", other),
    }
    job.report(PublishEvent::TextSet(TextOutcome::Done));
    assert_eq!(published(job.directive()), Some(URL.to_string()));
}

#[test]
fn x11_helper_takes_over_when_wayland_fails() {
    let mut job = paste_gif_to_clipboard_with_uri(URL, true, full_env());
    job.report(PublishEvent::Fetched(Ok(PATH.to_string())));
    job.report(PublishEvent::Launched(HelperStatus::Exited {
        success: false,
        stderr: Some("x".to_string()),
    }));
    assert_eq!(program_of(job.directive()), "xclip");
    job.report(PublishEvent::Launched(HelperStatus::Running));
    assert_eq!(published(job.directive()), Some("file:///cache/gifs/1.gif".to_string()));
}

#[test]
fn missing_wayland_environment_goes_to_x11_at_once() {
    let mut job =
        paste_gif_to_clipboard_with_uri(URL, true, env_of(None, Some("/run"), Some(":1")));
    job.report(PublishEvent::Fetched(Ok(PATH.to_string())));
    assert_eq!(program_of(job.directive()), "xclip");
}

#[test]
fn x11_session_never_tries_the_wayland_helper() {
    let mut job = paste_gif_to_clipboard_with_uri(URL, false, full_env());
    job.report(PublishEvent::Fetched(Ok(PATH.to_string())));
    assert_eq!(program_of(job.directive()), "xclip");
    job.report(PublishEvent::Launched(failed()));
    assert!(matches!(job.directive(), PublishDirective::SetText(_)));
}

#[test]
fn no_helper_at_all_goes_to_plain_text() {
    let mut job = paste_gif_to_clipboard_with_uri(URL, true, env_of(None, None, None));
    job.report(PublishEvent::Fetched(Ok(PATH.to_string())));
    assert!(matches!(job.directive(), PublishDirective::SetText(_)));
}

#[test]
fn failed_fetch_goes_to_plain_text() {
    let mut job = paste_gif_to_clipboard_with_uri(URL, true, full_env());
    job.report(PublishEvent::Fetched(Err(PasteError::fixed(ErrorKind::FetchFailed, "down"))));
    match job.directive() {
        PublishDirective::SetText(text) => assert_eq!(text, URL),
        other => panic!("unexpected directive {:?}", other),
    }
    job.report(PublishEvent::TextSet(TextOutcome::SetFailed("busy".to_string())));
    match job.directive() {
        PublishDirective::Finished(Err(e)) => {
            assert_eq!(e.kind, ErrorKind::PublishFailed);
            assert_eq!(e.message, "Failed to set clipboard: busy");
        }
        other => panic!("unexpected directive {:?}", other),
    }
    job.report(PublishEvent::TextSet(TextOutcome::Done));
    assert!(matches!(job.directive(), PublishDirective::Finished(Err(_))));
}

#[test]
fn publish_events_out_of_turn_change_nothing() {
    let mut job = paste_gif_to_clipboard_with_uri(URL, true, full_env());
    job.report(PublishEvent::Launched(HelperStatus::Running));
    job.report(PublishEvent::TextSet(TextOutcome::Done));
    assert!(matches!(job.directive(), PublishDirective::Fetch(_)));
}

#[test]
fn result_without_the_address() {
    assert!(paste_gif_to_clipboard(Ok(Some("file:///x".to_string()))).is_ok());
    assert!(paste_gif_to_clipboard(Ok(None)).is_ok());
    let e = paste_gif_to_clipboard(Err(PasteError::fixed(ErrorKind::PublishFailed, "m")))
        .unwrap_err();
    assert_eq!((e.kind, e.message.as_str()), (ErrorKind::PublishFailed, "m"));
}
