use win11_clipboard_history::error::ErrorKind;
use win11_clipboard_history::input_simulator::xdotool::{simulate_paste_xdotool, XdotoolDirective};
use win11_clipboard_history::subprocess::{arguments, Launch, Output};

fn output(success: bool, stdout: &str, stderr: &str) -> Output {
    Output { success, stdout: stdout.to_string(), stderr: stderr.to_string() }
}

fn expect_run(directive: XdotoolDirective, args: &[&str]) {
    match directive {
        XdotoolDirective::Run(command) => {
            assert_eq!(command.program, "xdotool");
            assert_eq!(command.args, args);
            assert!(command.env.is_empty());
            assert_eq!(command.input, None);
            assert_eq!(command.launch, Launch::Wait);
        }
        other => panic!("unexpected directive {:?}", other),
    }
}

fn expect_error(directive: XdotoolDirective, kind: ErrorKind, message: &str) {
    match directive {
        XdotoolDirective::Finished(Err(e)) => {
            assert_eq!(e.kind, kind);
            assert_eq!(e.message, message);
        }
        other => panic!("unexpected directive {:?}", other),
    }
}

#[test]
fn keys_go_to_the_window_that_was_named() {
    let mut run = simulate_paste_xdotool();
    expect_run(run.directive(), &["getwindowfocus"]);
    run.report(Ok(output(true, "  41943047\n", "")));
    expect_run(
        run.directive(),
        &["key", "--window", "41943047", "--clearmodifiers", "ctrl+v"],
    );
    run.report(Ok(output(true, "", "")));
    assert!(matches!(run.directive(), XdotoolDirective::Finished(Ok(()))));
    run.report(Err("late".to_string()));
    assert!(matches!(run.directive(), XdotoolDirective::Finished(Ok(()))));
}

#[test]
fn focus_query_failures() {
    let mut run = simulate_paste_xdotool();
    run.report(Err("not found".to_string()));
    expect_error(
        run.directive(),
        ErrorKind::SubprocessSpawnFailed,
        "Failed to run xdotool getwindowfocus: not found",
    );
    let mut run = simulate_paste_xdotool();
    run.report(Ok(output(false, "123", "no display")));
    expect_error(
        run.directive(),
        ErrorKind::SubprocessExitedWithError,
        "xdotool getwindowfocus failed",
    );
}

#[test]
fn key_command_failures() {
    let mut run = simulate_paste_xdotool();
    run.report(Ok(output(true, "7", "")));
    run.report(Err("gone".to_string()));
    expect_error(
        run.directive(),
        ErrorKind::SubprocessSpawnFailed,
        "Failed to run xdotool key: gone",
    );
    let mut run = simulate_paste_xdotool();
    run.report(Ok(output(true, "7", "")));
    run.report(Ok(output(false, "", "BadWindow")));
    expect_error(
        run.directive(),
        ErrorKind::SubprocessExitedWithError,
        "xdotool key failed: BadWindow",
    );
}

#[test]
fn arguments_are_copied_in_order() {
    assert_eq!(arguments(&["a", "", "b c"]), vec!["a", "", "b c"]);
    assert!(arguments(&[]).is_empty());
}
