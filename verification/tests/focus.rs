use win11_clipboard_history::error::ErrorKind;
use win11_clipboard_history::focus_manager::{
    get_focused_window, restore_focused_window, save_focused_window, FocusQuery, FocusStep,
    FocusTracker, RevertTo, CURRENT_TIME, FOCUS_RESTORE_DELAY_MILLIS,
};
use win11_clipboard_history::script::{Directive, Run};

#[test]
fn restore_without_save_has_nothing_to_do() {
    let tracker = FocusTracker::new();
    let e = restore_focused_window(&tracker).unwrap_err();
    assert_eq!(e.kind, ErrorKind::NoPreviousFocus);
    assert_eq!(e.message, "No previous window saved");
}

#[test]
fn failed_saves_leave_the_slot_alone() {
    let mut tracker = FocusTracker::new();
    save_focused_window(&mut tracker, &FocusQuery::ConnectFailed("no display".to_string()));
    assert!(restore_focused_window(&tracker).is_err());
    save_focused_window(&mut tracker, &FocusQuery::Focused(77));
    save_focused_window(&mut tracker, &FocusQuery::RequestFailed("x".to_string()));
    save_focused_window(&mut tracker, &FocusQuery::ReplyFailed("y".to_string()));
    assert_eq!(tracker.last_focused(), 77);
    save_focused_window(&mut tracker, &FocusQuery::Focused(78));
    assert_eq!(tracker.last_focused(), 78);
}

#[test]
fn restore_asks_for_the_saved_window_and_then_waits() {
    let mut tracker = FocusTracker::new();
    save_focused_window(&mut tracker, &FocusQuery::Focused(12345));
    let script = restore_focused_window(&tracker).unwrap();
    assert_eq!(
        script,
        vec![
            FocusStep::Connect,
            FocusStep::SetInputFocus { window: 12345, revert_to: RevertTo::Parent, time: 0 },
            FocusStep::Flush,
            FocusStep::Sleep { millis: 100 },
        ]
    );
    assert_eq!(CURRENT_TIME, 0);
    assert!(FOCUS_RESTORE_DELAY_MILLIS >= 100);
    let mut run = Run::start(script);
    for _ in 0..3 {
        run.report(Ok(()));
        assert!(!matches!(run.directive(), Directive::Finished(_)));
    }
    assert!(matches!(run.directive(), Directive::Perform(FocusStep::Sleep { millis: 100 })));
    run.report(Ok(()));
    assert!(matches!(run.directive(), Directive::Finished(Ok(()))));
    assert_eq!(tracker.last_focused(), 12345);
    assert!(restore_focused_window(&tracker).is_ok());
}

#[test]
fn restore_failures() {
    let mut tracker = FocusTracker::new();
    save_focused_window(&mut tracker, &FocusQuery::Focused(5));
    let expected = ["X11 connect failed: e", "Set focus failed: e", "Flush failed: e"];
    for (failing, message) in expected.iter().enumerate() {
        let mut run = Run::start(restore_focused_window(&tracker).unwrap());
        for _ in 0..failing {
            run.report(Ok(()));
        }
        run.report(Err("e".to_string()));
        match run.directive() {
            Directive::Finished(Err(e)) => {
                assert_eq!(e.kind, ErrorKind::ConnectionFailed);
                assert_eq!(e.message, *message);
            }
            _ => panic!("step {} should have ended the run", failing),
        }
    }
}

#[test]
fn a_saved_zero_counts_as_nothing_saved() {
    let mut tracker = FocusTracker::new();
    save_focused_window(&mut tracker, &FocusQuery::Focused(9));
    save_focused_window(&mut tracker, &FocusQuery::Focused(0));
    assert_eq!(restore_focused_window(&tracker).unwrap_err().kind, ErrorKind::NoPreviousFocus);
}

#[test]
fn query_reads_the_focus_only() {
    assert_eq!(get_focused_window(&FocusQuery::Focused(4242)), Some(4242));
    assert_eq!(get_focused_window(&FocusQuery::ConnectFailed(String::new())), None);
    assert_eq!(get_focused_window(&FocusQuery::RequestFailed(String::new())), None);
    assert_eq!(get_focused_window(&FocusQuery::ReplyFailed(String::new())), None);
}
