use win11_clipboard_history::error::ErrorKind;
use win11_clipboard_history::input_simulator::{
    simulate_paste_keystroke, strategies, ChainDirective, PasteKey, PasteStrategy,
    PRE_PASTE_DELAY_MILLIS,
};
use win11_clipboard_history::session::SessionType;

/// Runs a chain against stubs: `works` says which strategies succeed.
fn drive(session: SessionType, works: &[PasteStrategy]) -> (Vec<PasteStrategy>, Result<(), ErrorKind>) {
    let mut chain = simulate_paste_keystroke(session);
    let mut attempted = Vec::new();
    let mut steps = 0;
    loop {
        steps += 1;
        assert!(steps <= 6, "a chain is over after one report more than it has strategies");
        match chain.directive() {
            ChainDirective::Pause { millis } => {
                assert_eq!(millis, PRE_PASTE_DELAY_MILLIS);
                assert!(attempted.is_empty());
                chain.report(true);
            }
            ChainDirective::Attempt(strategy) => {
                attempted.push(strategy);
                chain.report(works.contains(&strategy));
            }
            ChainDirective::Finished(result) => {
                return (attempted, result.map_err(|e| e.kind));
            }
        }
    }
}

#[test]
fn x11_order_and_fall_through_to_the_virtual_device() {
    assert_eq!(
        strategies(SessionType::X11),
        vec![
            PasteStrategy::XTest,
            PasteStrategy::Xdotool,
            PasteStrategy::Enigo,
            PasteStrategy::Uinput
        ]
    );
    let (attempted, result) = drive(SessionType::X11, &[PasteStrategy::Uinput]);
    assert_eq!(attempted, strategies(SessionType::X11));
    assert_eq!(result, Ok(()));
}

#[test]
fn first_success_short_circuits() {
    let (attempted, result) =
        drive(SessionType::X11, &[PasteStrategy::Xdotool, PasteStrategy::Uinput]);
    assert_eq!(attempted, vec![PasteStrategy::XTest, PasteStrategy::Xdotool]);
    assert_eq!(result, Ok(()));
}

#[test]
fn unknown_session_uses_only_the_session_agnostic_fallbacks() {
    assert_eq!(
        strategies(SessionType::Unknown),
        vec![PasteStrategy::Enigo, PasteStrategy::Uinput]
    );
    assert_eq!(strategies(SessionType::Wayland), strategies(SessionType::Unknown));
    let (attempted, result) = drive(SessionType::Unknown, &[PasteStrategy::Enigo]);
    assert_eq!(attempted, vec![PasteStrategy::Enigo]);
    assert_eq!(result, Ok(()));
    let (attempted, result) = drive(SessionType::Unknown, &[PasteStrategy::Uinput]);
    assert_eq!(attempted, vec![PasteStrategy::Enigo, PasteStrategy::Uinput]);
    assert_eq!(result, Ok(()));
    let (attempted, result) = drive(SessionType::Unknown, &[PasteStrategy::XTest]);
    assert_eq!(attempted, vec![PasteStrategy::Enigo, PasteStrategy::Uinput]);
    assert_eq!(result, Err(ErrorKind::AllStrategiesExhausted));
}

#[test]
fn exhausted_chain_says_so() {
    let mut chain = simulate_paste_keystroke(SessionType::X11);
    for _ in 0..5 {
        chain.report(false);
    }
    match chain.directive() {
        ChainDirective::Finished(Err(e)) => {
            assert_eq!(e.kind, ErrorKind::AllStrategiesExhausted);
            assert_eq!(e.message, "All paste methods failed");
        }
        other => panic!("unexpected directive {:?}", other),
    }
    chain.report(true);
    assert!(matches!(chain.directive(), ChainDirective::Finished(Err(_))));
}

#[test]
fn finished_chain_stays_finished() {
    let mut chain = simulate_paste_keystroke(SessionType::Wayland);
    chain.report(true);
    chain.report(true);
    assert!(matches!(chain.directive(), ChainDirective::Finished(Ok(()))));
    chain.report(false);
    assert!(matches!(chain.directive(), ChainDirective::Finished(Ok(()))));
}

#[test]
fn strategy_names_and_key_codes() {
    assert_eq!(PasteStrategy::XTest.name(), "XTest");
    assert_eq!(PasteStrategy::Xdotool.name(), "xdotool");
    assert_eq!(PasteStrategy::Enigo.name(), "enigo");
    assert_eq!(PasteStrategy::Uinput.name(), "uinput");
    assert_eq!(PasteKey::LeftCtrl.code(), 29);
    assert_eq!(PasteKey::V.code(), 47);
    assert_eq!(PasteKey::LeftCtrl.x11_keycode(), 37);
    assert_eq!(PasteKey::V.x11_keycode(), 55);
}
