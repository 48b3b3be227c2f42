use weather_tui::input::{decide_input, InputAction, InputEvent, KeyInput};

#[test]
fn q_press_quits() {
    let ev = InputEvent::Key { key: KeyInput::Char('q'), pressed: true };
    assert_eq!(decide_input(Some(ev)), InputAction::Quit);
}

#[test]
fn escape_press_quits() {
    let ev = InputEvent::Key { key: KeyInput::Esc, pressed: true };
    assert_eq!(decide_input(Some(ev)), InputAction::Quit);
}

#[test]
fn release_does_not_quit() {
    let ev = InputEvent::Key { key: KeyInput::Char('q'), pressed: false };
    assert_eq!(decide_input(Some(ev)), InputAction::Continue);
    let ev = InputEvent::Key { key: KeyInput::Esc, pressed: false };
    assert_eq!(decide_input(Some(ev)), InputAction::Continue);
}

#[test]
fn other_keys_continue() {
    for key in [KeyInput::Char('Q'), KeyInput::Char('x'), KeyInput::Other] {
        let ev = InputEvent::Key { key, pressed: true };
        assert_eq!(decide_input(Some(ev)), InputAction::Continue);
    }
}

#[test]
fn resize_scales_to_dots() {
    let ev = InputEvent::Resize { columns: 100, rows: 30 };
    assert_eq!(decide_input(Some(ev)), InputAction::Resize { width: 200, height: 120 });
}

#[test]
fn no_event_or_other_event_continues() {
    assert_eq!(decide_input(None), InputAction::Continue);
    assert_eq!(decide_input(Some(InputEvent::Other)), InputAction::Continue);
}
