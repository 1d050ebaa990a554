use scan_console::{interpret, Command, Event, KeyCode, KeyEvent, Mode, CONTROL, NO_MODIFIERS, SHIFT};

const MODES: [Mode; 3] = [Mode::Browsing, Mode::Scanning, Mode::Report];

fn key(code: KeyCode, modifiers: u8) -> Event {
    Event::Key(KeyEvent { code, modifiers })
}

#[test]
fn back_keys_depend_on_the_mode() {
    let back = [
        key(KeyCode::Esc, NO_MODIFIERS),
        key(KeyCode::Char('c'), CONTROL),
        key(KeyCode::Char('q'), NO_MODIFIERS),
    ];
    for event in back {
        assert_eq!(interpret(Mode::Scanning, event), Some(Command::CancelScan));
        assert_eq!(interpret(Mode::Report, event), Some(Command::DismissReport));
        assert_eq!(interpret(Mode::Browsing, event), Some(Command::Quit));
    }
}

#[test]
fn shift_q_is_force_quit_everywhere() {
    for mode in MODES {
        assert_eq!(interpret(mode, key(KeyCode::Char('Q'), SHIFT)), Some(Command::ForceQuit));
    }
}

#[test]
fn control_r_and_control_l_are_bound_everywhere() {
    for mode in MODES {
        assert_eq!(interpret(mode, key(KeyCode::Char('r'), CONTROL)), Some(Command::Refresh));
        assert_eq!(interpret(mode, key(KeyCode::Char('l'), CONTROL)), Some(Command::ClearScreen));
    }
}

#[test]
fn enter_and_arrows_are_bound_in_the_device_list_only() {
    assert_eq!(interpret(Mode::Browsing, key(KeyCode::Enter, NO_MODIFIERS)), Some(Command::StartScan));
    assert_eq!(interpret(Mode::Browsing, key(KeyCode::Up, NO_MODIFIERS)), Some(Command::MoveUp));
    assert_eq!(interpret(Mode::Browsing, key(KeyCode::Down, NO_MODIFIERS)), Some(Command::MoveDown));
    for mode in [Mode::Scanning, Mode::Report] {
        assert_eq!(interpret(mode, key(KeyCode::Enter, NO_MODIFIERS)), None);
        assert_eq!(interpret(mode, key(KeyCode::Up, NO_MODIFIERS)), None);
        assert_eq!(interpret(mode, key(KeyCode::Down, NO_MODIFIERS)), None);
    }
}

#[test]
fn modifiers_must_match_exactly() {
    for mode in MODES {
        assert_eq!(interpret(mode, key(KeyCode::Esc, SHIFT)), None);
        assert_eq!(interpret(mode, key(KeyCode::Esc, CONTROL)), None);
        assert_eq!(interpret(mode, key(KeyCode::Char('c'), NO_MODIFIERS)), None);
        assert_eq!(interpret(mode, key(KeyCode::Char('c'), CONTROL | SHIFT)), None);
        assert_eq!(interpret(mode, key(KeyCode::Char('q'), CONTROL)), None);
        assert_eq!(interpret(mode, key(KeyCode::Char('q'), SHIFT)), None);
        assert_eq!(interpret(mode, key(KeyCode::Char('Q'), NO_MODIFIERS)), None);
        assert_eq!(interpret(mode, key(KeyCode::Char('r'), NO_MODIFIERS)), None);
        assert_eq!(interpret(mode, key(KeyCode::Char('r'), CONTROL | 4)), None);
        assert_eq!(interpret(mode, key(KeyCode::Char('l'), NO_MODIFIERS)), None);
        assert_eq!(interpret(mode, key(KeyCode::Enter, CONTROL)), None);
        assert_eq!(interpret(mode, key(KeyCode::Up, SHIFT)), None);
        assert_eq!(interpret(mode, key(KeyCode::Down, 4)), None);
    }
}

#[test]
fn other_keys_and_events_are_not_bound() {
    for mode in MODES {
        assert_eq!(interpret(mode, key(KeyCode::Other, NO_MODIFIERS)), None);
        assert_eq!(interpret(mode, key(KeyCode::Char('x'), NO_MODIFIERS)), None);
        assert_eq!(interpret(mode, key(KeyCode::Char('R'), CONTROL)), None);
        assert_eq!(interpret(mode, Event::Other), None);
    }
}

#[test]
fn modifier_sets() {
    assert_eq!(NO_MODIFIERS, 0);
    assert_eq!(SHIFT, 1);
    assert_eq!(CONTROL, 2);
}
