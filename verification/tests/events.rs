use radicle_terminal::events::{
    poll_cycle, InputEvent, Key, KeyCode, KeyEvent, KeyModifiers, MODIFIER_ALT, MODIFIER_CONTROL,
    MODIFIER_NONE, MODIFIER_SHIFT,
};

fn press(code: KeyCode, bits: u8) -> KeyEvent {
    KeyEvent { code, modifiers: KeyModifiers { bits } }
}

#[test]
fn key_codes_become_keys() {
    assert_eq!(Key::from(press(KeyCode::Enter, MODIFIER_NONE)), Key::Enter);
    assert_eq!(Key::from(press(KeyCode::Esc, MODIFIER_NONE)), Key::Esc);
    assert_eq!(Key::from(press(KeyCode::Up, MODIFIER_NONE)), Key::Up);
    assert_eq!(Key::from(press(KeyCode::Down, MODIFIER_NONE)), Key::Down);
    assert_eq!(Key::from(press(KeyCode::Left, MODIFIER_NONE)), Key::Left);
    assert_eq!(Key::from(press(KeyCode::Right, MODIFIER_NONE)), Key::Right);
    assert_eq!(Key::from(press(KeyCode::Backspace, MODIFIER_NONE)), Key::Backspace);
    assert_eq!(Key::from(press(KeyCode::Delete, MODIFIER_NONE)), Key::Delete);
    assert_eq!(Key::from(press(KeyCode::Other, MODIFIER_NONE)), Key::Unknown);
    assert_eq!(Key::from(press(KeyCode::Char('x'), MODIFIER_NONE)), Key::Char('x'));
}

#[test]
fn shift_enter_needs_shift_alone() {
    assert_eq!(Key::from(press(KeyCode::Enter, MODIFIER_SHIFT)), Key::ShiftEnter);
    assert_eq!(Key::from(press(KeyCode::Enter, MODIFIER_SHIFT | MODIFIER_CONTROL)), Key::Enter);
    assert_eq!(Key::from(press(KeyCode::Enter, MODIFIER_ALT)), Key::Enter);
    assert_eq!(Key::from(press(KeyCode::Char('X'), MODIFIER_SHIFT)), Key::Char('X'));
    assert_eq!(Key::from(press(KeyCode::Up, MODIFIER_SHIFT)), Key::Up);
}

#[test]
fn a_poll_cycle_ends_with_one_tick() {
    assert_eq!(poll_cycle(None), vec![InputEvent::Tick]);
    assert_eq!(
        poll_cycle(Some(press(KeyCode::Char('q'), MODIFIER_NONE))),
        vec![InputEvent::Input(Key::Char('q')), InputEvent::Tick]
    );
    assert_eq!(
        poll_cycle(Some(press(KeyCode::Other, MODIFIER_NONE))),
        vec![InputEvent::Input(Key::Unknown), InputEvent::Tick]
    );
}
