use herald::tui::event::{map_key, Action, ConfirmAction, InputMode};
use herald::tui::keymap::{KeyCode, KeyEvent, KeyModifiers};

fn key(code: KeyCode) -> KeyEvent {
    KeyEvent::new(code, KeyModifiers::none())
}

#[test]
fn vi_modes_map_keys() {
    assert_eq!(map_key(key(KeyCode::Char('q')), &InputMode::Normal), Action::Quit);
    assert_eq!(map_key(key(KeyCode::Char('j')), &InputMode::Normal), Action::SelectNext);
    assert_eq!(map_key(key(KeyCode::Char('/')), &InputMode::Normal), Action::EnterInsert);
    assert_eq!(map_key(key(KeyCode::Char('x')), &InputMode::Insert), Action::InsertChar('x'));
    assert_eq!(map_key(key(KeyCode::Enter), &InputMode::Insert), Action::ExecuteCommand);
    assert_eq!(map_key(key(KeyCode::Char('t')), &InputMode::EmailOpen), Action::EditTo);
    assert_eq!(map_key(key(KeyCode::Enter), &InputMode::Editing), Action::EditorNewline);
    let shifted = KeyEvent::new(KeyCode::Char('Q'), KeyModifiers::shift());
    assert_eq!(map_key(shifted, &InputMode::Normal), Action::Nothing);
}

#[test]
fn confirm_needs_y_or_n() {
    let mode = InputMode::Confirm(ConfirmAction::Delete("e1".into()));
    assert_eq!(map_key(key(KeyCode::Char('y')), &mode), Action::ConfirmYes);
    assert_eq!(map_key(key(KeyCode::Esc), &mode), Action::ConfirmNo);
    assert_eq!(map_key(key(KeyCode::Enter), &mode), Action::Nothing);
    let ctrl_c = KeyEvent::new(KeyCode::Char('c'), KeyModifiers::control());
    assert_eq!(map_key(ctrl_c, &mode), Action::Quit);
}

#[test]
fn confirm_action_texts() {
    let a = ConfirmAction::Archive("id7".into());
    assert_eq!(a.prompt(), "Archive this email? [y/n]");
    assert_eq!(a.target_name(), "archive");
    assert_eq!(a.email_id(), "id7");
    assert_eq!(ConfirmAction::Spam("s".into()).target_name(), "spam");
}
