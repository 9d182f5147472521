use herald::tui::keymap::{map_key, KeyCode, KeyEvent, KeyMode, KeyModifiers, Screen};
use herald::tui::messages::Command;

fn key(code: KeyCode) -> KeyEvent {
    KeyEvent::new(code, KeyModifiers::none())
}

#[test]
fn quit_dialog_only_enter_confirms() {
    assert_eq!(map_key(key(KeyCode::Enter), KeyMode::QuitDialog), Command::ConfirmYes);
    for k in [KeyCode::Char('l'), KeyCode::Right, KeyCode::Char('y')] {
        assert_eq!(map_key(key(k), KeyMode::QuitDialog), Command::ConfirmNo);
    }
}

#[test]
fn esc_maps_per_mode() {
    let normal = KeyMode::Normal(Screen::Mail);
    assert_eq!(map_key(key(KeyCode::Esc), normal), Command::Escape);
    assert_eq!(map_key(key(KeyCode::Esc), KeyMode::Search), Command::CancelSearch);
    assert_eq!(map_key(key(KeyCode::Esc), KeyMode::Popup), Command::MinimizePopup);
    assert_eq!(map_key(key(KeyCode::Esc), KeyMode::Editing), Command::EditorEscape);
    assert_eq!(map_key(key(KeyCode::Esc), KeyMode::Confirm), Command::ConfirmNo);
}

#[test]
fn calendar_gets_day_month_navigation() {
    let cal = KeyMode::Normal(Screen::Calendar);
    assert_eq!(map_key(key(KeyCode::Char('h')), cal), Command::DayPrev);
    assert_eq!(map_key(key(KeyCode::Char('l')), cal), Command::DayNext);
    assert_eq!(map_key(key(KeyCode::Char('H')), cal), Command::MonthPrev);
    assert_eq!(map_key(key(KeyCode::Char('L')), cal), Command::MonthNext);
    assert_eq!(map_key(key(KeyCode::Char('t')), cal), Command::Today);
    let mail = KeyMode::Normal(Screen::Mail);
    assert_eq!(map_key(key(KeyCode::Char('h')), mail), Command::FocusLeft);
}

#[test]
fn digits_toggle_popups_in_normal_and_popup_modes() {
    for mode in [KeyMode::Normal(Screen::Mail), KeyMode::Popup] {
        assert_eq!(map_key(key(KeyCode::Char('1')), mode), Command::TogglePopup(0));
        assert_eq!(map_key(key(KeyCode::Char('0')), mode), Command::TogglePopup(9));
    }
    assert_eq!(map_key(key(KeyCode::Char('1')), KeyMode::Search), Command::InsertChar('1'));
}

#[test]
fn search_enter_submits() {
    assert_eq!(map_key(key(KeyCode::Enter), KeyMode::Search), Command::SubmitInput);
}

#[test]
fn popup_submit_and_close() {
    assert_eq!(map_key(key(KeyCode::Char('s')), KeyMode::Popup), Command::Submit);
    assert_eq!(map_key(key(KeyCode::Char('x')), KeyMode::Popup), Command::ClosePopup);
}

#[test]
fn ctrl_c_always_quits() {
    let ctrl_c = KeyEvent::new(KeyCode::Char('c'), KeyModifiers::control());
    for mode in [
        KeyMode::Normal(Screen::Mail),
        KeyMode::Search,
        KeyMode::Popup,
        KeyMode::Editing,
        KeyMode::Confirm,
        KeyMode::QuitDialog,
    ] {
        assert_eq!(map_key(ctrl_c, mode), Command::Quit);
    }
}

#[test]
fn screen_cycle() {
    assert_eq!(Screen::Mail.next(), Screen::Contacts);
    assert_eq!(Screen::Calendar.next(), Screen::Mail);
    assert_eq!(Screen::Mail.prev(), Screen::Calendar);
}

#[test]
fn screen_labels_and_order() {
    assert_eq!(Screen::all(), [Screen::Mail, Screen::Contacts, Screen::Calendar]);
    assert_eq!(Screen::Contacts.label(), "Contacts");
    for s in Screen::all() {
        assert_eq!(s.next().prev(), s);
    }
}

#[test]
fn shifted_letters_are_typed_but_ctrl_is_not() {
    let shift_a = KeyEvent::new(KeyCode::Char('A'), KeyModifiers::shift());
    assert_eq!(map_key(shift_a, KeyMode::Search), Command::InsertChar('A'));
    assert_eq!(map_key(shift_a, KeyMode::Editing), Command::EditorChar('A'));
    let ctrl_u = KeyEvent::new(KeyCode::Char('u'), KeyModifiers::control());
    assert_eq!(map_key(ctrl_u, KeyMode::Search), Command::ClearInput);
    assert_eq!(map_key(ctrl_u, KeyMode::Editing), Command::NoOp);
    assert_eq!(map_key(ctrl_u, KeyMode::Normal(Screen::Mail)), Command::NoOp);
}

#[test]
fn data_commands_are_marked() {
    assert!(Command::LoadFolders.is_data());
    assert!(Command::DeleteEvent("x".into()).is_data());
    assert!(!Command::MarkMailRead("x".into()).is_data());
    assert!(!Command::Quit.is_data());
}
