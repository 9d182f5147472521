use herald::tui::overlay::{popup_key, Popup, PopupKind, PopupState, Popups, MAX_POPUPS};

fn view(title: &str) -> Popup {
    Popup::view(PopupKind::MailView { email_id: title.to_string() }, title.to_string(), vec![])
}

#[test]
fn open_focuses_new_popup() {
    let mut p = Popups::default();
    p.open(view("a"));
    p.open(view("b"));
    assert_eq!(p.focused, Some(1));
    assert_eq!(p.active_indices(), vec![0, 1]);
}

#[test]
fn toggle_minimizes_and_restores() {
    let mut p = Popups::default();
    p.open(view("a"));
    p.toggle(0);
    assert!(!p.has_active());
    p.toggle(0);
    assert!(p.has_active());
    assert_eq!(p.focused, Some(0));
}

#[test]
fn close_refocuses_last_active() {
    let mut p = Popups::default();
    p.open(view("a"));
    p.open(view("b"));
    let closed = p.close_focused().unwrap();
    assert_eq!(closed.title, "b");
    assert_eq!(p.focused, Some(0));
}

#[test]
fn minimize_all_leaves_no_focus() {
    let mut p = Popups::default();
    p.open(view("a"));
    p.minimize_focused();
    assert_eq!(p.focused, None);
    assert!(!p.has_active());
}

#[test]
fn focus_next_cycles_active_only() {
    let mut p = Popups::default();
    p.open(view("a"));
    p.open(view("b"));
    p.open(view("c"));
    p.toggle(1);
    p.focused = Some(0);
    p.focus_next();
    assert_eq!(p.focused, Some(2), "skips the minimized popup");
    p.focus_next();
    assert_eq!(p.focused, Some(0), "wraps around");
}

#[test]
fn find_prevents_duplicate_views() {
    let mut p = Popups::default();
    p.open(view("a"));
    assert!(p.find(&PopupKind::MailView { email_id: "a".into() }).is_some());
    assert!(p.find(&PopupKind::MailView { email_id: "zzz".into() }).is_none());
}

#[test]
fn capacity_is_bounded() {
    let mut p = Popups::default();
    for i in 0..15 {
        p.open(view(&i.to_string()));
    }
    assert_eq!(p.items.len(), MAX_POPUPS);
}

#[test]
fn oldest_popup_is_dropped_when_full() {
    let mut p = Popups::default();
    for i in 0..11 {
        p.open(view(&i.to_string()));
    }
    assert_eq!(p.items[0].title, "1");
    assert_eq!(p.items[9].title, "10");
    assert_eq!(p.focused, Some(9));
}

#[test]
fn toggle_maximize_flips_and_keeps_focus() {
    let mut p = Popups::default();
    p.open(view("a"));
    p.toggle_maximize();
    assert_eq!(p.items[0].state, PopupState::Maximized);
    p.toggle_maximize();
    assert_eq!(p.items[0].state, PopupState::Active);
    assert_eq!(p.focused, Some(0));
    assert_eq!(p.focused_popup().unwrap().title, "a");
}

#[test]
fn popup_keys_and_kinds() {
    assert_eq!(popup_key(0), '1');
    assert_eq!(popup_key(8), '9');
    assert_eq!(popup_key(9), '0');
    assert!(PopupKind::Compose.is_editor());
    assert!(!PopupKind::Help.is_editor());
    assert_eq!(PopupKind::Help.icon(), "?");
    assert_eq!(view("x").hint, "r reply · f fwd · a archive · d delete · Esc min · x close");
}

#[test]
fn focused_popup_can_be_changed_in_place() {
    let mut p = Popups::default();
    assert!(p.focused_popup_mut().is_none());
    p.open(view("a"));
    p.open(view("b"));
    p.focused_popup_mut().unwrap().title = "renamed".to_string();
    assert_eq!(p.items[1].title, "renamed");
    assert_eq!(p.items[0].title, "a");
}
