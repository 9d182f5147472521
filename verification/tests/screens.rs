use herald::tui::model::month::Date;
use herald::tui::screens::calendar::CalendarScreen;
use herald::tui::screens::contacts::ContactsScreen;
use herald::tui::types::{ContactEntry, EventEntry};
use herald::tui::state::{action_label, Panel, PendingAction};

fn ev(id: &str, start: &str, title: &str) -> EventEntry {
    EventEntry {
        id: id.into(),
        title: title.into(),
        start: start.into(),
        duration: "PT1H".into(),
        status: "confirmed".into(),
    }
}

fn on(date: Date) -> CalendarScreen {
    let mut s = CalendarScreen::new();
    s.selected = date;
    s
}

#[test]
fn agenda_shows_only_selected_day_sorted() {
    let mut s = on(Date { year: 2026, month: 7, day: 13 });
    s.on_loaded(vec![
        ev("b", "2026-07-13T14:00:00", "Dentist"),
        ev("a", "2026-07-13T09:00:00", "Standup"),
        ev("c", "2026-07-14T09:00:00", "Other day"),
    ]);
    let agenda = s.agenda();
    assert_eq!(agenda.len(), 2);
    assert_eq!(agenda[0].title, "Standup");
    assert_eq!(agenda[1].title, "Dentist");
}

#[test]
fn day_markers_and_navigation() {
    let mut s = on(Date { year: 2026, month: 7, day: 13 });
    s.on_loaded(vec![ev("a", "2026-07-16T10:00:00", "X")]);
    assert!(s.day_has_events(16));
    assert!(!s.day_has_events(15));
    s.move_days(3);
    assert_eq!(s.selected.day, 16);
    assert_eq!(s.selected_event().unwrap().title, "X");
    s.move_months(1);
    assert_eq!(s.selected.month, 8);
    assert!(s.agenda().is_empty());
}

#[test]
fn agenda_selection_resets_on_day_change() {
    let mut s = on(Date { year: 2026, month: 7, day: 13 });
    s.on_loaded(vec![ev("a", "2026-07-13T09:00:00", "A"), ev("b", "2026-07-13T10:00:00", "B")]);
    s.select_next();
    assert_eq!(s.selected_event().unwrap().id, "b");
    s.move_days(1);
    assert_eq!(s.win.selected(), 0);
}

#[test]
fn events_without_time_are_handled() {
    let mut s = on(Date { year: 2026, month: 7, day: 13 });
    s.on_loaded(vec![ev("a", "", "no start")]);
    assert!(s.agenda().is_empty(), "event without a date is not on any day");
}

#[test]
fn equal_starts_keep_load_order() {
    let mut s = on(Date { year: 2026, month: 7, day: 13 });
    s.on_loaded(vec![
        ev("x", "2026-07-13T09:00:00", "first"),
        ev("y", "2026-07-13T09:00:00", "second"),
        ev("w", "2026-07-13T08:00:00", "early"),
    ]);
    let ids: Vec<&str> = s.agenda().iter().map(|e| e.id.as_str()).collect();
    assert_eq!(ids, vec!["w", "x", "y"]);
    s.select_prev();
    assert_eq!(s.selected_event().unwrap().id, "w");
}

fn c(id: &str, name: &str, email: &str) -> ContactEntry {
    ContactEntry { id: id.into(), name: name.into(), email: email.into(), phone: String::new() }
}

#[test]
fn filter_matches_name_and_email() {
    let mut s = ContactsScreen::new();
    s.on_loaded(vec![c("1", "Alice Example", "alice@example.com"), c("2", "Bob Meyer", "bob@meyer.de")]);
    s.set_query("meyer");
    assert_eq!(s.filtered().len(), 1);
    assert_eq!(s.selected().unwrap().id, "2");
    s.set_query("ALICE");
    assert_eq!(s.filtered().len(), 1);
    s.set_query("");
    assert_eq!(s.filtered().len(), 2);
}

#[test]
fn selection_survives_reload() {
    let mut s = ContactsScreen::new();
    s.on_loaded(vec![c("1", "A", ""), c("2", "B", ""), c("3", "C", "")]);
    s.select_next();
    s.select_next();
    assert_eq!(s.selected().unwrap().id, "3");
    s.on_loaded(vec![c("0", "Z", ""), c("1", "A", ""), c("3", "C", "")]);
    assert_eq!(s.selected().unwrap().id, "3");
}

#[test]
fn selection_clamps_when_filter_shrinks() {
    let mut s = ContactsScreen::new();
    s.on_loaded(vec![c("1", "A", ""), c("2", "B", ""), c("3", "AB", "")]);
    s.select_next();
    s.select_next();
    s.set_query("A");
    s.win.clamp(s.filtered().len());
    assert!(s.selected().is_some());
}

#[test]
fn phone_matches_as_typed() {
    let mut s = ContactsScreen::new();
    let mut x = c("1", "Carl", "");
    x.phone = "+49 30 1234".into();
    s.on_loaded(vec![x, c("2", "Dora", "dora@x.org")]);
    s.set_query("30 12");
    assert_eq!(s.filtered().len(), 1);
    assert_eq!(s.selected().unwrap().id, "1");
}

#[test]
fn queued_operations_are_labelled_by_kind() {
    let mv = PendingAction::Move {
        email_id: "e".into(),
        source_mailbox_id: "a".into(),
        target_mailbox_id: "b".into(),
        action_name: "Archive".into(),
    };
    assert_eq!(action_label(&mv), "move");
    assert_eq!(action_label(&PendingAction::DeleteContact("c".into())), "contact");
    assert_eq!(action_label(&PendingAction::DeleteEvent("v".into())), "event");
    let send = PendingAction::SendMail {
        to: "t".into(),
        cc: String::new(),
        bcc: String::new(),
        subject: "s".into(),
        body: "b".into(),
    };
    assert_eq!(action_label(&send), "send");
}

#[test]
fn panel_titles_name_each_level() {
    assert_eq!(Panel::Profiles.title(), "Profiles");
    assert_eq!(Panel::Folders.title(), "Folders");
    assert_eq!(Panel::Mails.title(), "Inbox");
    assert_eq!(Panel::Contacts.title(), "Contacts");
    assert_eq!(Panel::Calendar.title(), "Calendar");
    assert_eq!(Panel::Mails.results_title("Work", false), "Work");
    assert_eq!(Panel::Mails.results_title("Work", true), "All Mail");
}
