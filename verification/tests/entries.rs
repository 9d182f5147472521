use herald::tui::entries::{format_contact, format_event, format_folder, format_mail, CalendarEventEntry, ContactEntry, FolderEntry, MailEntry};
use herald::tui::state::{Mode, Panel};
use herald::tui::statusbar::{hints, spinner_char, Tooltip, Flavor};
use herald::tui::keymap::{KeyMode, Screen};
use herald::tui::screens::mail::MailFocus;
use herald::tui::types::{EventEntry, MailEntry as ListMail};

#[test]
fn entry_formatting() {
    let f = FolderEntry {
        id: "1".into(),
        name: "Inbox".into(),
        parent_id: None,
        role: Some("inbox".into()),
        sort_order: 0,
        total_emails: 5,
        unread_emails: 0,
        display_name: "Inbox".into(),
        depth: 0,
        action_tag: None,
    };
    assert_eq!(format_folder(&f), "Inbox  [inbox]  (5)");
    let m = MailEntry { id: "m".into(), subject: "S".into(), from: "F".into(), date: String::new(), preview: String::new(), folder_name: Some("Box".into()) };
    assert_eq!(format_mail(&m), "[Box] F — S");
    let c = ContactEntry { id: "c".into(), name: "Ann".into(), email: String::new(), phone: String::new() };
    assert_eq!(format_contact(&c), "Ann");
    let c = ContactEntry { email: "a@b".into(), ..c };
    assert_eq!(format_contact(&c), "Ann <a@b>");
    let e = CalendarEventEntry { id: "e".into(), title: "T".into(), start: String::new(), duration: String::new(), status: String::new() };
    assert_eq!(format_event(&e), "T");
    let e = CalendarEventEntry { start: "2026".into(), ..e };
    assert_eq!(format_event(&e), "2026 — T");
}

#[test]
fn modes_and_panels() {
    assert_eq!(Mode::Mail.next(), Mode::Contacts);
    assert_eq!(Mode::Mail.prev(), Mode::Calendar);
    assert_eq!(Mode::Calendar.label(), "Calendar");
    assert_eq!(Panel::Mails.results_title("Work", false), "Work");
    assert_eq!(Panel::Mails.results_title("Work", true), "All Mail");
    assert_eq!(Panel::Folders.results_title("Work", true), "Folders");
}

#[test]
fn status_hints() {
    let h = hints(KeyMode::Confirm, MailFocus::List, true);
    assert_eq!(h.len(), 2);
    assert_eq!((h[0].key, h[0].label), ("y", "confirm"));
    let h = hints(KeyMode::Normal(Screen::Mail), MailFocus::List, true);
    assert_eq!(h.len(), 14);
    assert_eq!(h.last().unwrap().key, "1-0");
    let h = hints(KeyMode::Normal(Screen::Mail), MailFocus::Folders, false);
    assert_eq!(h.len(), 7);
    assert_eq!(spinner_char(0), '⠋');
    assert_eq!(spinner_char(11), '⠙');
    let t = Tooltip::warn("careful".to_string());
    assert_eq!(t.flavor, Flavor::Warning);
}

#[test]
fn list_entries() {
    let m = ListMail { id: "1".into(), subject: String::new(), from: String::new(), date: String::new(), preview: String::new(), folder_id: None, is_read: false };
    assert!(m.is_unread());
    let e = EventEntry { id: "e".into(), title: "t".into(), start: "2026-07-13T09:30:00".into(), duration: "PT1H".into(), status: String::new() };
    assert_eq!(e.start_date(), "2026-07-13");
    assert_eq!(e.start_time(), "09:30");
    let short = EventEntry { start: "2026-07".into(), ..e };
    assert_eq!(short.start_date(), "");
    assert_eq!(short.start_time(), "");
}
