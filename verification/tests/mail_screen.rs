use herald::tui::screens::mail::{highlight_runs, MailScreen, MAIL_PAGE_SIZE};
use herald::tui::search::MatchedItem;
use herald::tui::types::{FolderEntry, MailEntry};

fn mail(id: &str, from: &str, subject: &str) -> MailEntry {
    MailEntry {
        id: id.into(),
        subject: subject.into(),
        from: from.into(),
        date: "2026-07-13T12:00:00Z".into(),
        preview: "preview".into(),
        folder_id: None,
        is_read: false,
    }
}

/// Loads a page and lets the matcher settle: with no query every mail
/// matches.
fn loaded(screen: &mut MailScreen, count: usize, position: usize) {
    let mails = (0..count)
        .map(|i| mail(&format!("m{}", position + i), "alice", &format!("subj {}", position + i)))
        .collect();
    screen.on_mails_loaded(mails, position, false);
    let n = screen.mails.len() as u32;
    screen.tick(n);
}

fn folder(id: &str) -> FolderEntry {
    FolderEntry {
        id: id.into(),
        name: id.into(),
        parent_id: None,
        role: None,
        sort_order: 0,
        total_emails: 0,
        unread_emails: 0,
        display_name: id.into(),
        depth: 0,
        action_tag: None,
    }
}

#[test]
fn full_page_is_not_exhausted() {
    let mut s = MailScreen::new();
    loaded(&mut s, MAIL_PAGE_SIZE, 0);
    assert!(!s.exhausted);
    loaded(&mut s, 3, MAIL_PAGE_SIZE);
    assert!(s.exhausted);
    assert_eq!(s.mails.len(), MAIL_PAGE_SIZE + 3);
}

#[test]
fn append_skips_duplicates() {
    let mut s = MailScreen::new();
    loaded(&mut s, 5, 0);
    let dup = vec![mail("m0", "alice", "subj 0"), mail("x", "bob", "new")];
    s.on_mails_loaded(dup, 5, false);
    assert_eq!(s.mails.len(), 6);
}

#[test]
fn scrolling_near_end_requests_more() {
    let mut s = MailScreen::new();
    s.win.set_height(10);
    loaded(&mut s, MAIL_PAGE_SIZE, 0);
    let mut wants_more = false;
    for _ in 0..MAIL_PAGE_SIZE {
        wants_more = s.select_next() || wants_more;
    }
    assert!(wants_more, "hitting the bottom must request the next page");
    s.exhausted = true;
    assert!(!s.select_next(), "exhausted list never requests more");
}

#[test]
fn query_flip_detects_scope_change() {
    let mut s = MailScreen::new();
    loaded(&mut s, 5, 0);
    assert!(s.set_query("a"), "entering a query flips to all-folder");
    s.all_folders = true;
    assert!(!s.set_query("ab"), "same scope while typing");
    assert!(s.set_query(""), "clearing flips back");
}

#[test]
fn folder_selection_survives_reload() {
    let mut s = MailScreen::new();
    s.on_folders_loaded(vec![folder("a"), folder("b"), folder("c")]);
    s.folder_win.select(2, 3);
    // reload with an extra folder in front
    s.on_folders_loaded(vec![folder("x"), folder("a"), folder("b"), folder("c")]);
    assert_eq!(s.selected_folder().unwrap().id, "c");
}

#[test]
fn inbox_detection_by_tag_then_role() {
    let mut s = MailScreen::new();
    assert!(s.is_inbox_active(), "no folder yet = default inbox view");
    let mut f = FolderEntry {
        id: "in".into(),
        name: "Inbox".into(),
        parent_id: None,
        role: Some("inbox".into()),
        sort_order: 0,
        total_emails: 0,
        unread_emails: 0,
        display_name: "Inbox".into(),
        depth: 0,
        action_tag: Some("inbox".into()),
    };
    s.on_folders_loaded(vec![f.clone()]);
    s.active_folder_id = Some("in".into());
    assert!(s.is_inbox_active());
    s.active_folder_id = Some("other".into());
    assert!(!s.is_inbox_active());
    f.action_tag = None;
    s.on_folders_loaded(vec![f]);
    s.active_folder_id = Some("in".into());
    assert!(s.is_inbox_active(), "role fallback");
}

#[test]
fn first_page_replaces_list_and_scope() {
    let mut s = MailScreen::new();
    loaded(&mut s, 5, 0);
    s.on_mails_loaded(vec![mail("z", "zed", "only")], 0, true);
    assert_eq!(s.mails.len(), 1);
    assert!(s.all_folders);
    assert!(s.exhausted);
    assert!(!s.loading_more);
}

#[test]
fn appended_page_keeps_order_and_skips_known() {
    let mut s = MailScreen::new();
    loaded(&mut s, 2, 0);
    s.on_mails_loaded(vec![mail("a", "x", "1"), mail("m1", "x", "dup"), mail("b", "x", "2")], 2, false);
    let ids: Vec<&str> = s.mails.iter().map(|m| m.id.as_str()).collect();
    assert_eq!(ids, vec!["m0", "m1", "a", "b"]);
}

#[test]
fn format_mail_names_folder_in_all_folder_view() {
    let mut s = MailScreen::new();
    let mut inbox = folder("in");
    inbox.name = "Inbox".into();
    s.on_folders_loaded(vec![inbox]);
    let mut m = mail("1", "alice", "hello");
    assert_eq!(s.format_mail(&m), "alice — hello");
    s.all_folders = true;
    assert_eq!(s.format_mail(&m), "[?] alice — hello");
    m.folder_id = Some("in".into());
    assert_eq!(s.format_mail(&m), "[Inbox] alice — hello");
}

#[test]
fn mark_read_flips_row_icon() {
    let mut s = MailScreen::new();
    loaded(&mut s, 2, 0);
    assert_eq!(s.row_icon("m1"), "✉  ● ");
    s.mark_read("m1");
    assert!(s.mails[1].is_read);
    assert!(!s.mails[0].is_read);
    assert_eq!(s.row_icon("m1"), "✉    ");
    assert_eq!(s.row_icon("missing"), "✉    ");
}

#[test]
fn matcher_lag_does_not_reset_cursor() {
    let mut s = MailScreen::new();
    s.win.set_height(10);
    loaded(&mut s, 20, 0);
    for _ in 0..5 {
        s.select_next();
    }
    s.tick(0);
    assert_eq!(s.win.selected(), 5);
    assert_eq!(s.matched_count, 0);
    s.tick(3);
    assert_eq!(s.win.selected(), 2);
}

#[test]
fn selected_mail_follows_result_under_cursor() {
    let mut s = MailScreen::new();
    loaded(&mut s, 3, 0);
    assert!(s.selected_mail().is_none());
    s.results = vec![
        MatchedItem { inner: "m2".to_string(), matched_string: "alice — subj 2".into(), match_indices: vec![] },
        MatchedItem { inner: "m0".to_string(), matched_string: "alice — subj 0".into(), match_indices: vec![] },
    ];
    assert_eq!(s.selected_mail().unwrap().id, "m2");
    s.select_next();
    assert_eq!(s.selected_mail().unwrap().id, "m0");
}

#[test]
fn highlight_runs_split_on_matches() {
    let runs = highlight_runs("hello", &[1, 2, 4]);
    let got: Vec<(&str, bool)> = runs.iter().map(|(t, h)| (t.as_str(), *h)).collect();
    assert_eq!(got, vec![("h", false), ("el", true), ("l", false), ("o", true)]);
    let plain = highlight_runs("hi", &[]);
    assert_eq!(plain, vec![("hi".to_string(), false)]);
    assert_eq!(highlight_runs("", &[]), vec![(String::new(), false)]);
    assert!(highlight_runs("", &[0]).is_empty());
}

#[test]
fn folder_focus_moves_folder_cursor_only() {
    let mut s = MailScreen::new();
    s.on_folders_loaded(vec![folder("a"), folder("b")]);
    s.focus = herald::tui::screens::mail::MailFocus::Folders;
    assert!(!s.select_next());
    assert_eq!(s.selected_folder().unwrap().id, "b");
    s.select_prev();
    assert_eq!(s.selected_folder().unwrap().id, "a");
    assert_eq!(s.win.selected(), 0);
}
