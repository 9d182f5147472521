use herald::config::{AuthMethod, Config, FolderMappings, Profile, ProfileMap};
use herald::secret::Secret;
use herald::tui::app::{default_folder, draft_from_header, drafts_folder, App, Effects, MatcherStatus};
use herald::tui::editor::cursor_position;
use herald::tui::entries::{FolderEntry, MailEntry};
use herald::tui::event::{Action, ConfirmAction, InputMode};
use herald::tui::popout::{HeaderField, PopoutKind};
use herald::tui::search::MatchedItem;
use herald::tui::state::{Mode, Panel};
use herald::tui::statusline::Tone;

fn profile(url: &str, signature: Option<&str>, archive: Option<&str>) -> Profile {
    let mut folders = FolderMappings::default();
    folders.archive = archive.map(|s| s.to_string());
    Profile {
        server_url: url.to_string(),
        auth: AuthMethod::ApiKey { token: Secret::new("t".to_string()) },
        from_email: None,
        from_name: None,
        folders,
        compose_format: None,
        signature: signature.map(|s| s.to_string()),
        allow_insecure: false,
        confirm_actions: true,
    }
}

fn config() -> Config {
    let mut profiles = ProfileMap::new();
    profiles.insert("work".to_string(), profile("https://work.example.com", Some("Bob"), Some("Old")));
    profiles.insert("home".to_string(), profile("https://home.example.com", None, None));
    Config { default_profile: Some("home".to_string()), profiles }
}

fn item(id: &str) -> MatchedItem<String> {
    MatchedItem { inner: id.to_string(), matched_string: id.to_string(), match_indices: vec![] }
}

fn folder(id: &str, name: &str) -> FolderEntry {
    FolderEntry {
        id: id.into(),
        name: name.into(),
        parent_id: None,
        role: None,
        sort_order: 0,
        total_emails: 3,
        unread_emails: 1,
        display_name: name.into(),
        depth: 0,
        action_tag: None,
    }
}

fn mail(id: &str) -> MailEntry {
    MailEntry {
        id: id.into(),
        subject: format!("subject {id}"),
        from: "alice@example.com".into(),
        date: "2026-07-13".into(),
        preview: "line one\nline two".into(),
        folder_name: None,
    }
}

const NONE: Effects = Effects { reset_matcher: false, refind: false, drop_client: false };
const REFIND: Effects = Effects { reset_matcher: false, refind: true, drop_client: false };

fn mail_app() -> App {
    let mut app = App::new(config(), Some("work"));
    app.folders = vec![folder("inbox", "Inbox"), folder("arch", "Old"), folder("junk", "Junk")];
    app.mails = vec![mail("m1"), mail("m2")];
    app.active_folder_id = Some("inbox".into());
    app.tick(MatcherStatus { running: false, total: 2, matched: 2 }, vec![item("m1"), item("m2")]);
    app
}

#[test]
fn new_app_starts_on_asked_default_or_first_profile() {
    let app = App::new(config(), Some("work"));
    assert_eq!(app.active_profile_name, "work");
    assert_eq!(app.panel, Panel::Mails);
    assert_eq!(app.mode, Mode::Mail);
    assert_eq!(app.active_folder_name, "Inbox");
    assert_eq!(app.profiles.len(), 2);
    let app = App::new(config(), None);
    assert_eq!(app.active_profile_name, "home");
    let mut c = config();
    c.default_profile = None;
    let app = App::new(c, None);
    assert_eq!(app.active_profile_name, app.profiles[0].name);
    let app = App::new(Config { default_profile: None, profiles: ProfileMap::new() }, None);
    assert_eq!(app.active_profile_name, "");
}

#[test]
fn quit_asks_and_enter_confirms() {
    let mut app = mail_app();
    assert_eq!(app.handle_action(Action::Quit), NONE);
    assert!(app.show_quit_confirm);
    app.handle_action(Action::SelectNext);
    assert!(!app.show_quit_confirm);
    assert!(!app.should_quit);
    app.handle_action(Action::Quit);
    app.handle_action(Action::OpenItem);
    assert!(app.should_quit);
}

#[test]
fn drilling_into_profile_then_folder() {
    let mut app = App::new(config(), Some("home"));
    app.panel = Panel::Profiles;
    app.tick(MatcherStatus { running: false, total: 2, matched: 2 }, vec![item("home"), item("work")]);
    app.handle_action(Action::SelectNext);
    let e = app.handle_action(Action::NavigateRight);
    assert_eq!(e, Effects { reset_matcher: true, refind: false, drop_client: true });
    assert_eq!(app.panel, Panel::Folders);
    assert_eq!(app.active_profile_name, "work");
    assert_eq!(app.selected, Some(0));
    assert!(app.results.is_empty());
    app.folders = vec![folder("f1", "Inbox"), folder("f2", "Projects")];
    app.tick(MatcherStatus { running: false, total: 2, matched: 2 }, vec![item("f1"), item("f2")]);
    app.handle_action(Action::SelectNext);
    let e = app.handle_action(Action::NavigateRight);
    assert_eq!(e, Effects { reset_matcher: true, refind: false, drop_client: false });
    assert_eq!(app.panel, Panel::Mails);
    assert_eq!(app.active_folder_id.as_deref(), Some("f2"));
    assert_eq!(app.active_folder_name, "Projects");
}

#[test]
fn going_back_up_the_hierarchy() {
    let mut app = mail_app();
    app.handle_action(Action::NavigateLeft);
    assert_eq!(app.panel, Panel::Folders);
    app.handle_action(Action::NavigateLeft);
    assert_eq!(app.panel, Panel::Profiles);
    assert_eq!(app.handle_action(Action::NavigateLeft), NONE);
    assert_eq!(app.panel, Panel::Profiles);
}

#[test]
fn tab_switches_mode_and_panel() {
    let mut app = mail_app();
    let e = app.handle_action(Action::SwitchModeNext);
    assert!(e.reset_matcher);
    assert_eq!(app.mode, Mode::Contacts);
    assert_eq!(app.panel, Panel::Contacts);
    app.handle_action(Action::SwitchModePrev);
    app.handle_action(Action::SwitchModePrev);
    assert_eq!(app.mode, Mode::Calendar);
    assert_eq!(app.panel, Panel::Calendar);
}

#[test]
fn typing_edits_the_search_input() {
    let mut app = mail_app();
    assert_eq!(app.handle_action(Action::InsertChar('a')), REFIND);
    app.handle_action(Action::InsertChar('b'));
    assert_eq!(app.input, "ab");
    app.handle_action(Action::Backspace);
    assert_eq!(app.input, "a");
    app.handle_action(Action::ClearInput);
    assert_eq!(app.input, "");
    app.handle_action(Action::Backspace);
    assert_eq!(app.input, "");
}

#[test]
fn selection_moves_and_previews() {
    let mut app = mail_app();
    let p = app.preview_content.as_ref().unwrap();
    assert_eq!(p.title, "subject m1");
    assert_eq!(p.body[0], "From: alice@example.com");
    assert_eq!(p.body[6], "line one");
    assert_eq!(p.body.len(), 8);
    app.handle_action(Action::SelectNext);
    assert_eq!(app.selected, Some(1));
    assert_eq!(app.preview_content.as_ref().unwrap().title, "subject m2");
    app.handle_action(Action::SelectNext);
    assert_eq!(app.selected, Some(1));
    app.handle_action(Action::SelectPrev);
    app.handle_action(Action::SelectPrev);
    assert_eq!(app.selected, Some(0));
}

#[test]
fn folder_preview_lists_counts() {
    let mut app = mail_app();
    app.panel = Panel::Folders;
    app.tick(MatcherStatus { running: false, total: 3, matched: 1 }, vec![item("arch")]);
    let p = app.preview_content.as_ref().unwrap();
    assert_eq!(p.title, "Old");
    assert_eq!(p.body, vec!["ID: arch", "Role: -", "Total: 3", "Unread: 1"]);
}

#[test]
fn tick_keeps_selection_on_a_row() {
    let mut app = mail_app();
    app.selected = Some(5);
    app.tick(MatcherStatus { running: true, total: 2, matched: 2 }, vec![item("m1"), item("m2")]);
    assert_eq!(app.selected, Some(1));
    assert!(app.matcher_running);
    app.selected = None;
    app.tick(MatcherStatus { running: false, total: 2, matched: 1 }, vec![item("m2")]);
    assert_eq!(app.selected, Some(0));
    app.tick(MatcherStatus { running: false, total: 2, matched: 0 }, vec![]);
    assert_eq!(app.selected, Some(0));
    assert!(app.preview_content.is_none());
}

#[test]
fn opening_a_mail_shows_it_in_a_popout() {
    let mut app = mail_app();
    app.handle_action(Action::OpenItem);
    assert_eq!(app.input_mode, InputMode::EmailOpen);
    assert_eq!(app.selected_mail.as_ref().unwrap().id, "m1");
    let p = &app.popouts.popouts[0];
    assert_eq!(p.kind, PopoutKind::EmailView { email_id: "m1".into() });
    assert_eq!(p.title, "subject m1");
    assert_eq!(p.body[0], "From:    alice@example.com");
    assert_eq!(p.body[7], "line two");
    app.tick(MatcherStatus { running: false, total: 2, matched: 2 }, vec![item("m1"), item("m2")]);
    let preview = app.preview_content.as_ref().unwrap();
    assert!(preview.highlight_first);
    assert_eq!(preview.body[0], "📧 EMAIL OPEN");
    app.handle_action(Action::ExitToNormal);
    assert_eq!(app.input_mode, InputMode::Normal);
    assert!(app.selected_mail.is_none());
}

#[test]
fn archive_asks_and_no_cancels() {
    let mut app = mail_app();
    app.handle_action(Action::Archive);
    assert_eq!(app.input_mode, InputMode::Confirm(ConfirmAction::Archive("m1".into())));
    assert_eq!(app.pre_confirm_mode, Some(InputMode::Normal));
    app.handle_action(Action::SelectNext);
    assert_eq!(app.selected, Some(0), "other keys are ignored while confirming");
    app.handle_action(Action::ConfirmNo);
    assert_eq!(app.input_mode, InputMode::Normal);
    assert_eq!(app.error_message.as_deref(), Some("Cancelled"));
    assert!(app.pending_move.is_none());
}

#[test]
fn archive_confirmed_queues_move_to_mapped_folder() {
    let mut app = mail_app();
    app.handle_action(Action::Archive);
    app.handle_action(Action::ConfirmYes);
    let mv = app.pending_move.as_ref().unwrap();
    assert_eq!(mv.email_id, "m1");
    assert_eq!(mv.target_mailbox_id, "arch");
    assert_eq!(mv.source_mailbox_id, "inbox");
    assert_eq!(mv.action_name, "archive");
    assert!(app.needs_reload);
    assert_eq!(app.input_mode, InputMode::Normal);
}

#[test]
fn delete_without_trash_folder_reports_it() {
    let mut app = mail_app();
    app.handle_action(Action::Delete);
    app.handle_action(Action::ConfirmYes);
    assert!(app.pending_move.is_none());
    assert_eq!(app.error_message.as_deref(), Some("Folder not found: Trash"));
}

#[test]
fn mail_actions_need_the_mail_view() {
    let mut app = mail_app();
    app.panel = Panel::Contacts;
    app.handle_action(Action::Spam);
    assert_eq!(app.error_message.as_deref(), Some("Mail actions only available in Mail view"));
    assert_eq!(app.input_mode, InputMode::Normal);
}

#[test]
fn slash_command_queues_without_confirmation() {
    let mut app = mail_app();
    app.handle_action(Action::EnterInsert);
    assert_eq!(app.input_mode, InputMode::Insert);
    for c in "//Spam ".chars() {
        app.handle_action(Action::InsertChar(c));
    }
    let e = app.handle_action(Action::ExecuteCommand);
    assert_eq!(e, REFIND);
    assert_eq!(app.input, "");
    assert_eq!(app.input_mode, InputMode::Normal);
    let mv = app.pending_move.as_ref().unwrap();
    assert_eq!(mv.target_mailbox_id, "junk");
    assert_eq!(mv.action_name, "spam");
}

#[test]
fn unknown_and_unfinished_slash_commands() {
    let mut app = mail_app();
    for c in "/bogus".chars() {
        app.handle_action(Action::InsertChar(c));
    }
    app.handle_action(Action::ExecuteCommand);
    assert_eq!(app.error_message.as_deref(), Some("Unknown command: /bogus"));
    app.execute_slash_command("mark-folder-read");
    assert_eq!(app.error_message.as_deref(), Some("Marking all in 'Inbox' as read (not yet implemented)"));
    app.execute_slash_command("add-contact");
    assert!(app.pending_contact_create && app.needs_reload);
}

#[test]
fn compose_types_into_fields_and_body() {
    let mut app = mail_app();
    app.handle_action(Action::Compose);
    assert_eq!(app.input_mode, InputMode::Editing);
    let p = &app.popouts.popouts[0];
    assert_eq!(p.kind, PopoutKind::Compose);
    assert_eq!(p.editor_buffer, "\n\n-- \nBob");
    app.handle_action(Action::EditorChar('H'));
    app.handle_action(Action::EditorChar('é'));
    assert_eq!(app.popouts.popouts[0].editor_buffer, "Hé\n\n-- \nBob");
    assert_eq!(app.popouts.popouts[0].editor_cursor, 3);
    app.handle_action(Action::EditorBackspace);
    assert_eq!(app.popouts.popouts[0].editor_buffer, "H\n\n-- \nBob");
    assert_eq!(app.popouts.popouts[0].editor_cursor, 1);
    app.handle_action(Action::EditTo);
    assert_eq!(app.popouts.popouts[0].editing_field, Some(HeaderField::To));
    for c in "a@b".chars() {
        app.handle_action(Action::EditorChar(c));
    }
    assert_eq!(app.popouts.popouts[0].to, "a@b");
    assert_eq!(app.popouts.popouts[0].body[0], "▶ To:      a@b");
    app.handle_action(Action::EditorNewline);
    assert_eq!(app.popouts.popouts[0].editing_field, None);
    assert_eq!(app.popouts.popouts[0].body[0], "  To:      a@b");
    app.handle_action(Action::EditorEscape);
    assert_eq!(app.input_mode, InputMode::EmailOpen);
    app.handle_action(Action::EnterInsert);
    assert_eq!(app.input_mode, InputMode::Editing);
}

#[test]
fn reply_quotes_and_refuses_inside_a_draft() {
    let mut app = mail_app();
    app.handle_action(Action::Reply);
    let p = &app.popouts.popouts[0];
    assert_eq!(p.kind, PopoutKind::Reply { original_id: "m1".into() });
    assert_eq!(p.to, "alice@example.com");
    assert_eq!(p.subject, "Re: subject m1");
    assert_eq!(p.editor_buffer, "\n\n-- \nBob\n\n> line one\n> line two\n");
    app.handle_action(Action::Forward);
    assert_eq!(app.error_message.as_deref(), Some("Already composing"));
    assert_eq!(app.popouts.popouts.len(), 1);
}

#[test]
fn delete_in_a_draft_discards_it() {
    let mut app = mail_app();
    app.handle_action(Action::Compose);
    app.handle_action(Action::Delete);
    assert!(app.popouts.popouts.is_empty());
    assert_eq!(app.error_message.as_deref(), Some("Draft discarded"));
    assert_eq!(app.input_mode, InputMode::Normal);
}

#[test]
fn send_closes_the_draft() {
    let mut app = mail_app();
    app.handle_action(Action::Compose);
    app.handle_action(Action::Forward);
    app.handle_action(Action::Send);
    assert_eq!(app.error_message.as_deref(), Some("✓ Sending..."));
    assert!(app.popouts.popouts.is_empty());
}

#[test]
fn context_title_names_the_place() {
    let mut app = mail_app();
    assert_eq!(app.context_title(), "work  ❯  Inbox");
    app.panel = Panel::Profiles;
    assert_eq!(app.context_title(), "Select Profile");
    app.panel = Panel::Calendar;
    assert_eq!(app.context_title(), "work  ❯  Calendar");
}

#[test]
fn status_line_follows_the_mode() {
    let mut app = mail_app();
    let items = app.status_items();
    let texts: Vec<&str> = items.iter().map(|i| i.text.as_str()).collect();
    assert_eq!(&texts[..5], &[" ", " Mail ", " Contacts ", " Calendar ", "  "]);
    assert_eq!(items[1].tone, Tone::ActiveTab);
    assert_eq!(items[2].tone, Tone::Tab);
    assert_eq!(texts.last(), Some(&" spam"));
    app.handle_action(Action::Archive);
    let items = app.status_items();
    assert_eq!(items[5].text, " ⚠ Archive this email? [y/n] ");
    assert_eq!(items[5].tone, Tone::Alert);
    app.handle_action(Action::ConfirmNo);
    app.loading = true;
    let items = app.status_items();
    let n = items.len();
    assert_eq!(items[n - 2].text, "  ⚠ Cancelled");
    assert_eq!(items[n - 1].text, "  ⏳ loading...");
}

#[test]
fn draft_cursor_follows_field_and_body() {
    let mut app = mail_app();
    app.handle_action(Action::Compose);
    app.handle_action(Action::EditCc);
    app.handle_action(Action::EditorChar('x'));
    let p = &app.popouts.popouts[0];
    assert_eq!(cursor_position(p), (12, 1));
    app.handle_action(Action::EditorNewline);
    app.handle_action(Action::EditorChar('a'));
    app.handle_action(Action::EditorNewline);
    app.handle_action(Action::EditorChar('b'));
    let p = &app.popouts.popouts[0];
    assert_eq!(p.editor_buffer, "a\nb\n\n-- \nBob");
    // To, Cc, Subject, blank, rule (row 4) → body starts at row 6.
    assert_eq!(cursor_position(p), (1, 7));
}

#[test]
fn mail_list_opens_on_inbox_role_or_first_folder() {
    let mut fs = vec![folder("a", "Archive"), folder("b", "Inbox")];
    assert_eq!(default_folder(&fs), Some(0));
    fs[1].role = Some("inbox".into());
    assert_eq!(default_folder(&fs), Some(1));
    assert_eq!(default_folder(&vec![]), None);
}

#[test]
fn new_drafts_go_to_the_drafts_role_or_a_draft_named_folder() {
    let mut fs = vec![folder("a", "Inbox"), folder("b", "My DRAFTS"), folder("c", "Entwürfe")];
    assert_eq!(drafts_folder(&fs), Some(1));
    fs[2].role = Some("drafts".into());
    assert_eq!(drafts_folder(&fs), Some(2));
    assert_eq!(drafts_folder(&vec![folder("a", "Inbox")]), None);
}

#[test]
fn draft_sender_header_uses_name_when_set() {
    assert_eq!(draft_from_header(Some("ann@x.org"), Some("Ann")), "Ann <ann@x.org>");
    assert_eq!(draft_from_header(Some("ann@x.org"), Some("")), "ann@x.org");
    assert_eq!(draft_from_header(None, None), "user@example.com");
    assert_eq!(draft_from_header(None, Some("Ann")), "Ann <user@example.com>");
}
