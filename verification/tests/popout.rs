use herald::tui::popout::{Popout, PopoutKind, PopoutManager, PopoutState};
use herald::tui::editor::{backspace, cursor_position, enter, insert_char, FIELD_PREFIX_WIDTH};
use herald::tui::popout::HeaderField;

#[test]
fn compose_starts_with_signature() {
    let p = Popout::compose(7, Some("Ann"));
    assert_eq!(p.title, "New Draft");
    assert_eq!(p.editor_buffer, "\n\n-- \nAnn");
    assert_eq!(p.body[0], "To: ");
    assert_eq!(p.body[3], "─".repeat(30));
    assert_eq!(Popout::compose(1, None).editor_buffer, "");
    assert!(p.is_editor());
}

#[test]
fn reply_quotes_original_lines() {
    let p = Popout::reply(1, "orig".into(), "bob@x.org", "Hi", "line one\r\nline two\n", None);
    assert_eq!(p.editor_buffer, "\n\n> line one\n> line two\n");
    assert_eq!(p.subject, "Re: Hi");
    assert_eq!(p.to, "bob@x.org");
    assert_eq!(p.title, "Reply: Hi");
    assert_eq!(p.body[1], "Subject: Re: Hi");
}

#[test]
fn forward_appends_content() {
    let p = Popout::forward(1, "orig".into(), "Hi", "body", Some("S"));
    assert_eq!(p.editor_buffer, "\n\n-- \nS\n\n--- Forwarded message ---\n\nbody");
    assert_eq!(p.subject, "Fwd: Hi");
    assert!(matches!(p.kind, PopoutKind::Forward { .. }));
}

#[test]
fn manager_holds_two_and_closes_by_id() {
    let mut m = PopoutManager::new();
    let a = m.open(Popout::email_view(0, "a".into(), vec![], "e1".into()));
    let b = m.open(Popout::email_view(0, "b".into(), vec![], "e2".into()));
    let c = m.open(Popout::email_view(0, "c".into(), vec![], "e3".into()));
    assert_eq!((a, b, c), (0, 1, 2));
    assert_eq!(m.popouts.len(), 2);
    assert_eq!(m.popouts[0].title, "b");
    assert_eq!(m.focused, Some(1));
    m.close(2);
    assert_eq!(m.popouts.len(), 1);
    assert_eq!(m.focused, Some(0));
    m.close_focused();
    assert!(m.popouts.is_empty());
    assert_eq!(m.focused, None);
}

#[test]
fn manager_states_and_focus() {
    let mut m = PopoutManager::new();
    m.open(Popout::compose(0, None));
    m.open(Popout::compose(0, None));
    m.switch_focus();
    assert_eq!(m.focused, Some(0));
    m.switch_focus();
    assert_eq!(m.focused, Some(1));
    m.toggle_maximize();
    assert!(m.has_maximized());
    m.minimize_focused();
    assert_eq!(m.popouts[1].state, PopoutState::Minimized);
    assert_eq!(m.minimized_popouts().len(), 1);
    assert_eq!(m.visible_popouts().len(), 1);
    assert!(m.has_visible());
    assert_eq!(m.focused_popout().unwrap().id, 1);
}

#[test]
fn editor_typing_goes_to_field_then_body() {
    let mut p = Popout::compose(1, None);
    p.editing_field = Some(HeaderField::To);
    for c in "a@b".chars() {
        insert_char(&mut p, c);
    }
    assert_eq!(p.to, "a@b");
    assert_eq!(p.editor_buffer, "");
    enter(&mut p);
    assert_eq!(p.editing_field, None);
    insert_char(&mut p, 'h');
    insert_char(&mut p, 'i');
    assert_eq!(p.editor_buffer, "hi");
    assert_eq!(p.editor_cursor, 2);
    assert_eq!(p.to, "a@b");
    assert_eq!(p.body[0], "  To:      a@b");
}

#[test]
fn editor_backspace_handles_multibyte_body_chars() {
    let mut p = Popout::compose(1, None);
    insert_char(&mut p, 'é');
    insert_char(&mut p, '本');
    assert_eq!(p.editor_cursor, 5);
    backspace(&mut p);
    assert_eq!(p.editor_buffer, "é");
    assert_eq!(p.editor_cursor, 2);
    backspace(&mut p);
    assert_eq!(p.editor_buffer, "");
    backspace(&mut p);
    assert_eq!(p.editor_buffer, "");
    assert_eq!(p.editor_cursor, 0);
}

#[test]
fn editor_backspace_on_field_drops_last_char() {
    let mut p = Popout::compose(1, None);
    p.editing_field = Some(HeaderField::Subject);
    insert_char(&mut p, 'J');
    insert_char(&mut p, 'o');
    backspace(&mut p);
    assert_eq!(p.subject, "J");
}

#[test]
fn focused_popout_can_be_changed_in_place() {
    let mut m = PopoutManager::new();
    assert!(m.focused_popout_mut().is_none());
    m.open(Popout::email_view(0, "a".into(), vec![], "e1".into()));
    m.open(Popout::email_view(0, "b".into(), vec![], "e2".into()));
    let focused = m.focused.unwrap();
    m.focused_popout_mut().unwrap().title = "renamed".to_string();
    assert_eq!(m.popouts[focused].title, "renamed");
    assert_eq!(m.popouts[1 - focused].title, if focused == 0 { "b" } else { "a" });
}

#[test]
fn cursor_row_follows_the_edited_field() {
    let mut p = Popout::compose(1, None);
    p.to = "user@example.com".into();
    p.editing_field = Some(HeaderField::Subject);
    let (_, row) = cursor_position(&p);
    assert_eq!(row, 1);
    p.editing_field = Some(HeaderField::To);
    let (col, row) = cursor_position(&p);
    assert_eq!(row, 0);
    assert_eq!(col, FIELD_PREFIX_WIDTH + 16);
}

#[test]
fn cursor_in_body_counts_lines_and_columns() {
    let mut p = Popout::compose(1, None);
    for c in "ab\ncd".chars() {
        if c == '\n' {
            enter(&mut p);
        } else {
            insert_char(&mut p, c);
        }
    }
    let (col, row) = cursor_position(&p);
    // To, Subject, a blank line and the rule come first; the body starts
    // two rows after the rule, and the cursor is on its second line.
    assert_eq!(row, 5 + 1);
    assert_eq!(col, 2);
}
