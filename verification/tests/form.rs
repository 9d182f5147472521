use herald::tui::model::form::Form;

#[test]
fn typing_goes_into_focused_field() {
    let mut f = Form::new(&["To", "Subject"], true);
    f.insert_char('a');
    f.insert_char('b');
    assert_eq!(f.field("To"), "ab");
    f.next_focus();
    f.insert_char('x');
    assert_eq!(f.field("Subject"), "x");
}

#[test]
fn enter_advances_fields_then_newlines_in_body() {
    let mut f = Form::new(&["To"], true);
    f.insert_char('a');
    f.enter();
    assert!(f.body_focused());
    f.insert_char('h');
    f.enter();
    f.insert_char('i');
    assert_eq!(f.body.as_deref(), Some("h\ni"));
}

#[test]
fn focus_wraps_around() {
    let mut f = Form::new(&["A", "B"], false);
    f.next_focus();
    f.next_focus();
    assert_eq!(f.focus, 0);
}

#[test]
fn backspace_edits_focused_slot() {
    let mut f = Form::new(&["A"], true);
    f.insert_char('x');
    f.backspace();
    assert_eq!(f.field("A"), "");
    f.next_focus();
    f.insert_char('y');
    f.backspace();
    assert_eq!(f.body.as_deref(), Some(""));
}

#[test]
fn prefill_and_read_by_label() {
    let mut f = Form::new(&["Name", "Email"], false);
    f.set_field("Email", "a@b.c");
    assert_eq!(f.field("Email"), "a@b.c");
    assert_eq!(f.field("Missing"), "");
}

#[test]
fn cursor_tracks_body_lines() {
    let mut f = Form::new(&["To"], true);
    f.enter();
    f.insert_char('a');
    f.enter();
    f.insert_char('b');
    let (row, col) = f.cursor();
    assert_eq!(row, 3);
    assert_eq!(col, 1);
}

#[test]
fn cursor_after_trailing_newline_starts_a_fresh_row() {
    let mut f = Form::new(&["To", "Cc"], true);
    f.set_body("one\ntwo\n");
    f.focus = 2;
    assert_eq!(f.cursor(), (5, 0));
    f.set_body("");
    assert_eq!(f.cursor(), (3, 0));
}

#[test]
fn cursor_on_a_field_counts_characters() {
    let mut f = Form::new(&["To", "Cc"], false);
    f.set_field("Cc", "ßé");
    f.next_focus();
    assert_eq!(f.cursor(), (1, 2));
}

#[test]
fn set_body_without_body_does_nothing() {
    let mut f = Form::new(&["A"], false);
    f.set_body("x");
    assert!(f.body.is_none());
    assert!(!f.body_focused());
}

#[test]
fn insert_then_backspace_restores_field() {
    let mut f = Form::new(&["A"], false);
    f.set_field("A", "hey");
    f.insert_char('!');
    f.backspace();
    assert_eq!(f.field("A"), "hey");
}
