use herald::text::{sanitize_display, truncate_str};
use herald::text::truncate_title;

#[test]
fn preserves_plain_text() {
    let input = "Hello, world!";
    assert_eq!(sanitize_display(input), "Hello, world!");
}

#[test]
fn preserves_tab_and_newline() {
    let input = "line1\n\tindented";
    assert_eq!(sanitize_display(input), "line1\n\tindented");
}

#[test]
fn strips_ansi_escape() {
    let input = "\x1B[31mred text\x1B[0m";
    assert_eq!(sanitize_display(input), "[31mred text[0m");
}

#[test]
fn strips_null_and_other_c0_controls() {
    let input = "\x00\x01\x02\x07\x08\x0B\x0C\x0D\x0Evisible";
    assert_eq!(sanitize_display(input), "visible");
}

#[test]
fn strips_c1_controls() {
    let input = "safe\u{9B}31mred\u{85}text";
    assert_eq!(sanitize_display(input), "safe31mredtext");
}

#[test]
fn strips_del() {
    let input = "before\x7Fafter";
    assert_eq!(sanitize_display(input), "beforeafter");
}

#[test]
fn preserves_unicode() {
    let input = "café ☕ 日本語";
    assert_eq!(sanitize_display(input), "café ☕ 日本語");
}

#[test]
fn empty_input_returns_empty() {
    assert_eq!(sanitize_display(""), "");
}

#[test]
fn all_control_chars_stripped_yields_empty() {
    let input = "\x00\x01\x02\x03\x04\x05\x06\x07\x08\x0B\x0C\x0D\x0E\x0F\x1B\x7F";
    assert_eq!(sanitize_display(input), "");
}

#[test]
fn truncate_short_string_unchanged() {
    assert_eq!(truncate_str("hello", 10), "hello");
}

#[test]
fn truncate_long_string_adds_ellipsis() {
    assert_eq!(truncate_str("hello world", 6), "hello…");
}

#[test]
fn truncate_counts_chars_not_bytes() {
    assert_eq!(truncate_str("ééééé", 5), "ééééé");
}

#[test]
fn sanitize_is_idempotent_on_sample() {
    let once = sanitize_display("a\x1Bb\u{9B}c\td");
    assert_eq!(sanitize_display(&once), once);
}

#[test]
fn truncate_to_zero_or_one_is_only_the_ellipsis() {
    assert_eq!(truncate_str("abc", 1), "…");
    assert_eq!(truncate_str("abc", 0), "…");
    assert_eq!(truncate_str("abc", 3), "abc");
}

#[test]
fn truncate_title_keeps_short_titles() {
    assert_eq!(truncate_title("Inbox", 20), "Inbox");
    assert_eq!(truncate_title("", 0), "");
    assert_eq!(truncate_title("abcdef", 6), "abcdef");
}

#[test]
fn truncate_title_cuts_long_titles_with_ellipsis() {
    assert_eq!(truncate_title("Re: quarterly numbers", 10), "Re: quart…");
    // The limit is on bytes: four two-byte characters exceed six bytes.
    assert_eq!(truncate_title("éééé", 6), "éééé…");
    assert_eq!(truncate_title("ééé", 5), "ééé…");
}

#[test]
fn sanitizing_twice_changes_nothing() {
    let raw = "a\x1b[31mred\x1b[0m\u{9b}b\tc\n\u{7f}d";
    let once = sanitize_display(raw);
    assert_eq!(once, "a[31mred[0mb\tc\nd");
    assert_eq!(sanitize_display(&once), once);
    assert!(!once.contains('\x1b'));
}

#[test]
fn truncated_text_fits_the_limit() {
    for max in 1..8 {
        let t = truncate_str("abcdefghij", max);
        assert!(t.chars().count() <= max);
    }
    assert_eq!(truncate_str("abc", 3), "abc");
}
