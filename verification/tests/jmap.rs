use herald::jmap::contacts::{card_fields, extract_contact_name, extract_first_property, CardName};
use herald::jmap::calendar::{
    default_calendar, event_roster, event_times, plan_event, utc_iso8601, utc_now_iso8601, CalendarInfo, NewEvent,
};
use herald::jmap::mail::{
    check_outgoing, choose_identity, choose_sent_mailbox, compose_message, format_addr, generate_message_id, join_addresses, message_id,
    split_addresses, MailboxInfo, OutgoingMail, SendCheckError,
};
use herald::jmap::watch::{eq_ignore_ascii_case, in_watched_mailbox, next_backoff, watch_mailbox, NamedMailbox};
use herald::jmap::{check_set_outcomes, MethodOutcome};

#[test]
fn utc_now_has_iso8601_shape() {
    let s = utc_now_iso8601();
    assert_eq!(s.len(), 19);
    assert_eq!(&s[4..5], "-");
    assert_eq!(&s[10..11], "T");
}

#[test]
fn utc_known_instants() {
    assert_eq!(utc_iso8601(0), "1970-01-01T00:00:00");
    assert_eq!(utc_iso8601(951782400), "2000-02-29T00:00:00");
    assert_eq!(utc_iso8601(1783933261), "2026-07-13T09:01:01");
}

#[test]
fn message_id_uses_from_domain() {
    let id = generate_message_id("alice@example.com");
    assert!(id.ends_with("@example.com"));
    assert!(!id.contains('<') && !id.contains('>'));
}

#[test]
fn message_id_layout() {
    assert_eq!(message_id("a@b@c.org", 17, 255), "17.00000000000000ff@c.org");
    assert_eq!(message_id("nobody", 1, 0), "1.0000000000000000@localhost");
}

#[test]
fn split_addresses_trims_and_skips_empty() {
    assert_eq!(split_addresses("a@b.c, d@e.f ,, g@h.i"), vec!["a@b.c", "d@e.f", "g@h.i"]);
}

#[test]
fn split_addresses_edge_cases() {
    assert!(split_addresses("").is_empty());
    assert!(split_addresses(" , ,").is_empty());
    assert_eq!(split_addresses("x"), vec!["x"]);
}

fn mail<'a>(to: &'a str, subject: &'a str) -> OutgoingMail<'a> {
    OutgoingMail { from_email: "me@x.org", from_name: "", to, cc: "", bcc: "", subject, body: "hi" }
}

#[test]
fn outgoing_checks() {
    assert!(check_outgoing(&mail("a@b.c", "s")).is_ok());
    assert!(matches!(check_outgoing(&mail("  ", "s")), Err(SendCheckError::NoRecipient)));
    match check_outgoing(&mail("a@b.c", "x\ny")) {
        Err(SendCheckError::Header(herald::validate::ValidateError::HeaderInjection(n))) => assert_eq!(n, "subject"),
        _ => panic!("expected header injection"),
    }
    match check_outgoing(&mail("a\r", "x\ny")) {
        Err(SendCheckError::Header(herald::validate::ValidateError::HeaderInjection(n))) => assert_eq!(n, "to"),
        _ => panic!("expected header injection"),
    }
}

#[test]
fn identity_and_mailbox_choice() {
    let ids = vec!["x@y".to_string(), "me@x.org".to_string()];
    assert_eq!(choose_identity(&ids, "me@x.org"), Some(1));
    assert_eq!(choose_identity(&ids, "zz"), Some(0));
    assert_eq!(choose_identity(&vec![], "zz"), None);
    let boxes = vec![
        MailboxInfo { id: "1".into(), role: Some("inbox".into()) },
        MailboxInfo { id: "2".into(), role: Some("drafts".into()) },
        MailboxInfo { id: "3".into(), role: Some("sent".into()) },
    ];
    assert_eq!(choose_sent_mailbox(&boxes, Some("2")), Some(1));
    assert_eq!(choose_sent_mailbox(&boxes, Some("9")), Some(2));
    assert_eq!(choose_sent_mailbox(&boxes, None), Some(2));
    assert_eq!(choose_sent_mailbox(&boxes[..2].to_vec(), None), Some(1));
    assert_eq!(choose_sent_mailbox(&vec![], None), None);
}

#[test]
fn address_formatting() {
    assert_eq!(format_addr(Some("Ann"), "a@b"), "Ann <a@b>");
    assert_eq!(format_addr(None, "a@b"), "a@b");
    assert_eq!(join_addresses(&vec!["a".into(), "b".into(), "c".into()]), "a, b, c");
    assert_eq!(join_addresses(&vec![]), "");
}

#[test]
fn event_defaults() {
    let (s, d) = event_times("  ", "", "NOW".to_string());
    assert_eq!((s.as_str(), d.as_str()), ("NOW", "PT1H"));
    let (s, d) = event_times(" 2026-07-16T08:30:00 ", " PT15M", "NOW".to_string());
    assert_eq!((s.as_str(), d.as_str()), ("2026-07-16T08:30:00", "PT15M"));
}

#[test]
fn set_response_errors() {
    let ok = vec![MethodOutcome { method_name: "Email/set".into(), error_type: String::new(), error_description: String::new(), first_failure: None }];
    assert!(check_set_outcomes(&ok, "Email/set").is_ok());
    let top = vec![MethodOutcome { method_name: "error".into(), error_type: "forbidden".into(), error_description: "nope".into(), first_failure: None }];
    assert_eq!(check_set_outcomes(&top, "Email/set").unwrap_err(), "JMAP error: forbidden — nope");
    let item = vec![MethodOutcome {
        method_name: "Email/set".into(),
        error_type: String::new(),
        error_description: String::new(),
        first_failure: Some(("k1".into(), "notFound".into(), "gone".into())),
    }];
    assert_eq!(check_set_outcomes(&item, "Email/set").unwrap_err(), "Email/set failed for k1: notFound — gone");
    assert!(check_set_outcomes(&item, "Mailbox/set").is_ok());
}

#[test]
fn plan_event_fills_defaults_and_trims() {
    let attendees = vec![" bob@example.com ".to_string(), "   ".to_string(), "eve@example.com".to_string()];
    let ev = NewEvent {
        title: "Sync",
        start: "  ",
        duration: "",
        calendar_id: Some("  "),
        description: Some(" notes "),
        location: None,
        time_zone: Some("Europe/Berlin"),
        all_day: false,
        attendees: &attendees,
        organizer: Some(" me@example.com "),
    };
    let plan = plan_event(&ev, "2026-07-13T12:00:00".to_string());
    assert_eq!(plan.title, "Sync");
    assert_eq!(plan.start, "2026-07-13T12:00:00");
    assert_eq!(plan.duration.as_deref(), Some("PT1H"));
    assert_eq!(plan.calendar_id, None);
    assert_eq!(plan.description.as_deref(), Some("notes"));
    assert_eq!(plan.time_zone.as_deref(), Some("Europe/Berlin"));
    assert_eq!(plan.attendees, vec!["bob@example.com".to_string(), "eve@example.com".to_string()]);
    assert_eq!(plan.organizer.as_deref(), Some("me@example.com"));

    let none: Vec<String> = vec![];
    let ev = NewEvent { all_day: true, attendees: &none, start: " 2026-08-01T00:00:00 ", ..ev };
    let plan = plan_event(&ev, "now".to_string());
    assert_eq!(plan.start, "2026-08-01T00:00:00");
    assert_eq!(plan.duration, None);
    assert!(plan.attendees.is_empty());
    assert_eq!(plan.organizer, None, "no invitation, no organizer");
}

#[test]
fn contact_name_prefers_full_then_components() {
    let full = Some(CardName { full: Some("Ada Lovelace".into()), components: None });
    assert_eq!(extract_contact_name(&full), "Ada Lovelace");
    let parts = Some(CardName {
        full: None,
        components: Some(vec![Some("Ada".into()), None, Some("Lovelace".into())]),
    });
    assert_eq!(extract_contact_name(&parts), "Ada Lovelace");
    let empty = Some(CardName { full: None, components: Some(vec![None]) });
    assert_eq!(extract_contact_name(&empty), "(no name)");
    assert_eq!(extract_contact_name(&None), "(no name)");
}

#[test]
fn first_property_and_card_fields() {
    assert_eq!(extract_first_property(&Some(vec![None, Some("a@b.c".into()), Some("x@y.z".into())])), "a@b.c");
    assert_eq!(extract_first_property(&Some(vec![None])), "");
    assert_eq!(extract_first_property(&None), "");
    assert_eq!(card_fields(" a@b.c ", "  "), (Some("a@b.c".to_string()), None));
}

fn named(id: &str, name: &str, role: Option<&str>) -> NamedMailbox {
    NamedMailbox { id: id.into(), name: name.into(), role: role.map(|r| r.into()) }
}

#[test]
fn ascii_case_is_ignored_only_for_ascii_letters() {
    assert!(eq_ignore_ascii_case("Inbox", "INBOX"));
    assert!(eq_ignore_ascii_case("", ""));
    assert!(!eq_ignore_ascii_case("Inbox", "Inbo"));
    assert!(!eq_ignore_ascii_case("Éte", "éte"));
    assert!(eq_ignore_ascii_case("Été-1", "Été-1"));
}

#[test]
fn watched_mailbox_by_name_role_or_inbox() {
    let boxes = vec![
        named("m1", "Archive", Some("archive")),
        named("m2", "Posteingang", Some("inbox")),
        named("m3", "Work", None),
    ];
    assert_eq!(watch_mailbox(&boxes, Some("work")), Some(2));
    assert_eq!(watch_mailbox(&boxes, Some("INBOX")), Some(1));
    assert_eq!(watch_mailbox(&boxes, Some("archive")), Some(0));
    assert_eq!(watch_mailbox(&boxes, Some("Spam")), None);
    assert_eq!(watch_mailbox(&boxes, None), Some(1));
    assert_eq!(watch_mailbox(&boxes[..1].to_vec(), None), None);
}

#[test]
fn new_mail_is_reported_only_for_the_watched_mailbox() {
    let ids = vec!["a".to_string(), "b".to_string()];
    assert!(in_watched_mailbox(&ids, None));
    assert!(in_watched_mailbox(&ids, Some("b")));
    assert!(!in_watched_mailbox(&ids, Some("c")));
    assert!(in_watched_mailbox(&vec![], None));
    assert!(!in_watched_mailbox(&vec![], Some("a")));
}

#[test]
fn reconnect_wait_doubles_up_to_a_minute() {
    assert_eq!(next_backoff(1), 2);
    assert_eq!(next_backoff(16), 32);
    assert_eq!(next_backoff(32), 60);
    assert_eq!(next_backoff(60), 60);
    assert_eq!(next_backoff(u64::MAX), 60);
}

fn outgoing<'a>(name: &'a str, cc: &'a str) -> OutgoingMail<'a> {
    OutgoingMail {
        from_email: "ann@x.org",
        from_name: name,
        to: "bob@y.org, , carl@z.org",
        cc,
        bcc: "  ",
        subject: "Hi",
        body: "Hello there",
    }
}

#[test]
fn composed_message_carries_headers_and_body() {
    let bytes = compose_message(&outgoing("Ann", ""), "id1@x.org", 0);
    let text = String::from_utf8(bytes).unwrap();
    assert!(text.contains("Subject: Hi\r\n"));
    assert!(text.contains("Message-ID: <id1@x.org>\r\n"));
    assert!(text.contains("Date: Thu, 1 Jan 1970 00:00:00 +0000\r\n"));
    assert!(text.contains("Ann"));
    assert!(text.contains("<ann@x.org>"));
    assert!(text.contains("<bob@y.org>"));
    assert!(text.contains("<carl@z.org>"));
    assert!(!text.contains("Cc:"));
    assert!(!text.contains("Bcc:"));
    assert!(text.contains("Hello there"));
}

#[test]
fn composed_message_adds_copies_only_when_given() {
    let text = String::from_utf8(compose_message(&outgoing("", "dan@w.org"), "id2@x.org", 0)).unwrap();
    assert!(text.contains("Cc: <dan@w.org>\r\n"));
    assert!(!text.contains("Bcc:"));
    assert!(text.contains("From: <ann@x.org>\r\n"));
}

#[test]
fn composing_is_deterministic() {
    let a = compose_message(&outgoing("Ann", "dan@w.org"), "id3@x.org", 1_700_000_000);
    let b = compose_message(&outgoing("Ann", "dan@w.org"), "id3@x.org", 1_700_000_000);
    assert_eq!(a, b);
}

fn cal(id: &str, is_default: bool, may_add_items: bool) -> CalendarInfo {
    CalendarInfo { id: Some(id.into()), is_default, may_add_items }
}

#[test]
fn new_events_go_to_the_default_then_a_writable_calendar() {
    let cals = vec![cal("a", false, false), cal("b", false, true), cal("c", true, false)];
    assert_eq!(default_calendar(&cals), Some(2));
    assert_eq!(default_calendar(&cals[..2].to_vec()), Some(1));
    assert_eq!(default_calendar(&cals[..1].to_vec()), Some(0));
    assert_eq!(default_calendar(&vec![]), None);
}

#[test]
fn invitation_roster_lists_owner_then_attendees() {
    let roster = event_roster("ann@x.org", &vec!["bob@y.org".to_string(), "cy@z.org".to_string()]);
    assert_eq!(roster.len(), 3);
    assert_eq!((roster[0].key.as_str(), roster[0].email.as_str(), roster[0].imip.as_str(), roster[0].owner), ("owner", "ann@x.org", "mailto:ann@x.org", true));
    assert_eq!((roster[1].key.as_str(), roster[1].imip.as_str(), roster[1].owner), ("a0", "mailto:bob@y.org", false));
    assert_eq!((roster[2].key.as_str(), roster[2].email.as_str()), ("a1", "cy@z.org"));
    assert_eq!(event_roster("ann@x.org", &vec![]).len(), 1);
}
