use herald::config::FolderMappings;
use herald::tui::model::folders::{build_folder_list, format_folder, resolve_action_folder, resolve_folder_path, RawFolder};
use herald::tui::types::FolderEntry;

fn raw(id: &str, name: &str, parent: Option<&str>, role: Option<&str>) -> RawFolder {
    RawFolder {
        id: id.into(),
        name: name.into(),
        parent_id: parent.map(String::from),
        role: role.map(String::from),
        sort_order: 0,
        total_emails: 0,
        unread_emails: 0,
    }
}

fn sample() -> Vec<RawFolder> {
    vec![
        raw("in", "Inbox", None, Some("inbox")),
        raw("dr", "Drafts", None, Some("drafts")),
        raw("si", "Sent Items", None, Some("sent")),
        raw("sm", "Sent Messages", None, None),
        raw("ar", "Archive", None, None),
        raw("a26", "2026", Some("ar"), None),
        raw("di", "Deleted Items", None, Some("trash")),
        raw("dm", "Deleted Messages", None, None),
        raw("jm", "Junk Mail", None, Some("junk")),
        raw("tv", "tgv-gz", None, None),
    ]
}

fn mappings() -> FolderMappings {
    FolderMappings {
        sent: Some("Sent Messages".into()),
        archive: Some("Archive/2026".into()),
        trash: Some("Deleted Messages".into()),
        spam: None,
    }
}

fn tag_of<'a>(folders: &'a [FolderEntry], id: &str) -> Option<&'a str> {
    folders.iter().find(|f| f.id == id).and_then(|f| f.action_tag.as_deref())
}

#[test]
fn config_override_beats_server_role() {
    let folders = build_folder_list(&sample(), &mappings());
    assert_eq!(tag_of(&folders, "sm"), Some("sent"));
    assert_eq!(tag_of(&folders, "si"), None, "role folder must lose its tag");
    assert_eq!(tag_of(&folders, "dm"), Some("trash"));
    assert_eq!(tag_of(&folders, "di"), None);
}

#[test]
fn role_wins_without_config_override() {
    let folders = build_folder_list(&sample(), &mappings());
    assert_eq!(tag_of(&folders, "jm"), Some("spam"));
    assert_eq!(tag_of(&folders, "in"), Some("inbox"));
}

#[test]
fn nested_path_resolution() {
    let folders = build_folder_list(&sample(), &mappings());
    assert_eq!(tag_of(&folders, "a26"), Some("archive"));
    assert_eq!(resolve_folder_path(&folders, "Archive/2026"), Some("a26".to_string()));
    assert_eq!(resolve_folder_path(&folders, "Archive/1999"), None);
}

#[test]
fn action_subtrees_hoisted_in_canonical_order() {
    let folders = build_folder_list(&sample(), &mappings());
    let order: Vec<&str> = folders.iter().filter(|f| f.depth == 0).map(|f| f.id.as_str()).collect();
    assert_eq!(&order[..6], &["in", "dr", "sm", "ar", "dm", "jm"]);
    assert!(order[6..].contains(&"si"));
    assert!(order[6..].contains(&"tv"));
}

#[test]
fn subtree_stays_with_its_root() {
    let folders = build_folder_list(&sample(), &mappings());
    let ar_pos = folders.iter().position(|f| f.id == "ar").unwrap();
    assert_eq!(folders[ar_pos + 1].id, "a26", "child follows parent");
    assert_eq!(folders[ar_pos + 1].depth, 1);
}

#[test]
fn resolve_action_folder_precedence() {
    let folders = build_folder_list(&sample(), &mappings());
    let m = mappings();
    assert_eq!(resolve_action_folder(&folders, &m, "sent"), Some("sm".into()));
    assert_eq!(resolve_action_folder(&folders, &m, "spam"), Some("jm".into()), "falls back to junk role");
    assert_eq!(resolve_action_folder(&folders, &m, "archive"), Some("a26".into()));
}

#[test]
fn only_tagged_folder_shows_bracket() {
    let folders = build_folder_list(&sample(), &mappings());
    let tagged = folders.iter().filter(|f| f.action_tag.as_deref() == Some("sent")).count();
    assert_eq!(tagged, 1);
    let f = folders.iter().find(|f| f.id == "sm").unwrap();
    assert!(format_folder(f).contains("[sent]"));
    let f = folders.iter().find(|f| f.id == "si").unwrap();
    assert!(!format_folder(f).contains("[sent]"));
}

#[test]
fn default_names_used_without_role_or_override() {
    let list = vec![raw("a", "Archive", None, None), raw("t", "Trash", None, None)];
    let m = FolderMappings { sent: None, archive: None, trash: None, spam: None };
    let folders = build_folder_list(&list, &m);
    assert_eq!(resolve_action_folder(&folders, &m, "archive"), Some("a".into()));
    assert_eq!(resolve_action_folder(&folders, &m, "trash"), Some("t".into()));
    assert_eq!(resolve_action_folder(&folders, &m, "sent"), None);
    assert_eq!(resolve_action_folder(&folders, &m, "bogus"), None);
}

#[test]
fn siblings_sort_by_role_then_order_then_name() {
    let mut list = vec![
        raw("z", "Zeta", None, None),
        raw("b", "Beta", None, None),
        raw("t", "Trash", None, Some("trash")),
        raw("i", "Inbox", None, Some("inbox")),
    ];
    list[0].sort_order = 1;
    let m = FolderMappings { sent: None, archive: None, trash: None, spam: None };
    let folders = build_folder_list(&list, &m);
    let ids: Vec<&str> = folders.iter().map(|f| f.id.as_str()).collect();
    assert_eq!(ids, vec!["i", "t", "b", "z"]);
}

#[test]
fn display_names_indent_children() {
    let list = vec![raw("p", "Parent", None, None), raw("c", "Child", Some("p"), None), raw("g", "Grand", Some("c"), None)];
    let m = FolderMappings { sent: None, archive: None, trash: None, spam: None };
    let folders = build_folder_list(&list, &m);
    assert_eq!(folders[0].display_name, "Parent");
    assert_eq!(folders[1].display_name, "  └ Child");
    assert_eq!(folders[2].display_name, "    └ Grand");
    assert_eq!(folders[2].depth, 2);
}

#[test]
fn format_folder_shows_counts() {
    let list = vec![raw("i", "Inbox", None, Some("inbox"))];
    let m = FolderMappings { sent: None, archive: None, trash: None, spam: None };
    let mut folders = build_folder_list(&list, &m);
    folders[0].total_emails = 12;
    folders[0].unread_emails = 3;
    assert_eq!(format_folder(&folders[0]), "Inbox  [inbox]  (12 •3)");
    folders[0].action_tag = None;
    folders[0].unread_emails = 0;
    assert_eq!(format_folder(&folders[0]), "Inbox  (12)");
}

#[test]
fn building_the_list_keeps_every_folder_once() {
    let input = sample();
    let built = build_folder_list(&input, &FolderMappings::default());
    let mut got: Vec<String> = built.iter().map(|f| f.id.clone()).collect();
    let mut want: Vec<String> = input.iter().map(|f| f.id.clone()).collect();
    got.sort();
    want.sort();
    assert_eq!(got, want);
    // The tagged blocks come first, in action order, before untagged ones.
    let tags: Vec<Option<String>> = built.iter().filter(|f| f.depth == 0).map(|f| f.action_tag.clone()).collect();
    let first_untagged = tags.iter().position(|t| t.is_none()).unwrap_or(tags.len());
    assert!(tags[first_untagged..].iter().all(|t| t.is_none()));
}
