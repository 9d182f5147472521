//! Application state of the list view: hierarchical navigation
//! Profiles → Folders (mailboxes) → Mails, plus Contacts and Calendar,
//! the popouts over it, and the server operations that actions leave for
//! the event loop.
//!
//! The fuzzy matcher and the JMAP client live with the event loop; the
//! state here records what they report and says, through [`Effects`],
//! what an action asks of them.

use vstd::prelude::*;

use crate::config::Config;
use crate::seqs::{first_match, lemma_first_match, lemma_first_match_at, lemma_first_match_none};
use crate::digits::{dec, push_dec};
use crate::strings::{contains_seq, lowercase, push_char, push_str, str_contains, str_eq, to_lowercase, to_owned};
use crate::tui::entries::{CalendarEventEntry, ContactEntry, FolderEntry, MailEntry, ProfileEntry};
use crate::tui::event::InputMode;
use crate::tui::popout::{lines_view, manager_wf, spec_lines, split_lines, PopoutManager};
use crate::tui::search::MatchedItem;
use crate::tui::state::{Mode, Panel};

verus! {

/// A mail move queued for the event loop.
#[derive(Debug, Clone)]
pub struct PendingMove {
    pub email_id: String,
    pub target_mailbox_id: String,
    pub source_mailbox_id: String,
    pub action_name: String,
}

/// What the preview pane shows: a title and lines; with
/// `highlight_first` the first line is a banner.
pub struct PreviewContent {
    pub title: String,
    pub body: Vec<String>,
    pub highlight_first: bool,
}

/// What an action asks of the event loop besides the state change.
#[derive(Debug, Clone, Copy, PartialEq, Eq, Structural)]
pub struct Effects {
    /// Replace the matcher by an empty one (the list was reset).
    pub reset_matcher: bool,
    /// Give the matcher the current input as its pattern.
    pub refind: bool,
    /// Drop the server connection (another profile was chosen).
    pub drop_client: bool,
}

/// What the matcher reports on a tick.
#[derive(Debug, Clone, Copy, PartialEq, Eq, Structural)]
pub struct MatcherStatus {
    pub running: bool,
    pub total: u32,
    pub matched: u32,
}

/// The main application state.
pub struct App {
    /// Current search input string.
    pub input: String,
    /// Vi-style input mode.
    pub input_mode: InputMode,
    /// Top-level mode (Mail / Contacts / Calendar).
    pub mode: Mode,
    /// Which panel is active.
    pub panel: Panel,
    /// Whether the matcher is still running.
    pub matcher_running: bool,
    /// Total items in the matcher.
    pub total_count: u32,
    /// Matched items count.
    pub matched_count: u32,
    /// Current page of results for display.
    pub results: Vec<MatchedItem<String>>,
    /// The selected row of the results list.
    pub selected: Option<usize>,
    /// Preview content for the right pane.
    pub preview_content: Option<PreviewContent>,
    /// Height of the results area.
    pub results_height: u16,
    pub should_quit: bool,
    pub profiles: Vec<ProfileEntry>,
    pub folders: Vec<FolderEntry>,
    pub mails: Vec<MailEntry>,
    pub contacts: Vec<ContactEntry>,
    pub events: Vec<CalendarEventEntry>,
    pub active_profile_name: String,
    pub active_folder_id: Option<String>,
    pub active_folder_name: String,
    pub config: Config,
    pub loading: bool,
    pub error_message: Option<String>,
    /// The panel's data must be fetched again (after queuing an operation).
    pub needs_reload: bool,
    pub pending_move: Option<PendingMove>,
    pub pending_compose: bool,
    /// Currently opened email.
    pub selected_mail: Option<MailEntry>,
    pub pending_contact_create: bool,
    pub pending_contact_delete: bool,
    pub pending_event_create: bool,
    pub pending_event_delete: bool,
    pub popouts: PopoutManager,
    /// The quit confirmation dialog is showing.
    pub show_quit_confirm: bool,
    /// The input mode to restore when a confirmation ends.
    pub pre_confirm_mode: Option<InputMode>,
}

/// The app is consistent: its popouts are.
pub open spec fn app_wf(a: App) -> bool {
    manager_wf(a.popouts.popouts@, a.popouts.focused)
}

/// The id of the result under the cursor (the first row when nothing is
/// selected).
pub open spec fn spec_selected_id(a: App) -> Option<Seq<char>> {
    let sel = match a.selected {
        Some(s) => s as int,
        None => 0,
    };
    if sel < a.results@.len() {
        Some(a.results@[sel].inner@)
    } else {
        None
    }
}

pub open spec fn profile_named(n: Seq<char>) -> spec_fn(ProfileEntry) -> bool {
    |p: ProfileEntry| p.name@ == n
}

pub open spec fn folder_with_id(id: Seq<char>) -> spec_fn(FolderEntry) -> bool {
    |f: FolderEntry| f.id@ == id
}

pub open spec fn folder_named(n: Seq<char>) -> spec_fn(FolderEntry) -> bool {
    |f: FolderEntry| f.name@ == n
}

pub open spec fn mail_with_id(id: Seq<char>) -> spec_fn(MailEntry) -> bool {
    |m: MailEntry| m.id@ == id
}

pub open spec fn contact_with_id(id: Seq<char>) -> spec_fn(ContactEntry) -> bool {
    |c: ContactEntry| c.id@ == id
}

pub open spec fn event_with_id(id: Seq<char>) -> spec_fn(CalendarEventEntry) -> bool {
    |e: CalendarEventEntry| e.id@ == id
}

/// The mail of the result under the cursor.
pub open spec fn spec_list_mail(a: App) -> Option<MailEntry> {
    match spec_selected_id(a) {
        Some(id) => match first_match(a.mails@, mail_with_id(id)) {
            Some(k) => Some(a.mails@[k]),
            None => None,
        },
        None => None,
    }
}

/// The mail an action applies to: the open one, else the one under the
/// cursor.
pub open spec fn spec_target_mail(a: App) -> Option<MailEntry> {
    match a.selected_mail {
        Some(m) => Some(m),
        None => spec_list_mail(a),
    }
}

/// A rule of `n` box-drawing dashes.
pub open spec fn rule(n: nat) -> Seq<char> {
    Seq::new(n, |i: int| '─')
}

/// The lines describing a mail; `open` adds the banner of an opened mail
/// and aligns the labels.
pub open spec fn mail_preview_lines(m: MailEntry, open: bool) -> Seq<Seq<char>> {
    mail_text_lines(m, open, open)
}

/// The lines describing a mail: with `banner` led by the banner of an
/// opened mail, with `aligned` the labels padded to one width.
pub open spec fn mail_text_lines(m: MailEntry, banner: bool, aligned: bool) -> Seq<Seq<char>> {
    let head: Seq<Seq<char>> = if banner {
        seq!["📧 EMAIL OPEN"@, Seq::empty()]
    } else {
        Seq::empty()
    };
    let fields: Seq<Seq<char>> = if aligned {
        seq!["From:    "@ + m.from@, "Date:    "@ + m.date@, "Subject: "@ + m.subject@]
    } else {
        seq!["From: "@ + m.from@, "Date: "@ + m.date@, "Subject: "@ + m.subject@]
    };
    head + fields + seq![Seq::empty(), rule(40), Seq::empty()] + spec_lines(m.preview@)
}

/// The preview (title, lines, banner) of the selection.
#[verifier::opaque]
pub open spec fn spec_preview(a: App) -> Option<(Seq<char>, Seq<Seq<char>>, bool)> {
    match a.panel {
        Panel::Mails => match a.selected_mail {
            Some(m) => Some((m.subject@, mail_preview_lines(m, true), true)),
            None => match spec_list_mail(a) {
                Some(m) => Some((m.subject@, mail_preview_lines(m, false), false)),
                None => None,
            },
        },
        _ => match spec_selected_id(a) {
            None => None,
            Some(id) => match a.panel {
                Panel::Profiles => match first_match(a.profiles@, profile_named(id)) {
                    Some(k) => Some(
                        (a.profiles@[k].name@, seq!["Server: "@ + a.profiles@[k].server_url@], false),
                    ),
                    None => None,
                },
                Panel::Folders => match first_match(a.folders@, folder_with_id(id)) {
                    Some(k) => {
                        let f = a.folders@[k];
                        Some(
                            (
                                f.name@,
                                seq![
                                    "ID: "@ + f.id@,
                                    "Role: "@ + match f.role {
                                        Some(r) => r@,
                                        None => "-"@,
                                    },
                                    "Total: "@ + dec(f.total_emails as nat),
                                    "Unread: "@ + dec(f.unread_emails as nat),
                                ],
                                false,
                            ),
                        )
                    },
                    None => None,
                },
                Panel::Contacts => match first_match(a.contacts@, contact_with_id(id)) {
                    Some(k) => {
                        let c = a.contacts@[k];
                        Some(
                            (
                                c.name@,
                                seq!["Name: "@ + c.name@, "Email: "@ + c.email@, "Phone: "@ + c.phone@],
                                false,
                            ),
                        )
                    },
                    None => None,
                },
                _ => match first_match(a.events@, event_with_id(id)) {
                    Some(k) => {
                        let e = a.events@[k];
                        Some(
                            (
                                e.title@,
                                seq![
                                    "Title: "@ + e.title@,
                                    "Start: "@ + e.start@,
                                    "Duration: "@ + e.duration@,
                                    "Status: "@ + e.status@,
                                ],
                                false,
                            ),
                        )
                    },
                    None => None,
                },
            },
        },
    }
}

pub open spec fn preview_view(p: Option<PreviewContent>) -> Option<(Seq<char>, Seq<Seq<char>>, bool)> {
    match p {
        Some(c) => Some((c.title@, lines_view(c.body@), c.highlight_first)),
        None => None,
    }
}

/// Position of the first profile named `name`.
pub fn profile_position(ps: &Vec<ProfileEntry>, name: &str) -> (r: Option<usize>)
    ensures
        r matches Some(k) ==> first_match(ps@, profile_named(name@)) == Some(k as int) && k < ps@.len(),
        r is None ==> first_match(ps@, profile_named(name@)) is None,
{
    let mut i: usize = 0;
    while i < ps.len()
        invariant
            i <= ps@.len(),
            forall|j: int| 0 <= j < i ==> !profile_named(name@)(#[trigger] ps@[j]),
        decreases ps@.len() - i,
    {
        if str_eq(ps[i].name.as_str(), name) {
            proof {
                lemma_first_match_at(ps@, profile_named(name@), i as int);
            }
            return Some(i);
        }
        i = i + 1;
    }
    proof {
        lemma_first_match_none(ps@, profile_named(name@));
    }
    None
}

/// Position of the first folder whose id (or, with `by_name`, name) is
/// `key`.
pub fn folder_position(fs: &Vec<FolderEntry>, key: &str, by_name: bool) -> (r: Option<usize>)
    ensures
        r matches Some(k) ==> first_match(
            fs@,
            if by_name {
                folder_named(key@)
            } else {
                folder_with_id(key@)
            },
        ) == Some(k as int) && k < fs@.len(),
        r is None ==> first_match(
            fs@,
            if by_name {
                folder_named(key@)
            } else {
                folder_with_id(key@)
            },
        ) is None,
{
    let ghost p = if by_name {
        folder_named(key@)
    } else {
        folder_with_id(key@)
    };
    let mut i: usize = 0;
    while i < fs.len()
        invariant
            i <= fs@.len(),
            p == (if by_name {
                folder_named(key@)
            } else {
                folder_with_id(key@)
            }),
            forall|j: int| 0 <= j < i ==> !p(#[trigger] fs@[j]),
        decreases fs@.len() - i,
    {
        let hit = if by_name {
            str_eq(fs[i].name.as_str(), key)
        } else {
            str_eq(fs[i].id.as_str(), key)
        };
        if hit {
            proof {
                lemma_first_match_at(fs@, p, i as int);
            }
            return Some(i);
        }
        i = i + 1;
    }
    proof {
        lemma_first_match_none(fs@, p);
    }
    None
}

/// Position of the first mail with `id`.
pub fn mail_position(ms: &Vec<MailEntry>, id: &str) -> (r: Option<usize>)
    ensures
        r matches Some(k) ==> first_match(ms@, mail_with_id(id@)) == Some(k as int) && k < ms@.len(),
        r is None ==> first_match(ms@, mail_with_id(id@)) is None,
{
    let mut i: usize = 0;
    while i < ms.len()
        invariant
            i <= ms@.len(),
            forall|j: int| 0 <= j < i ==> !mail_with_id(id@)(#[trigger] ms@[j]),
        decreases ms@.len() - i,
    {
        if str_eq(ms[i].id.as_str(), id) {
            proof {
                lemma_first_match_at(ms@, mail_with_id(id@), i as int);
            }
            return Some(i);
        }
        i = i + 1;
    }
    proof {
        lemma_first_match_none(ms@, mail_with_id(id@));
    }
    None
}

/// Position of the first contact with `id`.
fn contact_position(cs: &Vec<ContactEntry>, id: &str) -> (r: Option<usize>)
    ensures
        r matches Some(k) ==> first_match(cs@, contact_with_id(id@)) == Some(k as int) && k < cs@.len(),
        r is None ==> first_match(cs@, contact_with_id(id@)) is None,
{
    let mut i: usize = 0;
    while i < cs.len()
        invariant
            i <= cs@.len(),
            forall|j: int| 0 <= j < i ==> !contact_with_id(id@)(#[trigger] cs@[j]),
        decreases cs@.len() - i,
    {
        if str_eq(cs[i].id.as_str(), id) {
            proof {
                lemma_first_match_at(cs@, contact_with_id(id@), i as int);
            }
            return Some(i);
        }
        i = i + 1;
    }
    proof {
        lemma_first_match_none(cs@, contact_with_id(id@));
    }
    None
}

/// Position of the first event with `id`.
fn event_position(es: &Vec<CalendarEventEntry>, id: &str) -> (r: Option<usize>)
    ensures
        r matches Some(k) ==> first_match(es@, event_with_id(id@)) == Some(k as int) && k < es@.len(),
        r is None ==> first_match(es@, event_with_id(id@)) is None,
{
    let mut i: usize = 0;
    while i < es.len()
        invariant
            i <= es@.len(),
            forall|j: int| 0 <= j < i ==> !event_with_id(id@)(#[trigger] es@[j]),
        decreases es@.len() - i,
    {
        if str_eq(es[i].id.as_str(), id) {
            proof {
                lemma_first_match_at(es@, event_with_id(id@), i as int);
            }
            return Some(i);
        }
        i = i + 1;
    }
    proof {
        lemma_first_match_none(es@, event_with_id(id@));
    }
    None
}

/// The folder has the server role "inbox".
pub open spec fn is_inbox_role() -> spec_fn(FolderEntry) -> bool {
    |f: FolderEntry| f.role matches Some(r) && r@ == "inbox"@
}

/// The folder the mail list opens on when none was chosen: the inbox by
/// its role, else the first folder.
pub open spec fn spec_default_folder(fs: Seq<FolderEntry>) -> Option<int> {
    match first_match(fs, is_inbox_role()) {
        Some(k) => Some(k),
        None => if fs.len() > 0 {
            Some(0)
        } else {
            None
        },
    }
}

/// The folder the mail list opens on when none was chosen.
pub fn default_folder(fs: &Vec<FolderEntry>) -> (r: Option<usize>)
    ensures
        match spec_default_folder(fs@) {
            Some(k) => r == Some(k as usize),
            None => r is None,
        },
{
    let mut i: usize = 0;
    while i < fs.len()
        invariant
            i <= fs@.len(),
            forall|j: int| 0 <= j < i ==> !is_inbox_role()(#[trigger] fs@[j]),
        decreases fs@.len() - i,
    {
        let hit = match &fs[i].role {
            Some(r) => str_eq(r.as_str(), "inbox"),
            None => false,
        };
        if hit {
            proof {
                lemma_first_match_at(fs@, is_inbox_role(), i as int);
            }
            return Some(i);
        }
        i = i + 1;
    }
    proof {
        lemma_first_match_none(fs@, is_inbox_role());
    }
    if fs.len() > 0 {
        Some(0)
    } else {
        None
    }
}

/// The folder has the server role "drafts".
pub open spec fn is_drafts_role() -> spec_fn(FolderEntry) -> bool {
    |f: FolderEntry| f.role matches Some(r) && r@ == "drafts"@
}

/// The folder's lowercased name mentions "draft".
pub open spec fn named_draft() -> spec_fn(FolderEntry) -> bool {
    |f: FolderEntry| contains_seq(lowercase(f.name@), "draft"@)
}

/// The folder a new draft goes to: the first with the drafts role, else
/// the first whose name (lowercased) contains "draft".
pub open spec fn spec_drafts_folder(fs: Seq<FolderEntry>) -> Option<int> {
    match first_match(fs, is_drafts_role()) {
        Some(k) => Some(k),
        None => first_match(fs, named_draft()),
    }
}

fn find_folder(fs: &Vec<FolderEntry>, by_role: bool) -> (r: Option<usize>)
    ensures
        match first_match(fs@, if by_role { is_drafts_role() } else { named_draft() }) {
            Some(k) => r == Some(k as usize),
            None => r is None,
        },
{
    let ghost p = if by_role { is_drafts_role() } else { named_draft() };
    let mut i: usize = 0;
    while i < fs.len()
        invariant
            i <= fs@.len(),
            p == (if by_role { is_drafts_role() } else { named_draft() }),
            forall|j: int| 0 <= j < i ==> !p(#[trigger] fs@[j]),
        decreases fs@.len() - i,
    {
        let hit = if by_role {
            match &fs[i].role {
                Some(r) => str_eq(r.as_str(), "drafts"),
                None => false,
            }
        } else {
            let lower = to_lowercase(fs[i].name.as_str());
            str_contains(lower.as_str(), "draft")
        };
        if hit {
            proof {
                lemma_first_match_at(fs@, p, i as int);
            }
            return Some(i);
        }
        i = i + 1;
    }
    proof {
        lemma_first_match_none(fs@, p);
    }
    None
}

/// Chooses the folder a new draft goes to (see `spec_drafts_folder`).
pub fn drafts_folder(fs: &Vec<FolderEntry>) -> (r: Option<usize>)
    ensures
        match spec_drafts_folder(fs@) {
            Some(k) => r == Some(k as usize),
            None => r is None,
        },
{
    match find_folder(fs, true) {
        Some(k) => Some(k),
        None => find_folder(fs, false),
    }
}

/// The From header of a new draft: the profile's address (else
/// `user@example.com`), after its display name in the form
/// `Name <address>` when the name is set and not empty.
pub open spec fn spec_draft_from(from_email: Option<Seq<char>>, from_name: Option<Seq<char>>) -> Seq<char> {
    let email = match from_email {
        Some(e) => e,
        None => "user@example.com"@,
    };
    match from_name {
        Some(n) => if n.len() > 0 {
            n + " <"@ + email + ">"@
        } else {
            email
        },
        None => email,
    }
}

/// Builds the From header of a new draft (see `spec_draft_from`).
pub fn draft_from_header(from_email: Option<&str>, from_name: Option<&str>) -> (r: String)
    ensures
        r@ == spec_draft_from(
            match from_email {
                Some(e) => Some(e@),
                None => None,
            },
            match from_name {
                Some(n) => Some(n@),
                None => None,
            },
        ),
{
    let email: &str = match from_email {
        Some(e) => e,
        None => "user@example.com",
    };
    match from_name {
        Some(n) => if !n.is_empty() {
            let mut out = to_owned(n);
            push_str(&mut out, " <");
            push_str(&mut out, email);
            push_str(&mut out, ">");
            out
        } else {
            to_owned(email)
        },
        None => to_owned(email),
    }
}

/// A copy of a mail entry.
pub fn copy_mail(m: &MailEntry) -> (r: MailEntry)
    ensures
        r == *m,
{
    MailEntry {
        id: m.id.clone(),
        subject: m.subject.clone(),
        from: m.from.clone(),
        date: m.date.clone(),
        preview: m.preview.clone(),
        folder_name: match &m.folder_name {
            Some(f) => Some(f.clone()),
            None => None,
        },
    }
}

/// `label` followed by `text`.
fn line(label: &str, text: &str) -> (r: String)
    ensures
        r@ == label@ + text@,
{
    let mut s = String::new();
    push_str(&mut s, label);
    push_str(&mut s, text);
    assert(Seq::<char>::empty() + label@ =~= label@);
    s
}

/// A rule of `n` dashes.
pub fn rule_string(n: usize) -> (r: String)
    ensures
        r@ == rule(n as nat),
{
    let mut s = String::new();
    let mut k: usize = 0;
    while k < n
        invariant
            k <= n,
            s@ == rule(k as nat),
        decreases n - k,
    {
        push_char(&mut s, '─');
        assert(s@ =~= rule((k + 1) as nat));
        k = k + 1;
    }
    s
}

/// The lines describing a mail (see `mail_text_lines`).
pub fn mail_lines(m: &MailEntry, banner: bool, aligned: bool) -> (r: Vec<String>)
    ensures
        lines_view(r@) == mail_text_lines(*m, banner, aligned),
{
    let mut body: Vec<String> = Vec::new();
    if banner {
        body.push(to_owned("📧 EMAIL OPEN"));
        body.push(String::new());
    }
    if aligned {
        body.push(line("From:    ", m.from.as_str()));
        body.push(line("Date:    ", m.date.as_str()));
        body.push(line("Subject: ", m.subject.as_str()));
    } else {
        body.push(line("From: ", m.from.as_str()));
        body.push(line("Date: ", m.date.as_str()));
        body.push(line("Subject: ", m.subject.as_str()));
    }
    body.push(String::new());
    body.push(rule_string(40));
    body.push(String::new());
    let ghost head = lines_view(body@);
    let lines = split_lines(m.preview.as_str());
    let mut j: usize = 0;
    while j < lines.len()
        invariant
            j <= lines@.len(),
            lines_view(lines@) == spec_lines(m.preview@),
            lines_view(body@) == head + lines_view(lines@).take(j as int),
        decreases lines@.len() - j,
    {
        let ghost before = lines_view(body@);
        body.push(line("", lines[j].as_str()));
        proof {
            reveal_strlit("");
        }
        assert(lines_view(lines@).take(j as int + 1) =~= lines_view(lines@).take(j as int).push(
            lines@[j as int]@,
        ));
        assert(lines_view(body@) =~= before.push(lines@[j as int]@));
        j = j + 1;
    }
    assert(lines_view(lines@).take(lines@.len() as int) =~= lines_view(lines@));
    assert(lines_view(body@) =~= mail_text_lines(*m, banner, aligned));
    body
}

impl App {
    /// The id of the result under the cursor.
    pub fn selected_id(&self) -> (r: Option<&str>)
        ensures
            match spec_selected_id(*self) {
                Some(id) => r matches Some(s) && s@ == id,
                None => r is None,
            },
    {
        let sel = match self.selected {
            Some(s) => s,
            None => 0,
        };
        if sel < self.results.len() {
            Some(self.results[sel].inner.as_str())
        } else {
            None
        }
    }

    /// The mail of the result under the cursor.
    pub fn list_mail(&self) -> (r: Option<&MailEntry>)
        ensures
            match spec_list_mail(*self) {
                Some(m) => r matches Some(x) && *x == m,
                None => r is None,
            },
    {
        match self.selected_id() {
            Some(id) => match mail_position(&self.mails, id) {
                Some(k) => Some(&self.mails[k]),
                None => None,
            },
            None => None,
        }
    }

    /// The preview of the selection, as the preview pane shows it.
    pub fn compute_preview(&self) -> (r: Option<PreviewContent>)
        ensures
            preview_view(r) == spec_preview(*self),
    {
        reveal(spec_preview);
        match self.panel {
            Panel::Mails => match &self.selected_mail {
                Some(m) => Some(
                    PreviewContent {
                        title: m.subject.clone(),
                        body: mail_lines(m, true, true),
                        highlight_first: true,
                    },
                ),
                None => match self.list_mail() {
                    Some(m) => Some(
                        PreviewContent {
                            title: m.subject.clone(),
                            body: mail_lines(m, false, false),
                            highlight_first: false,
                        },
                    ),
                    None => None,
                },
            },
            _ => match self.selected_id() {
                None => None,
                Some(id) => match self.panel {
                    Panel::Profiles => match profile_position(&self.profiles, id) {
                        Some(k) => {
                            let p = &self.profiles[k];
                            let body = vec![line("Server: ", p.server_url.as_str())];
                            assert(lines_view(body@) =~= seq!["Server: "@ + p.server_url@]);
                            Some(PreviewContent { title: p.name.clone(), body, highlight_first: false })
                        },
                        None => None,
                    },
                    Panel::Folders => match folder_position(&self.folders, id, false) {
                        Some(k) => {
                            let f = &self.folders[k];
                            let role: &str = match &f.role {
                                Some(r) => r.as_str(),
                                None => "-",
                            };
                            let mut total = to_owned("Total: ");
                            push_dec(&mut total, f.total_emails as u64);
                            let mut unread = to_owned("Unread: ");
                            push_dec(&mut unread, f.unread_emails as u64);
                            let body = vec![line("ID: ", f.id.as_str()), line("Role: ", role), total, unread];
                            assert(lines_view(body@) =~= seq![
                                "ID: "@ + f.id@,
                                "Role: "@ + match f.role {
                                    Some(r) => r@,
                                    None => "-"@,
                                },
                                "Total: "@ + dec(f.total_emails as nat),
                                "Unread: "@ + dec(f.unread_emails as nat),
                            ]);
                            Some(PreviewContent { title: f.name.clone(), body, highlight_first: false })
                        },
                        None => None,
                    },
                    Panel::Contacts => match contact_position(&self.contacts, id) {
                        Some(k) => {
                            let c = &self.contacts[k];
                            let body = vec![
                                line("Name: ", c.name.as_str()),
                                line("Email: ", c.email.as_str()),
                                line("Phone: ", c.phone.as_str()),
                            ];
                            assert(lines_view(body@) =~= seq![
                                "Name: "@ + c.name@,
                                "Email: "@ + c.email@,
                                "Phone: "@ + c.phone@,
                            ]);
                            Some(PreviewContent { title: c.name.clone(), body, highlight_first: false })
                        },
                        None => None,
                    },
                    _ => match event_position(&self.events, id) {
                        Some(k) => {
                            let e = &self.events[k];
                            let body = vec![
                                line("Title: ", e.title.as_str()),
                                line("Start: ", e.start.as_str()),
                                line("Duration: ", e.duration.as_str()),
                                line("Status: ", e.status.as_str()),
                            ];
                            assert(lines_view(body@) =~= seq![
                                "Title: "@ + e.title@,
                                "Start: "@ + e.start@,
                                "Duration: "@ + e.duration@,
                                "Status: "@ + e.status@,
                            ]);
                            Some(PreviewContent { title: e.title.clone(), body, highlight_first: false })
                        },
                        None => None,
                    },
                },
            },
        }
    }
}

/// The fields no action changes.
pub open spec fn same_data(o: App, n: App) -> bool {
    &&& n.profiles == o.profiles && n.folders == o.folders && n.mails == o.mails
    &&& n.contacts == o.contacts && n.events == o.events && n.config == o.config
    &&& n.matcher_running == o.matcher_running && n.total_count == o.total_count
    &&& n.matched_count == o.matched_count && n.results_height == o.results_height
    &&& n.loading == o.loading
}

/// The list: input, selection, results and preview.
pub open spec fn same_list(o: App, n: App) -> bool {
    &&& n.input == o.input && n.selected == o.selected && n.results == o.results
    &&& n.preview_content == o.preview_content
}

/// Where the view is: mode, panel, profile and folder.
pub open spec fn same_where(o: App, n: App) -> bool {
    &&& n.mode == o.mode && n.panel == o.panel
    &&& n.active_profile_name == o.active_profile_name
    &&& n.active_folder_id == o.active_folder_id
    &&& n.active_folder_name == o.active_folder_name
}

/// The interaction state besides the popouts.
pub open spec fn same_ui(o: App, n: App) -> bool {
    &&& n.input_mode == o.input_mode && n.error_message == o.error_message
    &&& n.selected_mail == o.selected_mail && n.show_quit_confirm == o.show_quit_confirm
    &&& n.pre_confirm_mode == o.pre_confirm_mode && n.should_quit == o.should_quit
}

/// The queued server operations.
pub open spec fn same_queue(o: App, n: App) -> bool {
    &&& n.needs_reload == o.needs_reload && n.pending_move == o.pending_move
    &&& n.pending_compose == o.pending_compose
    &&& n.pending_contact_create == o.pending_contact_create
    &&& n.pending_contact_delete == o.pending_contact_delete
    &&& n.pending_event_create == o.pending_event_create
    &&& n.pending_event_delete == o.pending_event_delete
}

/// The selection index the list uses (the first row when none).
pub open spec fn sel_or_first(a: App) -> int {
    match a.selected {
        Some(s) => s as int,
        None => 0,
    }
}

/// The list after a tick delivered `n` results: a selection past the end
/// moves to the last row, and with results something is selected.
pub open spec fn spec_tick_selection(sel: Option<usize>, n: int) -> Option<usize> {
    match sel {
        Some(s) => if s >= n && n > 0 {
            Some((n - 1) as usize)
        } else {
            Some(s)
        },
        None => if n > 0 {
            Some(0)
        } else {
            None
        },
    }
}

/// The name the app starts on: the one asked for, else the configured
/// default, else the first listed profile, else none.
pub open spec fn spec_start_profile(
    asked: Option<&str>,
    default_profile: Option<String>,
    listed: Seq<ProfileEntry>,
) -> Seq<char> {
    match asked {
        Some(s) => s@,
        None => match default_profile {
            Some(d) => d@,
            None => if listed.len() > 0 {
                listed[0].name@
            } else {
                Seq::empty()
            },
        },
    }
}

/// The title of the search bar for the current context.
pub open spec fn spec_context_title(a: App) -> Seq<char> {
    match a.panel {
        Panel::Profiles => "Select Profile"@,
        Panel::Folders => a.active_profile_name@ + "  ❯  Folders"@,
        Panel::Mails => a.active_profile_name@ + "  ❯  "@ + a.active_folder_name@,
        Panel::Contacts => a.active_profile_name@ + "  ❯  Contacts"@,
        Panel::Calendar => a.active_profile_name@ + "  ❯  Calendar"@,
    }
}

impl App {
    /// A new app over `config`, in the mail list, on the profile asked
    /// for, else the configured default, else the first profile.
    pub fn new(config: Config, profile_name: Option<&str>) -> (r: Self)
        ensures
            forall|i: int|
                0 <= i < r.profiles@.len() ==> config.profiles@.contains_key(
                    (#[trigger] r.profiles@[i]).name@,
                ) && r.profiles@[i].server_url == config.profiles@[r.profiles@[i].name@].server_url,
            forall|i: int, j: int|
                0 <= i < j < r.profiles@.len() ==> (#[trigger] r.profiles@[i]).name@ != (
                #[trigger] r.profiles@[j]).name@,
            forall|k: Seq<char>|
                #[trigger] config.profiles@.contains_key(k) ==> exists|i: int|
                    0 <= i < r.profiles@.len() && (#[trigger] r.profiles@[i]).name@ == k,
            r.active_profile_name@ == spec_start_profile(profile_name, config.default_profile, r.profiles@),
            r.config == config,
            r.input@.len() == 0,
            r.input_mode == InputMode::Normal,
            r.mode == Mode::Mail,
            r.panel == Panel::Mails,
            !r.matcher_running && r.total_count == 0 && r.matched_count == 0,
            r.results@.len() == 0,
            r.selected == Some(0usize),
            r.preview_content is None,
            r.results_height == 20,
            !r.should_quit,
            r.folders@.len() == 0 && r.mails@.len() == 0 && r.contacts@.len() == 0 && r.events@.len() == 0,
            r.active_folder_id is None,
            r.active_folder_name@ == "Inbox"@,
            !r.loading && r.error_message is None,
            !r.needs_reload && r.pending_move is None && !r.pending_compose,
            r.selected_mail is None,
            !r.pending_contact_create && !r.pending_contact_delete,
            !r.pending_event_create && !r.pending_event_delete,
            r.popouts.popouts@.len() == 0 && r.popouts.focused is None && r.popouts.next_id == 0,
            !r.show_quit_confirm && r.pre_confirm_mode is None,
            app_wf(r),
    {
        let listed = config.profiles.entries();
        let mut profiles: Vec<ProfileEntry> = Vec::new();
        let mut i: usize = 0;
        while i < listed.len()
            invariant
                i <= listed@.len(),
                profiles@.len() == i,
                forall|j: int|
                    0 <= j < i ==> (#[trigger] profiles@[j]).name@ == listed@[j].0@ && profiles@[j].server_url
                        == listed@[j].1.server_url,
            decreases listed@.len() - i,
        {
            let (name, p) = listed[i];
            profiles.push(ProfileEntry { name: to_owned(name), server_url: p.server_url.clone() });
            i = i + 1;
        }
        let active_profile_name = match profile_name {
            Some(s) => to_owned(s),
            None => match &config.default_profile {
                Some(d) => d.clone(),
                None => if profiles.len() > 0 {
                    profiles[0].name.clone()
                } else {
                    String::new()
                },
            },
        };
        proof {
            assert forall|k: Seq<char>| #[trigger] config.profiles@.contains_key(k) implies exists|j: int|
                0 <= j < profiles@.len() && (#[trigger] profiles@[j]).name@ == k by {
                let j = choose|j: int| 0 <= j < listed@.len() && (#[trigger] listed@[j]).0@ == k;
                assert(profiles@[j].name@ == k);
            }
            assert forall|a: int, b: int| 0 <= a < b < profiles@.len() implies (#[trigger] profiles@[a]).name@
                != (#[trigger] profiles@[b]).name@ by {
                assert(listed@[a].0@ != listed@[b].0@);
            }
        }
        App {
            input: String::new(),
            input_mode: InputMode::Normal,
            mode: Mode::Mail,
            panel: Panel::Mails,
            matcher_running: false,
            total_count: 0,
            matched_count: 0,
            results: Vec::new(),
            selected: Some(0),
            preview_content: None,
            results_height: 20,
            should_quit: false,
            profiles,
            folders: Vec::new(),
            mails: Vec::new(),
            contacts: Vec::new(),
            events: Vec::new(),
            active_profile_name,
            active_folder_id: None,
            active_folder_name: to_owned("Inbox"),
            config,
            loading: false,
            error_message: None,
            needs_reload: false,
            pending_move: None,
            pending_compose: false,
            selected_mail: None,
            pending_contact_create: false,
            pending_contact_delete: false,
            pending_event_create: false,
            pending_event_delete: false,
            popouts: PopoutManager::new(),
            show_quit_confirm: false,
            pre_confirm_mode: None,
        }
    }

    /// The display name for the current context (shown in the search bar
    /// title).
    pub fn context_title(&self) -> (r: String)
        ensures
            r@ == spec_context_title(*self),
    {
        match self.panel {
            Panel::Profiles => to_owned("Select Profile"),
            Panel::Folders => line(self.active_profile_name.as_str(), "  ❯  Folders"),
            Panel::Mails => {
                let mut s = line(self.active_profile_name.as_str(), "  ❯  ");
                push_str(&mut s, self.active_folder_name.as_str());
                s
            },
            Panel::Contacts => line(self.active_profile_name.as_str(), "  ❯  Contacts"),
            Panel::Calendar => line(self.active_profile_name.as_str(), "  ❯  Calendar"),
        }
    }

    /// Recomputes the preview pane from the selection.
    pub fn update_preview(&mut self)
        ensures
            preview_view(final(self).preview_content) == spec_preview(*old(self)),
            preview_view(final(self).preview_content) == spec_preview(*final(self)),
            same_data(*old(self), *final(self)),
            same_where(*old(self), *final(self)),
            same_ui(*old(self), *final(self)),
            same_queue(*old(self), *final(self)),
            final(self).popouts == old(self).popouts,
            final(self).input == old(self).input && final(self).selected == old(self).selected,
            final(self).results == old(self).results,
    {
        self.preview_content = self.compute_preview();
        proof {
            reveal(spec_preview);
        }
    }

    /// Takes what the matcher reports: its counts and the page of results
    /// under the list. The selection is kept on a row, and the preview
    /// follows it.
    pub fn tick(&mut self, status: MatcherStatus, results: Vec<MatchedItem<String>>)
        ensures
            final(self).matcher_running == status.running,
            final(self).total_count == status.total,
            final(self).matched_count == status.matched,
            final(self).results@ == results@,
            final(self).selected == spec_tick_selection(old(self).selected, results@.len() as int),
            preview_view(final(self).preview_content) == spec_preview(*final(self)),
            same_where(*old(self), *final(self)),
            same_ui(*old(self), *final(self)),
            same_queue(*old(self), *final(self)),
            final(self).popouts == old(self).popouts,
            final(self).input == old(self).input,
            final(self).profiles == old(self).profiles && final(self).folders == old(self).folders,
            final(self).mails == old(self).mails && final(self).contacts == old(self).contacts,
            final(self).events == old(self).events && final(self).config == old(self).config,
    {
        self.matcher_running = status.running;
        self.total_count = status.total;
        self.matched_count = status.matched;
        self.results = results;
        let n = self.results.len();
        match self.selected {
            Some(sel) => if sel >= n && n > 0 {
                self.selected = Some(n - 1);
            },
            None => if n > 0 {
                self.selected = Some(0);
            },
        }
        self.update_preview();
    }
}

} // verus!
