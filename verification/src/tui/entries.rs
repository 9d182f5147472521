//! List entry types for each hierarchy level of the list view, plus their
//! display formatting.

use vstd::prelude::*;

use crate::digits::{dec, push_dec};
use crate::strings::{push_str, to_owned};

verus! {

/// A profile entry (from config).
#[derive(Debug, Clone)]
pub struct ProfileEntry {
    pub name: String,
    pub server_url: String,
}

/// A mailbox/folder entry.
#[derive(Debug, Clone)]
pub struct FolderEntry {
    pub id: String,
    pub name: String,
    pub parent_id: Option<String>,
    pub role: Option<String>,
    pub sort_order: u32,
    pub total_emails: u32,
    pub unread_emails: u32,
    /// Computed display name with tree indentation.
    pub display_name: String,
    /// Tree depth (0 = root).
    pub depth: usize,
    /// Action tag from config resolution (e.g. "sent", "trash", "archive", "spam").
    pub action_tag: Option<String>,
}

/// An email entry (list view).
#[derive(Debug, Clone)]
pub struct MailEntry {
    pub id: String,
    pub subject: String,
    pub from: String,
    pub date: String,
    pub preview: String,
    /// Folder name for cross-folder search results. `None` for single-folder views.
    pub folder_name: Option<String>,
}

/// A contact entry (list view).
#[derive(Debug, Clone)]
pub struct ContactEntry {
    pub id: String,
    pub name: String,
    pub email: String,
    pub phone: String,
}

/// A calendar event entry (list view).
#[derive(Debug, Clone)]
pub struct CalendarEventEntry {
    pub id: String,
    pub title: String,
    pub start: String,
    pub duration: String,
    pub status: String,
}

/// The tag a folder row shows: its action tag, else its server role,
/// else nothing.
pub open spec fn shown_tag(f: FolderEntry) -> Seq<char> {
    match f.action_tag {
        Some(t) => t@,
        None => match f.role {
            Some(r) => r@,
            None => Seq::empty(),
        },
    }
}

/// A folder row: display name, tag in brackets when there is one, then
/// the total and the unread count.
pub open spec fn spec_format_folder(f: FolderEntry) -> Seq<char> {
    let unread = if f.unread_emails > 0 {
        " •"@ + dec(f.unread_emails as nat)
    } else {
        Seq::empty()
    };
    let tag = shown_tag(f);
    if tag.len() == 0 {
        f.display_name@ + "  ("@ + dec(f.total_emails as nat) + unread + ")"@
    } else {
        f.display_name@ + "  ["@ + tag + "]  ("@ + dec(f.total_emails as nat) + unread + ")"@
    }
}

pub fn format_folder(f: &FolderEntry) -> (r: String)
    ensures
        r@ == spec_format_folder(*f),
{
    let tag: &str = match &f.action_tag {
        Some(t) => t.as_str(),
        None => match &f.role {
            Some(r) => r.as_str(),
            None => {
                proof {
                    reveal_strlit("");
                }
                ""
            },
        },
    };
    let mut out = f.display_name.clone();
    if tag.is_empty() {
        push_str(&mut out, "  (");
    } else {
        push_str(&mut out, "  [");
        push_str(&mut out, tag);
        push_str(&mut out, "]  (");
    }
    push_dec(&mut out, f.total_emails as u64);
    if f.unread_emails > 0 {
        push_str(&mut out, " •");
        push_dec(&mut out, f.unread_emails as u64);
    }
    push_str(&mut out, ")");
    proof {
        let unread = if f.unread_emails > 0 {
            " •"@ + dec(f.unread_emails as nat)
        } else {
            Seq::<char>::empty()
        };
        if tag@.len() == 0 {
            assert(out@ =~= f.display_name@ + "  ("@ + dec(f.total_emails as nat) + unread + ")"@);
        } else {
            assert(out@ =~= f.display_name@ + "  ["@ + tag@ + "]  ("@ + dec(f.total_emails as nat) + unread
                + ")"@);
        }
    }
    out
}

/// A mail row: `[folder] from — subject`, the folder only in
/// cross-folder results.
pub open spec fn spec_format_mail(m: MailEntry) -> Seq<char> {
    match m.folder_name {
        Some(folder) => "["@ + folder@ + "] "@ + m.from@ + " — "@ + m.subject@,
        None => m.from@ + " — "@ + m.subject@,
    }
}

pub fn format_mail(m: &MailEntry) -> (r: String)
    ensures
        r@ == spec_format_mail(*m),
{
    let mut out = String::new();
    match &m.folder_name {
        Some(folder) => {
            push_str(&mut out, "[");
            push_str(&mut out, folder.as_str());
            push_str(&mut out, "] ");
        },
        None => {},
    }
    push_str(&mut out, m.from.as_str());
    push_str(&mut out, " — ");
    push_str(&mut out, m.subject.as_str());
    proof {
        if m.folder_name is Some {
            let folder = m.folder_name->0;
            assert(out@ =~= "["@ + folder@ + "] "@ + m.from@ + " — "@ + m.subject@);
        } else {
            assert(out@ =~= m.from@ + " — "@ + m.subject@);
        }
    }
    out
}

/// A contact row: the name, with the email in angle brackets when there
/// is one.
pub open spec fn spec_format_contact(c: ContactEntry) -> Seq<char> {
    if c.email@.len() == 0 {
        c.name@
    } else {
        c.name@ + " <"@ + c.email@ + ">"@
    }
}

pub fn format_contact(c: &ContactEntry) -> (r: String)
    ensures
        r@ == spec_format_contact(*c),
{
    if c.email.as_str().is_empty() {
        c.name.clone()
    } else {
        let mut out = c.name.clone();
        push_str(&mut out, " <");
        push_str(&mut out, c.email.as_str());
        push_str(&mut out, ">");
        out
    }
}

/// An event row: `start — title`, or the title alone without a start.
pub open spec fn spec_format_event(e: CalendarEventEntry) -> Seq<char> {
    if e.start@.len() == 0 {
        e.title@
    } else {
        e.start@ + " — "@ + e.title@
    }
}

pub fn format_event(e: &CalendarEventEntry) -> (r: String)
    ensures
        r@ == spec_format_event(*e),
{
    if e.start.as_str().is_empty() {
        e.title.clone()
    } else {
        let mut out = e.start.clone();
        push_str(&mut out, " — ");
        push_str(&mut out, e.title.as_str());
        out
    }
}

} // verus!
