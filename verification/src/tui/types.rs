//! Entry types shared between the worker (which fetches them) and the
//! screens (which display them).

use vstd::prelude::*;

use crate::strings::{byte_slice, str_get};

verus! {

/// A mailbox/folder entry.
#[derive(Debug, Clone)]
pub struct FolderEntry {
    pub id: String,
    pub name: String,
    pub parent_id: Option<String>,
    pub role: Option<String>,
    pub sort_order: u32,
    pub total_emails: u32,
    pub unread_emails: u32,
    /// Computed display name with tree indentation.
    pub display_name: String,
    /// Tree depth (0 = root).
    pub depth: usize,
    /// Action tag from config resolution (e.g. "sent", "trash").
    pub action_tag: Option<String>,
}

/// An email list entry.
#[derive(Debug, Clone)]
pub struct MailEntry {
    pub id: String,
    pub subject: String,
    pub from: String,
    pub date: String,
    pub preview: String,
    /// First mailbox id, for folder-name resolution in all-folder views.
    pub folder_id: Option<String>,
    pub is_read: bool,
}

impl MailEntry {
    pub fn is_unread(&self) -> (r: bool)
        ensures
            r == !self.is_read,
    {
        !self.is_read
    }
}

/// A contact list entry.
#[derive(Debug, Clone)]
pub struct ContactEntry {
    pub id: String,
    pub name: String,
    pub email: String,
    pub phone: String,
}

/// A calendar event entry.
#[derive(Debug, Clone)]
pub struct EventEntry {
    pub id: String,
    pub title: String,
    /// ISO 8601 local date-time, e.g. "2026-07-13T09:00:00".
    pub start: String,
    /// ISO 8601 duration, e.g. "PT1H".
    pub duration: String,
    pub status: String,
}

/// The text of an optional byte slice, empty when the slice is not there.
pub open spec fn slice_or_empty(s: Seq<char>, a: int, b: int) -> Seq<char> {
    match byte_slice(s, a, b) {
        Some(t) => t,
        None => Seq::empty(),
    }
}

impl EventEntry {
    /// The date part of `start` ("YYYY-MM-DD"), if present.
    pub fn start_date(&self) -> (r: &str)
        ensures
            r@ == slice_or_empty(self.start@, 0, 10),
    {
        match str_get(self.start.as_str(), 0, 10) {
            Some(t) => t,
            None => {
                proof {
                    reveal_strlit("");
                }
                ""
            },
        }
    }

    /// The time part of `start` ("HH:MM"), if present.
    pub fn start_time(&self) -> (r: &str)
        ensures
            r@ == slice_or_empty(self.start@, 11, 16),
    {
        match str_get(self.start.as_str(), 11, 16) {
            Some(t) => t,
            None => {
                proof {
                    reveal_strlit("");
                }
                ""
            },
        }
    }
}

} // verus!
