//! Watching a mailbox for new mail: which mailbox is watched, which new
//! messages are reported, and how long to wait before reconnecting to the
//! server's event stream.

use vstd::prelude::*;

use crate::seqs::{first_match, lemma_first_match_at, lemma_first_match_none};
use crate::strings::{chars_of, str_eq};

verus! {

/// Seconds to wait before the first reconnect to the event stream.
pub const BACKOFF_START_SECS: u64 = 1;

/// The longest wait between reconnects.
pub const BACKOFF_MAX_SECS: u64 = 60;

/// How often the server is asked to ping an idle event stream, in seconds.
pub const PING_SECS: u32 = 30;

/// The code of a character with ASCII upper case folded to lower case.
pub open spec fn fold_code(c: char) -> int {
    if 'A' <= c && c <= 'Z' {
        c as int + 32
    } else {
        c as int
    }
}

/// Two texts are equal when ASCII letters are compared without case.
pub open spec fn eq_fold(a: Seq<char>, b: Seq<char>) -> bool {
    a.len() == b.len() && forall|i: int| 0 <= i < a.len() ==> #[trigger] fold_code(a[i]) == fold_code(b[i])
}

fn fold(c: char) -> (r: u32)
    ensures
        r == fold_code(c),
{
    let n = c as u32;
    if 'A' <= c && c <= 'Z' {
        n + 32
    } else {
        n
    }
}

/// ASCII-case-insensitive equality of two texts (as
/// `str::eq_ignore_ascii_case` compares them).
pub fn eq_ignore_ascii_case(a: &str, b: &str) -> (r: bool)
    ensures
        r == eq_fold(a@, b@),
{
    let x = chars_of(a);
    let y = chars_of(b);
    if x.len() != y.len() {
        return false;
    }
    let mut i: usize = 0;
    while i < x.len()
        invariant
            x@ == a@,
            y@ == b@,
            x@.len() == y@.len(),
            i <= x@.len(),
            forall|j: int| 0 <= j < i ==> #[trigger] fold_code(x@[j]) == fold_code(y@[j]),
        decreases x@.len() - i,
    {
        if fold(x[i]) != fold(y[i]) {
            return false;
        }
        i = i + 1;
    }
    true
}

/// A mailbox as far as watching goes.
#[derive(Debug, Clone)]
pub struct NamedMailbox {
    pub id: String,
    pub name: String,
    pub role: Option<String>,
}

/// The mailbox is the one named `folder`: by name or by role, ASCII case
/// ignored.
pub open spec fn names_folder(folder: Seq<char>) -> spec_fn(NamedMailbox) -> bool {
    |b: NamedMailbox| eq_fold(b.name@, folder) || (b.role matches Some(r) && eq_fold(r@, folder))
}

/// The mailbox has the `inbox` role.
pub open spec fn is_inbox() -> spec_fn(NamedMailbox) -> bool {
    |b: NamedMailbox| b.role matches Some(r) && r@ == "inbox"@
}

/// The mailbox to watch: the first named `folder` when one is given,
/// else the first with the `inbox` role.
pub open spec fn spec_watch_mailbox(bs: Seq<NamedMailbox>, folder: Option<Seq<char>>) -> Option<int> {
    match folder {
        Some(f) => first_match(bs, names_folder(f)),
        None => first_match(bs, is_inbox()),
    }
}

fn names(b: &NamedMailbox, folder: &str) -> (r: bool)
    ensures
        r == names_folder(folder@)(*b),
{
    if eq_ignore_ascii_case(b.name.as_str(), folder) {
        return true;
    }
    match &b.role {
        Some(r) => eq_ignore_ascii_case(r.as_str(), folder),
        None => false,
    }
}

fn inbox(b: &NamedMailbox) -> (r: bool)
    ensures
        r == is_inbox()(*b),
{
    match &b.role {
        Some(r) => str_eq(r.as_str(), "inbox"),
        None => false,
    }
}

/// Chooses the mailbox to watch (see `spec_watch_mailbox`).
pub fn watch_mailbox(bs: &Vec<NamedMailbox>, folder: Option<&str>) -> (r: Option<usize>)
    ensures
        match spec_watch_mailbox(
            bs@,
            match folder {
                Some(f) => Some(f@),
                None => None,
            },
        ) {
            Some(i) => r == Some(i as usize),
            None => r is None,
        },
{
    let ghost p = match folder {
        Some(f) => names_folder(f@),
        None => is_inbox(),
    };
    let mut i: usize = 0;
    while i < bs.len()
        invariant
            i <= bs@.len(),
            p == match folder {
                Some(f) => names_folder(f@),
                None => is_inbox(),
            },
            forall|j: int| 0 <= j < i ==> !p(#[trigger] bs@[j]),
        decreases bs@.len() - i,
    {
        let hit = match folder {
            Some(f) => names(&bs[i], f),
            None => inbox(&bs[i]),
        };
        if hit {
            proof {
                lemma_first_match_at(bs@, p, i as int);
            }
            return Some(i);
        }
        i = i + 1;
    }
    proof {
        lemma_first_match_none(bs@, p);
    }
    None
}

fn contains_id(ids: &Vec<String>, t: &str) -> (r: bool)
    ensures
        r == exists|i: int| 0 <= i < ids@.len() && #[trigger] ids@[i]@ == t@,
{
    let mut i: usize = 0;
    while i < ids.len()
        invariant
            i <= ids@.len(),
            forall|j: int| 0 <= j < i ==> #[trigger] ids@[j]@ != t@,
        decreases ids@.len() - i,
    {
        if str_eq(ids[i].as_str(), t) {
            assert(ids@[i as int]@ == t@);
            return true;
        }
        i = i + 1;
    }
    false
}

/// Whether a new message in the mailboxes `mailbox_ids` is reported:
/// always when every mailbox is watched, else when it is in the watched
/// one.
pub fn in_watched_mailbox(mailbox_ids: &Vec<String>, target: Option<&str>) -> (r: bool)
    ensures
        r == match target {
            None => true,
            Some(t) => exists|i: int| 0 <= i < mailbox_ids@.len() && #[trigger] mailbox_ids@[i]@ == t@,
        },
{
    match target {
        None => true,
        Some(t) => contains_id(mailbox_ids, t),
    }
}

/// The wait before the next reconnect after waiting `secs`: twice as
/// long, at most `BACKOFF_MAX_SECS`.
pub open spec fn spec_next_backoff(secs: int) -> int {
    if 2 * secs < BACKOFF_MAX_SECS {
        2 * secs
    } else {
        BACKOFF_MAX_SECS as int
    }
}

/// Doubles the wait between reconnects, up to `BACKOFF_MAX_SECS`.
pub fn next_backoff(secs: u64) -> (r: u64)
    ensures
        r == spec_next_backoff(secs as int),
{
    if secs < BACKOFF_MAX_SECS / 2 {
        secs * 2
    } else {
        BACKOFF_MAX_SECS
    }
}

/// From any wait between the first and the longest, the next wait is no
/// shorter and still within the longest: the waits of a reconnect loop
/// stay between `BACKOFF_START_SECS` and `BACKOFF_MAX_SECS`.
pub proof fn law_backoff_bounded(secs: int)
    requires
        BACKOFF_START_SECS <= secs <= BACKOFF_MAX_SECS,
    ensures
        secs <= spec_next_backoff(secs) <= BACKOFF_MAX_SECS,
{
}

} // verus!
