//! Mail screen state: folder list, mail list and the search scope.
//!
//! The mail list is paged from the server: a short page means the end was
//! reached, later pages are appended without repeating a mail already
//! listed, and scrolling near the bottom asks for the next page. The fuzzy
//! matcher that ranks the list runs on background threads; what it reports
//! (how many items match, and the page of results under the window) is
//! handed in as plain values.

use vstd::prelude::*;

use crate::seqs::{first_match, lemma_first_match, lemma_first_match_at, lemma_first_match_none};
use crate::strings::{chars_of, push_char, push_str, str_eq, to_owned};
use crate::tui::model::window::{
    law_select_lands_on_index, spec_clamp, spec_select, spec_select_next, spec_select_prev,
    spec_selected, ListWindow,
};
use crate::tui::search::MatchedItem;
use crate::tui::types::{FolderEntry, MailEntry};

verus! {

/// Fetch the next page when the selection is this close to the end.
pub const LAZY_LOAD_THRESHOLD: usize = 10;

/// Number of mails the server is asked for per page.
pub const MAIL_PAGE_SIZE: usize = 50;

/// Which pane of the mail screen has the cursor.
#[derive(Debug, Clone, Copy, PartialEq, Eq, Structural)]
pub enum MailFocus {
    List,
    Folders,
    Account,
    SearchResults,
}

/// The state of the mail screen.
pub struct MailScreen {
    pub focus: MailFocus,
    pub folders: Vec<FolderEntry>,
    pub folder_win: ListWindow,
    pub active_folder_id: Option<String>,
    pub active_folder_name: String,
    pub mails: Vec<MailEntry>,
    /// The matcher's results for the rows under the window.
    pub results: Vec<MatchedItem<String>>,
    /// How many mails the matcher currently reports as matching.
    pub matched_count: u32,
    pub win: ListWindow,
    pub query: String,
    /// Whether the list holds mails of all folders (a search) or of one.
    pub all_folders: bool,
    /// No further page exists on the server.
    pub exhausted: bool,
    /// A next page has been asked for and has not arrived.
    pub loading_more: bool,
}

/// Which attribute of a folder a lookup compares.
pub enum FolderKey {
    Id,
    Role,
    Tag,
}

/// The optional text is there and equals `v`.
pub open spec fn opt_is(o: Option<String>, v: Seq<char>) -> bool {
    o matches Some(t) && t@ == v
}

/// The folder's attribute `key` equals `v`.
pub open spec fn folder_key_is(key: FolderKey, v: Seq<char>) -> spec_fn(FolderEntry) -> bool {
    |f: FolderEntry|
        match key {
            FolderKey::Id => f.id@ == v,
            FolderKey::Role => opt_is(f.role, v),
            FolderKey::Tag => opt_is(f.action_tag, v),
        }
}

/// The mail carries the id `id`.
pub open spec fn mail_id_is(id: Seq<char>) -> spec_fn(MailEntry) -> bool {
    |m: MailEntry| m.id@ == id
}

/// The folder under the folder cursor.
pub open spec fn spec_selected_folder(fs: Seq<FolderEntry>, w: ListWindow) -> Option<FolderEntry> {
    let s = spec_selected(w);
    if s < fs.len() {
        Some(fs[s])
    } else {
        None
    }
}

/// The folder window after a reload: back on the previously selected
/// folder when it is still listed, then kept inside the list.
pub open spec fn spec_folder_reload_window(
    old_sel: Option<FolderEntry>,
    fs: Seq<FolderEntry>,
    w: ListWindow,
) -> ListWindow {
    let w1 = match old_sel {
        Some(f) => match first_match(fs, folder_key_is(FolderKey::Id, f.id@)) {
            Some(pos) => spec_select(w, pos, fs.len() as int),
            None => w,
        },
        None => w,
    };
    spec_clamp(w1, fs.len() as int)
}

/// Some mail of `ms` carries the id `id`.
pub open spec fn has_mail_id(ms: Seq<MailEntry>, id: Seq<char>) -> bool {
    exists|i: int| 0 <= i < ms.len() && #[trigger] ms[i].id@ == id
}

/// The mails of `new` whose id is not among `known`, in order.
pub open spec fn fresh_mails(known: Seq<MailEntry>, new: Seq<MailEntry>) -> Seq<MailEntry>
    decreases new.len(),
{
    if new.len() == 0 {
        Seq::empty()
    } else {
        let rest = fresh_mails(known, new.drop_last());
        if has_mail_id(known, new.last().id@) {
            rest
        } else {
            rest.push(new.last())
        }
    }
}

/// The name of the folder a mail lives in, or "?" when unknown.
pub open spec fn spec_folder_name(fs: Seq<FolderEntry>, m: MailEntry) -> Seq<char> {
    match m.folder_id {
        Some(id) => match first_match(fs, folder_key_is(FolderKey::Id, id@)) {
            Some(k) => fs[k].name@,
            None => "?"@,
        },
        None => "?"@,
    }
}

/// The line the fuzzy matcher sees for a mail: sender and subject, led by
/// the folder name in an all-folder list.
pub open spec fn spec_format_mail(fs: Seq<FolderEntry>, all: bool, m: MailEntry) -> Seq<char> {
    if all {
        "["@ + spec_folder_name(fs, m) + "] "@ + m.from@ + " — "@ + m.subject@
    } else {
        m.from@ + " — "@ + m.subject@
    }
}

/// Index of the inbox: the folder tagged "inbox", else the one whose role
/// is "inbox".
pub open spec fn spec_inbox(fs: Seq<FolderEntry>) -> Option<int> {
    match first_match(fs, folder_key_is(FolderKey::Tag, "inbox"@)) {
        Some(i) => Some(i),
        None => first_match(fs, folder_key_is(FolderKey::Role, "inbox"@)),
    }
}

/// Whether the list shows the inbox; with no folder chosen it does.
pub open spec fn spec_is_inbox_active(fs: Seq<FolderEntry>, active: Option<String>) -> bool {
    match active {
        None => true,
        Some(id) => match spec_inbox(fs) {
            Some(i) => fs[i].id@ == id@,
            None => false,
        },
    }
}

/// Whether moving down in the mail list should fetch the next page.
pub open spec fn spec_wants_more(exhausted: bool, loading: bool, w: ListWindow, total: int) -> bool {
    !exhausted && !loading && spec_selected(w) + LAZY_LOAD_THRESHOLD >= total
}

/// The character at position `p` of a matched string is highlighted.
pub open spec fn is_highlighted(indices: Seq<u32>, p: int) -> bool {
    indices.contains(p as u32)
}

/// The text cut into maximal runs of characters that are all highlighted
/// or all plain, each with its flag.
pub open spec fn spec_runs(cs: Seq<char>, indices: Seq<u32>) -> Seq<(Seq<char>, bool)>
    decreases cs.len(),
{
    if cs.len() == 0 {
        Seq::empty()
    } else {
        let r = spec_runs(cs.drop_last(), indices);
        let h = is_highlighted(indices, cs.len() - 1);
        if r.len() > 0 && r.last().1 == h {
            r.update(r.len() - 1, (r.last().0.push(cs.last()), h))
        } else {
            r.push((seq![cs.last()], h))
        }
    }
}

/// The runs a result line is drawn from: without match indices the whole
/// text as one plain run, else the text cut at each change between
/// highlighted and plain characters.
pub open spec fn spec_highlight_runs(text: Seq<char>, indices: Seq<u32>) -> Seq<(Seq<char>, bool)> {
    if indices.len() == 0 {
        seq![(text, false)]
    } else {
        spec_runs(text, indices)
    }
}

/// The views of a list of runs.
pub open spec fn runs_view(v: Seq<(String, bool)>) -> Seq<(Seq<char>, bool)> {
    v.map_values(|r: (String, bool)| (r.0@, r.1))
}

/// A folder reload that still lists the selected folder keeps it
/// selected.
pub proof fn law_folder_selection_survives_reload(
    old_fs: Seq<FolderEntry>,
    fs: Seq<FolderEntry>,
    w: ListWindow,
)
    requires
        w.height >= 1,
        fs.len() <= usize::MAX,
        spec_selected_folder(old_fs, w) matches Some(f) && first_match(
            fs,
            folder_key_is(FolderKey::Id, f.id@),
        ) is Some,
    ensures
        spec_selected_folder(fs, spec_folder_reload_window(spec_selected_folder(old_fs, w), fs, w))
            matches Some(g) && g.id@ == spec_selected_folder(old_fs, w)->0.id@,
{
    let f = spec_selected_folder(old_fs, w)->0;
    lemma_first_match(fs, folder_key_is(FolderKey::Id, f.id@));
    let pos = first_match(fs, folder_key_is(FolderKey::Id, f.id@))->0;
    let w1 = spec_select(w, pos, fs.len() as int);
    law_select_lands_on_index(w, pos, fs.len() as int);
    assert(spec_clamp(w1, fs.len() as int) == w1);
}

/// A later page adds only mails not listed before, and no more of them
/// than the page holds.
pub proof fn law_appended_mails_are_new(known: Seq<MailEntry>, page: Seq<MailEntry>)
    ensures
        fresh_mails(known, page).len() <= page.len(),
        forall|k: int|
            0 <= k < fresh_mails(known, page).len() ==> !has_mail_id(
                known,
                (#[trigger] fresh_mails(known, page)[k]).id@,
            ),
    decreases page.len(),
{
    if page.len() > 0 {
        law_appended_mails_are_new(known, page.drop_last());
        let rest = fresh_mails(known, page.drop_last());
        if !has_mail_id(known, page.last().id@) {
            assert forall|k: int| 0 <= k < rest.push(page.last()).len() implies !has_mail_id(
                known,
                (#[trigger] rest.push(page.last())[k]).id@,
            ) by {
                if k < rest.len() {
                    assert(rest.push(page.last())[k] == rest[k]);
                }
            }
        }
    }
}

/// The texts of a list of runs, joined.
pub open spec fn joined_runs(rs: Seq<(Seq<char>, bool)>) -> Seq<char>
    decreases rs.len(),
{
    if rs.len() == 0 {
        Seq::empty()
    } else {
        joined_runs(rs.drop_last()) + rs.last().0
    }
}

/// Cutting a line into runs loses and adds nothing: the runs joined give
/// the text back, no run is empty, and neighbouring runs differ in their
/// highlight.
pub proof fn law_runs_rebuild_text(cs: Seq<char>, indices: Seq<u32>)
    ensures
        joined_runs(spec_runs(cs, indices)) == cs,
        forall|k: int|
            0 <= k < spec_runs(cs, indices).len() ==> (#[trigger] spec_runs(cs, indices)[k]).0.len()
                > 0,
        forall|k: int|
            0 <= k < spec_runs(cs, indices).len() - 1 ==> (#[trigger] spec_runs(cs, indices)[k]).1
                != spec_runs(cs, indices)[k + 1].1,
    decreases cs.len(),
{
    if cs.len() > 0 {
        let r = spec_runs(cs.drop_last(), indices);
        law_runs_rebuild_text(cs.drop_last(), indices);
        let h = is_highlighted(indices, cs.len() - 1);
        if r.len() > 0 && r.last().1 == h {
            let r2 = r.update(r.len() - 1, (r.last().0.push(cs.last()), h));
            assert(r2.drop_last() =~= r.drop_last());
            assert(joined_runs(r2) == joined_runs(r.drop_last()) + r.last().0.push(cs.last()));
            assert(joined_runs(r) == joined_runs(r.drop_last()) + r.last().0);
            assert(joined_runs(r.drop_last()) + r.last().0.push(cs.last()) =~= (joined_runs(
                r.drop_last(),
            ) + r.last().0).push(cs.last()));
            assert(cs.drop_last().push(cs.last()) =~= cs);
        } else {
            let r2 = r.push((seq![cs.last()], h));
            assert(r2.drop_last() =~= r);
            assert(joined_runs(r2) == joined_runs(r) + seq![cs.last()]);
            assert(cs.drop_last() + seq![cs.last()] =~= cs);
        }
    }
}

/// Whether `indices` holds `i`.
fn holds_index(indices: &[u32], i: u32) -> (r: bool)
    ensures
        r == indices@.contains(i),
{
    let mut k: usize = 0;
    while k < indices.len()
        invariant
            k <= indices@.len(),
            forall|j: int| 0 <= j < k ==> indices@[j] != i,
        decreases indices@.len() - k,
    {
        if indices[k] == i {
            assert(indices@[k as int] == i);
            return true;
        }
        k = k + 1;
    }
    false
}

/// Cuts a result line into highlighted and plain runs for drawing.
pub fn highlight_runs(text: &str, indices: &[u32]) -> (r: Vec<(String, bool)>)
    ensures
        runs_view(r@) == spec_highlight_runs(text@, indices@),
{
    if indices.len() == 0 {
        let r = vec![(to_owned(text), false)];
        assert(runs_view(r@) =~= seq![(text@, false)]);
        return r;
    }
    let cs = chars_of(text);
    let mut runs: Vec<(String, bool)> = Vec::new();
    let mut i: usize = 0;
    while i < cs.len()
        invariant
            i <= cs@.len(),
            cs@ == text@,
            runs_view(runs@) == spec_runs(cs@.take(i as int), indices@),
        decreases cs@.len() - i,
    {
        let c = cs[i];
        #[verifier::truncate]
        let pos = i as u32;
        let h = holds_index(indices, pos);
        let ghost before = runs_view(runs@);
        assert(cs@.take(i as int + 1).drop_last() == cs@.take(i as int));
        assert(cs@.take(i as int + 1).last() == c);
        assert(h == is_highlighted(indices@, i as int));
        let n = runs.len();
        if n > 0 && runs[n - 1].1 == h {
            let last = runs.pop();
            match last {
                Some(pair) => {
                    let (mut run, flag) = pair;
                    push_char(&mut run, c);
                    runs.push((run, flag));
                },
                None => {},
            }
            assert(runs_view(runs@) =~= before.update(before.len() - 1, (before.last().0.push(c), h)));
        } else {
            let mut run = String::new();
            push_char(&mut run, c);
            runs.push((run, h));
            assert(runs_view(runs@) =~= before.push((seq![c], h)));
        }
        i = i + 1;
    }
    assert(cs@.take(cs@.len() as int) == cs@);
    runs
}

/// The folder's attribute `key` equals `value`.
fn folder_has(f: &FolderEntry, key: &FolderKey, value: &str) -> (r: bool)
    ensures
        r == folder_key_is(*key, value@)(*f),
{
    match key {
        FolderKey::Id => str_eq(f.id.as_str(), value),
        FolderKey::Role => match &f.role {
            Some(t) => str_eq(t.as_str(), value),
            None => false,
        },
        FolderKey::Tag => match &f.action_tag {
            Some(t) => str_eq(t.as_str(), value),
            None => false,
        },
    }
}

/// Position of the first folder whose `key` equals `value`.
fn folder_position(fs: &Vec<FolderEntry>, key: FolderKey, value: &str) -> (r: Option<usize>)
    ensures
        r matches Some(p) ==> first_match(fs@, folder_key_is(key, value@)) == Some(p as int) && p
            < fs@.len(),
        r is None ==> first_match(fs@, folder_key_is(key, value@)) is None,
{
    let ghost p = folder_key_is(key, value@);
    let mut i: usize = 0;
    while i < fs.len()
        invariant
            i <= fs@.len(),
            p == folder_key_is(key, value@),
            forall|j: int| 0 <= j < i ==> !p(#[trigger] fs@[j]),
        decreases fs@.len() - i,
    {
        if folder_has(&fs[i], &key, value) {
            proof {
                lemma_first_match_at(fs@, p, i as int);
            }
            return Some(i);
        }
        i = i + 1;
    }
    proof {
        lemma_first_match_none(fs@, p);
    }
    None
}

/// Position of the first mail with `id`.
fn mail_position(ms: &Vec<MailEntry>, id: &str) -> (r: Option<usize>)
    ensures
        r matches Some(p) ==> first_match(ms@, mail_id_is(id@)) == Some(p as int) && p < ms@.len(),
        r is None ==> first_match(ms@, mail_id_is(id@)) is None,
{
    let ghost p = mail_id_is(id@);
    let mut i: usize = 0;
    while i < ms.len()
        invariant
            i <= ms@.len(),
            p == mail_id_is(id@),
            forall|j: int| 0 <= j < i ==> !p(#[trigger] ms@[j]),
        decreases ms@.len() - i,
    {
        if str_eq(ms[i].id.as_str(), id) {
            proof {
                lemma_first_match_at(ms@, p, i as int);
            }
            return Some(i);
        }
        i = i + 1;
    }
    proof {
        lemma_first_match_none(ms@, p);
    }
    None
}

/// Whether one of the first `n` mails carries `id`.
fn known_id(ms: &Vec<MailEntry>, n: usize, id: &str) -> (r: bool)
    requires
        n <= ms@.len(),
    ensures
        r == has_mail_id(ms@.take(n as int), id@),
{
    let mut i: usize = 0;
    while i < n
        invariant
            i <= n <= ms@.len(),
            forall|j: int| 0 <= j < i ==> #[trigger] ms@[j].id@ != id@,
        decreases n - i,
    {
        if str_eq(ms[i].id.as_str(), id) {
            assert(ms@.take(n as int)[i as int].id@ == id@);
            return true;
        }
        i = i + 1;
    }
    assert forall|j: int| 0 <= j < n implies #[trigger] ms@.take(n as int)[j].id@ != id@ by {
        assert(ms@.take(n as int)[j] == ms@[j]);
    }
    false
}

impl MailScreen {
    pub fn new() -> (r: Self)
        ensures
            r.focus == MailFocus::List,
            r.folders@.len() == 0,
            r.folder_win == ListWindow::spec_new(),
            r.active_folder_id is None,
            r.active_folder_name@ == "Inbox"@,
            r.mails@.len() == 0,
            r.results@.len() == 0,
            r.matched_count == 0,
            r.win == ListWindow::spec_new(),
            r.query@.len() == 0,
            !r.all_folders,
            !r.exhausted,
            !r.loading_more,
    {
        MailScreen {
            focus: MailFocus::List,
            folders: Vec::new(),
            folder_win: ListWindow::new(),
            active_folder_id: None,
            active_folder_name: to_owned("Inbox"),
            mails: Vec::new(),
            results: Vec::new(),
            matched_count: 0,
            win: ListWindow::new(),
            query: String::new(),
            all_folders: false,
            exhausted: false,
            loading_more: false,
        }
    }

    /// Takes a fresh folder list, keeping the folder cursor on the same
    /// folder when it is still listed.
    pub fn on_folders_loaded(&mut self, folders: Vec<FolderEntry>)
        requires
            old(self).folder_win.offset + old(self).folder_win.height <= usize::MAX,
        ensures
            final(self).folders@ == folders@,
            final(self).folder_win == spec_folder_reload_window(
                spec_selected_folder(old(self).folders@, old(self).folder_win),
                folders@,
                old(self).folder_win,
            ),
            final(self).mails == old(self).mails,
            final(self).win == old(self).win,
            final(self).active_folder_id == old(self).active_folder_id,
    {
        let selected_id: Option<String> = match self.selected_folder() {
            Some(f) => Some(f.id.clone()),
            None => None,
        };
        self.folders = folders;
        match selected_id {
            Some(id) => match folder_position(&self.folders, FolderKey::Id, id.as_str()) {
                Some(pos) => {
                    let n = self.folders.len();
                    self.folder_win.select(pos, n);
                },
                None => {},
            },
            None => {},
        }
        let n = self.folders.len();
        self.folder_win.clamp(n);
    }

    /// Takes a page of mails. The first page (`position` 0) replaces the
    /// list and sets its scope; a later page is appended, skipping mails
    /// already listed. A page shorter than a full one marks the end.
    pub fn on_mails_loaded(&mut self, mails: Vec<MailEntry>, position: usize, all: bool)
        ensures
            !final(self).loading_more,
            position == 0 ==> final(self).mails@ == mails@ && final(self).exhausted == (mails@.len()
                < MAIL_PAGE_SIZE) && final(self).all_folders == all && final(self).win == spec_clamp(
                old(self).win,
                old(self).matched_count as int,
            ),
            position != 0 ==> final(self).mails@ == old(self).mails@ + fresh_mails(
                old(self).mails@,
                mails@,
            ) && final(self).exhausted == (old(self).exhausted || mails@.len() < MAIL_PAGE_SIZE)
                && final(self).all_folders == old(self).all_folders && final(self).win == old(
                self,
            ).win,
            final(self).folders == old(self).folders,
            final(self).query == old(self).query,
            final(self).matched_count == old(self).matched_count,
    {
        self.loading_more = false;
        if position == 0 {
            self.exhausted = mails.len() < MAIL_PAGE_SIZE;
            self.mails = mails;
            self.all_folders = all;
            let n = self.matched_count as usize;
            self.win.clamp(n);
        } else {
            if mails.len() < MAIL_PAGE_SIZE {
                self.exhausted = true;
            }
            let mut acc: Vec<MailEntry> = Vec::new();
            std::mem::swap(&mut acc, &mut self.mails);
            let n0 = acc.len();
            let ghost known = acc@;
            let ghost page = mails@;
            let mut rest = mails;
            let mut i: usize = 0;
            while rest.len() > 0
                invariant
                    i <= page.len() <= usize::MAX,
                    rest@ == page.skip(i as int),
                    n0 == known.len(),
                    acc@ == known + fresh_mails(known, page.take(i as int)),
                decreases rest@.len(),
            {
                assert(page.take(i as int + 1).drop_last() == page.take(i as int));
                assert(page.take(i as int + 1).last() == page[i as int]);
                assert(acc@.take(n0 as int) == known);
                let m = rest.remove(0);
                if !known_id(&acc, n0, m.id.as_str()) {
                    acc.push(m);
                }
                i = i + 1;
                assert(rest@ == page.skip(i as int));
            }
            assert(page.take(page.len() as int) == page);
            self.mails = acc;
        }
    }

    /// The line the fuzzy matcher sees for `mail`. It leaves out the unread
    /// marker, which changes without a reload.
    pub fn format_mail(&self, mail: &MailEntry) -> (r: String)
        ensures
            r@ == spec_format_mail(self.folders@, self.all_folders, *mail),
    {
        let mut out = String::new();
        if self.all_folders {
            push_str(&mut out, "[");
            match &mail.folder_id {
                Some(id) => match folder_position(&self.folders, FolderKey::Id, id.as_str()) {
                    Some(k) => push_str(&mut out, self.folders[k].name.as_str()),
                    None => push_str(&mut out, "?"),
                },
                None => push_str(&mut out, "?"),
            }
            push_str(&mut out, "] ");
        }
        push_str(&mut out, mail.from.as_str());
        push_str(&mut out, " — ");
        push_str(&mut out, mail.subject.as_str());
        proof {
            assert(Seq::<char>::empty() + "["@ == "["@);
            assert(Seq::<char>::empty() + mail.from@ == mail.from@);
        }
        out
    }

    /// Row prefix for the mail `id`: a dot when it is unread.
    pub fn row_icon(&self, id: &str) -> (r: &'static str)
        ensures
            r@ == (match first_match(self.mails@, mail_id_is(id@)) {
                Some(k) => if !self.mails@[k].is_read {
                    "✉  ● "@
                } else {
                    "✉    "@
                },
                None => "✉    "@,
            }),
    {
        match mail_position(&self.mails, id) {
            Some(k) => if self.mails[k].is_unread() {
                "✉  ● "
            } else {
                "✉    "
            },
            None => "✉    ",
        }
    }

    /// Marks the first mail with `id` as read.
    pub fn mark_read(&mut self, id: &str)
        ensures
            match first_match(old(self).mails@, mail_id_is(id@)) {
                Some(k) => final(self).mails@ == old(self).mails@.update(
                    k,
                    MailEntry { is_read: true, ..old(self).mails@[k] },
                ),
                None => final(self).mails@ == old(self).mails@,
            },
            final(self).folders == old(self).folders,
            final(self).win == old(self).win,
    {
        match mail_position(&self.mails, id) {
            Some(k) => {
                let mut m = self.mails.remove(k);
                m.is_read = true;
                self.mails.insert(k, m);
                proof {
                    assert(self.mails@ =~= old(self).mails@.update(
                        k as int,
                        MailEntry { is_read: true, ..old(self).mails@[k as int] },
                    ));
                }
            },
            None => {},
        }
    }

    /// Takes the matcher's current match count. The window is kept inside
    /// the matches, except while the matcher still reports none for a list
    /// that has mails (it has not caught up yet).
    pub fn tick(&mut self, matched_count: u32)
        ensures
            final(self).matched_count == matched_count,
            final(self).win == if matched_count > 0 || old(self).mails@.len() == 0 {
                spec_clamp(old(self).win, matched_count as int)
            } else {
                old(self).win
            },
            final(self).mails == old(self).mails,
            final(self).folders == old(self).folders,
            final(self).query == old(self).query,
    {
        self.matched_count = matched_count;
        if matched_count > 0 || self.mails.len() == 0 {
            self.win.clamp(matched_count as usize);
        }
    }

    /// Sets the search text; the cursor goes back to the top. Returns
    /// whether the list must switch between one folder and all folders
    /// (a non-empty query searches all of them).
    pub fn set_query(&mut self, query: &str) -> (r: bool)
        ensures
            r == ((query@.len() > 0) != old(self).all_folders),
            final(self).query@ == query@,
            final(self).win == (ListWindow { offset: 0, cursor: 0, height: old(self).win.height }),
            final(self).all_folders == old(self).all_folders,
            final(self).mails == old(self).mails,
    {
        self.query = to_owned(query);
        self.win.reset();
        let want_all = !query.is_empty();
        want_all != self.all_folders
    }

    /// The folder under the folder cursor.
    pub fn selected_folder(&self) -> (r: Option<&FolderEntry>)
        ensures
            match spec_selected_folder(self.folders@, self.folder_win) {
                Some(f) => r matches Some(e) && *e == f,
                None => r is None,
            },
    {
        let n = self.folders.len();
        let off = self.folder_win.offset;
        if off < n && self.folder_win.cursor < n - off {
            Some(&self.folders[off + self.folder_win.cursor])
        } else {
            None
        }
    }

    /// The mail of the result under the cursor.
    pub fn selected_mail(&self) -> (r: Option<&MailEntry>)
        ensures
            match (if self.win.cursor < self.results@.len() {
                first_match(self.mails@, mail_id_is(self.results@[self.win.cursor as int].inner@))
            } else {
                None
            }) {
                Some(k) => r matches Some(m) && *m == self.mails@[k],
                None => r is None,
            },
    {
        if self.win.cursor < self.results.len() {
            match mail_position(&self.mails, self.results[self.win.cursor].inner.as_str()) {
                Some(k) => Some(&self.mails[k]),
                None => None,
            }
        } else {
            None
        }
    }

    /// Moves the cursor down in the focused list. Returns true when the
    /// mail list should fetch its next page.
    pub fn select_next(&mut self) -> (r: bool)
        requires
            spec_selected(old(self).win) < usize::MAX,
            spec_selected(old(self).folder_win) < usize::MAX,
        ensures
            match old(self).focus {
                MailFocus::List | MailFocus::SearchResults => {
                    &&& final(self).win == spec_select_next(
                        old(self).win,
                        old(self).matched_count as int,
                    ).1
                    &&& final(self).folder_win == old(self).folder_win
                    &&& r == spec_wants_more(
                        old(self).exhausted,
                        old(self).loading_more,
                        final(self).win,
                        old(self).matched_count as int,
                    )
                },
                MailFocus::Folders => {
                    &&& final(self).folder_win == spec_select_next(
                        old(self).folder_win,
                        old(self).folders@.len() as int,
                    ).1
                    &&& final(self).win == old(self).win
                    &&& !r
                },
                MailFocus::Account => {
                    &&& final(self).win == old(self).win
                    &&& final(self).folder_win == old(self).folder_win
                    &&& !r
                },
            },
            final(self).mails == old(self).mails,
            final(self).folders == old(self).folders,
            final(self).exhausted == old(self).exhausted,
            final(self).focus == old(self).focus,
    {
        match self.focus {
            MailFocus::List | MailFocus::SearchResults => {
                let total = self.matched_count as usize;
                self.win.select_next(total);
                !self.exhausted && !self.loading_more && self.win.near_end(
                    total,
                    LAZY_LOAD_THRESHOLD,
                )
            },
            MailFocus::Folders => {
                let n = self.folders.len();
                self.folder_win.select_next(n);
                false
            },
            MailFocus::Account => false,
        }
    }

    /// Moves the cursor up in the focused list.
    pub fn select_prev(&mut self)
        ensures
            match old(self).focus {
                MailFocus::List | MailFocus::SearchResults => final(self).win == spec_select_prev(
                    old(self).win,
                ).1 && final(self).folder_win == old(self).folder_win,
                MailFocus::Folders => final(self).folder_win == spec_select_prev(
                    old(self).folder_win,
                ).1 && final(self).win == old(self).win,
                MailFocus::Account => final(self).win == old(self).win && final(self).folder_win
                    == old(self).folder_win,
            },
            final(self).mails == old(self).mails,
            final(self).folders == old(self).folders,
            final(self).focus == old(self).focus,
    {
        match self.focus {
            MailFocus::List | MailFocus::SearchResults => {
                self.win.select_prev();
            },
            MailFocus::Folders => {
                self.folder_win.select_prev();
            },
            MailFocus::Account => {},
        }
    }

    /// The inbox folder: the one tagged "inbox", else the one whose role
    /// is "inbox".
    pub fn inbox(&self) -> (r: Option<&FolderEntry>)
        ensures
            match spec_inbox(self.folders@) {
                Some(i) => r matches Some(f) && *f == self.folders@[i],
                None => r is None,
            },
    {
        match folder_position(&self.folders, FolderKey::Tag, "inbox") {
            Some(i) => Some(&self.folders[i]),
            None => match folder_position(&self.folders, FolderKey::Role, "inbox") {
                Some(i) => Some(&self.folders[i]),
                None => None,
            },
        }
    }

    /// Whether the list currently shows the inbox (the default view
    /// counts).
    pub fn is_inbox_active(&self) -> (r: bool)
        ensures
            r == spec_is_inbox_active(self.folders@, self.active_folder_id),
    {
        match &self.active_folder_id {
            None => true,
            Some(id) => match self.inbox() {
                Some(f) => str_eq(f.id.as_str(), id.as_str()),
                None => false,
            },
        }
    }
}

} // verus!
