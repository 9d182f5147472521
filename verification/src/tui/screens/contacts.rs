//! Contacts screen: a filterable list with a detail pane. The filter
//! matches names and emails without regard to case, and phone numbers as
//! typed.

use vstd::prelude::*;

use crate::seqs::{first_match, lemma_first_match_at, lemma_first_match_none, upto};
use crate::strings::{contains_seq, lowercase, str_contains, str_eq, to_lowercase, to_owned};
use crate::tui::model::window::{
    in_view, law_select_lands_on_index, min_int, spec_clamp, spec_select, spec_select_next,
    spec_select_prev, spec_selected, ListWindow,
};
use crate::tui::types::ContactEntry;

verus! {

pub struct ContactsScreen {
    pub contacts: Vec<ContactEntry>,
    pub win: ListWindow,
    pub query: String,
}

/// A contact matches a lowercased query when its lowercased name or
/// email, or its phone number, contains it.
pub open spec fn contact_matches(c: ContactEntry, q: Seq<char>) -> bool {
    contains_seq(lowercase(c.name@), q) || contains_seq(lowercase(c.email@), q) || contains_seq(
        c.phone@,
        q,
    )
}

/// Indices, among the first `n` contacts, of those matching `q`.
pub open spec fn matching_idx(cs: Seq<ContactEntry>, q: Seq<char>, n: int) -> Seq<int>
    decreases n,
{
    if n <= 0 {
        Seq::empty()
    } else {
        let prev = matching_idx(cs, q, n - 1);
        if contact_matches(cs[n - 1], q) {
            prev.push(n - 1)
        } else {
            prev
        }
    }
}

/// Indices of the contacts the query lets through: all of them for an
/// empty query.
pub open spec fn spec_filtered(cs: Seq<ContactEntry>, query: Seq<char>) -> Seq<int> {
    if query.len() == 0 {
        upto(cs.len() as int)
    } else {
        matching_idx(cs, lowercase(query), cs.len() as int)
    }
}

/// The contact under the cursor, if any.
pub open spec fn spec_selected_contact(cs: Seq<ContactEntry>, query: Seq<char>, w: ListWindow) -> Option<ContactEntry> {
    let f = spec_filtered(cs, query);
    let s = spec_selected(w);
    if s < f.len() {
        Some(cs[f[s]])
    } else {
        None
    }
}

/// The contact carries the id `id`.
pub open spec fn contact_id_is(cs: Seq<ContactEntry>, id: Seq<char>) -> spec_fn(int) -> bool {
    |i: int| cs[i].id@ == id
}

/// The window after a reload: back on the previously selected contact
/// when it is still listed, then kept inside the list.
pub open spec fn spec_reload_window(
    old_sel: Option<ContactEntry>,
    cs: Seq<ContactEntry>,
    query: Seq<char>,
    w: ListWindow,
) -> ListWindow {
    let f = spec_filtered(cs, query);
    let w1 = match old_sel {
        Some(c) => match first_match(f, contact_id_is(cs, c.id@)) {
            Some(pos) => spec_select(w, pos, f.len() as int),
            None => w,
        },
        None => w,
    };
    spec_clamp(w1, f.len() as int)
}

impl ContactsScreen {
    pub fn new() -> (r: Self)
        ensures
            r.contacts@.len() == 0,
            r.win == ListWindow::spec_new(),
            r.query@ == Seq::<char>::empty(),
    {
        ContactsScreen { contacts: Vec::new(), win: ListWindow::new(), query: String::new() }
    }

    /// Indices of the contacts that pass the filter, in list order.
    fn filtered_idx(&self) -> (r: Vec<usize>)
        ensures
            r@.map_values(|i: usize| i as int) == spec_filtered(self.contacts@, self.query@),
            forall|k: int| 0 <= k < r@.len() ==> #[trigger] r@[k] < self.contacts@.len(),
    {
        let mut out: Vec<usize> = Vec::new();
        if self.query.as_str().is_empty() {
            let mut n: usize = 0;
            while n < self.contacts.len()
                invariant
                    n <= self.contacts@.len(),
                    out@.map_values(|i: usize| i as int) == upto(n as int),
                    forall|k: int| 0 <= k < out@.len() ==> #[trigger] out@[k] < n,
                decreases self.contacts@.len() - n,
            {
                let ghost prev = out@;
                out.push(n);
                assert(out@.map_values(|i: usize| i as int) =~= prev.map_values(|i: usize| i as int).push(n as int));
                assert(out@.map_values(|i: usize| i as int) =~= upto(n as int + 1));
                n = n + 1;
            }
            return out;
        }
        let q = to_lowercase(self.query.as_str());
        let mut n: usize = 0;
        while n < self.contacts.len()
            invariant
                n <= self.contacts@.len(),
                self.query@.len() != 0,
                q@ == lowercase(self.query@),
                out@.map_values(|i: usize| i as int) == matching_idx(self.contacts@, q@, n as int),
                forall|k: int| 0 <= k < out@.len() ==> #[trigger] out@[k] < n,
            decreases self.contacts@.len() - n,
        {
            let c = &self.contacts[n];
            let name = to_lowercase(c.name.as_str());
            let email = to_lowercase(c.email.as_str());
            let hit = str_contains(name.as_str(), q.as_str()) || str_contains(email.as_str(), q.as_str())
                || str_contains(c.phone.as_str(), q.as_str());
            let ghost prev = out@;
            if hit {
                out.push(n);
                assert(out@.map_values(|i: usize| i as int) =~= prev.map_values(|i: usize| i as int).push(n as int));
            }
            n = n + 1;
        }
        out
    }

    /// The contacts that pass the filter, in list order.
    pub fn filtered(&self) -> (r: Vec<&ContactEntry>)
        ensures
            r@.len() == spec_filtered(self.contacts@, self.query@).len(),
            forall|k: int| 0 <= k < r@.len() ==> *(#[trigger] r@[k]) == self.contacts@[spec_filtered(
                self.contacts@,
                self.query@,
            )[k]],
    {
        let idx = self.filtered_idx();
        let mut out: Vec<&ContactEntry> = Vec::new();
        let mut k: usize = 0;
        while k < idx.len()
            invariant
                k <= idx@.len(),
                idx@.map_values(|i: usize| i as int) == spec_filtered(self.contacts@, self.query@),
                forall|x: int| 0 <= x < idx@.len() ==> #[trigger] idx@[x] < self.contacts@.len(),
                out@.len() == k,
                forall|x: int| 0 <= x < k ==> *(#[trigger] out@[x]) == self.contacts@[idx@[x] as int],
            decreases idx@.len() - k,
        {
            out.push(&self.contacts[idx[k]]);
            k = k + 1;
        }
        proof {
            assert forall|x: int| 0 <= x < out@.len() implies *(#[trigger] out@[x]) == self.contacts@[spec_filtered(
                self.contacts@,
                self.query@,
            )[x]] by {
                assert(idx@.map_values(|i: usize| i as int)[x] == idx@[x] as int);
            }
        }
        out
    }

    /// Sets the filter text; the cursor goes back to the top.
    pub fn set_query(&mut self, query: &str)
        ensures
            final(self).query@ == query@,
            final(self).win == (ListWindow { offset: 0, cursor: 0, height: old(self).win.height }),
            final(self).contacts == old(self).contacts,
    {
        self.query = to_owned(query);
        self.win.reset();
    }

    /// The contact under the cursor.
    pub fn selected(&self) -> (r: Option<&ContactEntry>)
        requires
            self.win.offset + self.win.cursor <= usize::MAX,
        ensures
            match spec_selected_contact(self.contacts@, self.query@, self.win) {
                Some(c) => r matches Some(e) && *e == c,
                None => r is None,
            },
    {
        let f = self.filtered();
        let s = self.win.selected();
        if s < f.len() {
            Some(f[s])
        } else {
            None
        }
    }

    /// Takes a fresh contact list, keeping the selected contact selected
    /// when it is still listed.
    pub fn on_loaded(&mut self, contacts: Vec<ContactEntry>)
        requires
            old(self).win.offset + old(self).win.cursor <= usize::MAX,
            old(self).win.offset + old(self).win.height <= usize::MAX,
        ensures
            final(self).contacts@ == contacts@,
            final(self).query == old(self).query,
            final(self).win == spec_reload_window(
                spec_selected_contact(old(self).contacts@, old(self).query@, old(self).win),
                contacts@,
                old(self).query@,
                old(self).win,
            ),
    {
        let selected_id: Option<String> = match self.selected() {
            Some(c) => Some(c.id.clone()),
            None => None,
        };
        self.contacts = contacts;
        let idx = self.filtered_idx();
        let ghost f = idx@.map_values(|i: usize| i as int);
        match selected_id {
            Some(id) => match self.position_of(&idx, id.as_str()) {
                Some(pos) => {
                    self.win.select(pos, idx.len());
                },
                None => {},
            },
            None => {},
        }
        let n = idx.len();
        self.win.clamp(n);
    }

    /// Position, in the filtered indices `idx`, of the contact with `id`.
    fn position_of(&self, idx: &Vec<usize>, id: &str) -> (r: Option<usize>)
        requires
            forall|x: int| 0 <= x < idx@.len() ==> #[trigger] idx@[x] < self.contacts@.len(),
        ensures
            r matches Some(p) ==> p < idx@.len() && first_match(
                idx@.map_values(|i: usize| i as int),
                contact_id_is(self.contacts@, id@),
            ) == Some(p as int),
            r is None ==> first_match(
                idx@.map_values(|i: usize| i as int),
                contact_id_is(self.contacts@, id@),
            ) is None,
    {
        let ghost f = idx@.map_values(|i: usize| i as int);
        let mut pos: usize = 0;
        while pos < idx.len()
            invariant
                pos <= idx@.len(),
                f == idx@.map_values(|i: usize| i as int),
                forall|x: int| 0 <= x < idx@.len() ==> #[trigger] idx@[x] < self.contacts@.len(),
                forall|x: int| 0 <= x < pos ==> !contact_id_is(self.contacts@, id@)(#[trigger] f[x]),
            decreases idx@.len() - pos,
        {
            if str_eq(self.contacts[idx[pos]].id.as_str(), id) {
                proof {
                    lemma_first_match_at(f, contact_id_is(self.contacts@, id@), pos as int);
                }
                return Some(pos);
            }
            pos = pos + 1;
        }
        proof {
            lemma_first_match_none(f, contact_id_is(self.contacts@, id@));
        }
        None
    }

    /// Moves the cursor down one contact.
    pub fn select_next(&mut self)
        requires
            spec_selected(old(self).win) < usize::MAX,
        ensures
            final(self).win == spec_select_next(
                old(self).win,
                spec_filtered(old(self).contacts@, old(self).query@).len() as int,
            ).1,
            final(self).contacts == old(self).contacts,
            final(self).query == old(self).query,
    {
        let total = self.filtered_idx().len();
        self.win.select_next(total);
    }

    /// Moves the cursor up one contact.
    pub fn select_prev(&mut self)
        ensures
            final(self).win == spec_select_prev(old(self).win).1,
            final(self).contacts == old(self).contacts,
            final(self).query == old(self).query,
    {
        self.win.select_prev();
    }
}

/// A reload that still lists the selected contact keeps it selected.
pub proof fn law_selection_survives_reload(
    old_cs: Seq<ContactEntry>,
    cs: Seq<ContactEntry>,
    query: Seq<char>,
    w: ListWindow,
)
    requires
        w.height >= 1,
        spec_filtered(cs, query).len() <= usize::MAX,
        spec_selected_contact(old_cs, query, w) matches Some(c) && first_match(
            spec_filtered(cs, query),
            contact_id_is(cs, c.id@),
        ) is Some,
    ensures
        spec_selected_contact(cs, query, spec_reload_window(spec_selected_contact(old_cs, query, w), cs, query, w))
            matches Some(d) && d.id@ == spec_selected_contact(old_cs, query, w)->0.id@,
{
    let c = spec_selected_contact(old_cs, query, w)->0;
    let f = spec_filtered(cs, query);
    crate::seqs::lemma_first_match(f, contact_id_is(cs, c.id@));
    let pos = first_match(f, contact_id_is(cs, c.id@))->0;
    let w1 = spec_select(w, pos, f.len() as int);
    law_select_lands_on_index(w, pos, f.len() as int);
    assert(spec_clamp(w1, f.len() as int) == w1);
}

/// The indices `matching_idx` lists are exactly the matching ones below `n`.
proof fn lemma_matching_idx_members(cs: Seq<ContactEntry>, q: Seq<char>, n: int, i: int)
    requires
        0 <= n <= cs.len(),
    ensures
        matching_idx(cs, q, n).contains(i) <==> (0 <= i < n && contact_matches(cs[i], q)),
    decreases n,
{
    if n > 0 {
        lemma_matching_idx_members(cs, q, n - 1, i);
        let prev = matching_idx(cs, q, n - 1);
        if contact_matches(cs[n - 1], q) {
            if i == n - 1 {
                assert(prev.push(n - 1)[prev.len() as int] == i);
            } else if prev.contains(i) {
                let k = choose|k: int| 0 <= k < prev.len() && prev[k] == i;
                assert(prev.push(n - 1)[k] == i);
            } else {
                assert forall|k: int| 0 <= k < prev.len() + 1 implies #[trigger] prev.push(n - 1)[k] != i by {
                    if k < prev.len() {
                        assert(prev[k] != i);
                    }
                }
            }
        }
    }
}

/// Searching by email: a contact whose lowercased email contains the
/// lowercased query is listed, whatever its name and phone number.
pub proof fn law_email_search_finds_contact(cs: Seq<ContactEntry>, query: Seq<char>, i: int)
    requires
        0 <= i < cs.len(),
        contains_seq(lowercase(cs[i].email@), lowercase(query)),
    ensures
        spec_filtered(cs, query).contains(i),
{
    law_search_lists_exactly_the_hits(cs, query, i);
}

/// Searching by name: a contact whose lowercased name contains the
/// lowercased query is listed.
pub proof fn law_name_search_finds_contact(cs: Seq<ContactEntry>, query: Seq<char>, i: int)
    requires
        0 <= i < cs.len(),
        contains_seq(lowercase(cs[i].name@), lowercase(query)),
    ensures
        spec_filtered(cs, query).contains(i),
{
    law_search_lists_exactly_the_hits(cs, query, i);
}

/// The filter lists a contact exactly when the query is empty, or its
/// lowercased name or email contains the lowercased query, or its phone
/// number contains the lowercased query as typed.
pub proof fn law_search_lists_exactly_the_hits(cs: Seq<ContactEntry>, query: Seq<char>, i: int)
    ensures
        spec_filtered(cs, query).contains(i) <==> (0 <= i < cs.len() && (query.len() == 0
            || contains_seq(lowercase(cs[i].name@), lowercase(query))
            || contains_seq(lowercase(cs[i].email@), lowercase(query))
            || contains_seq(cs[i].phone@, lowercase(query)))),
{
    if query.len() == 0 {
        if 0 <= i < cs.len() {
            assert(upto(cs.len() as int)[i] == i);
        }
    } else {
        lemma_matching_idx_members(cs, lowercase(query), cs.len() as int, i);
    }
}

} // verus!
