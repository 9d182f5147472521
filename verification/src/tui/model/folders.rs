//! Folder tree building, config-based action tagging, and sorting.
//!
//! Resolution order for every mail action (sent/archive/trash/spam):
//! explicit config override → server JMAP role → hardcoded default name.

use vstd::multiset::Multiset;
use vstd::prelude::*;

use crate::config::FolderMappings;
use crate::seqs::{first_match, lemma_first_match, lemma_first_match_at, lemma_first_match_none};
use crate::digits::{dec, push_dec};
use crate::strings::{chars_of, push_char, push_str, seq_lt, str_eq, str_less};
use crate::tui::types::FolderEntry;

verus! {

/// A folder as it comes from the server, before tree ordering.
#[derive(Debug, Clone)]
pub struct RawFolder {
    pub id: String,
    pub name: String,
    pub parent_id: Option<String>,
    pub role: Option<String>,
    pub sort_order: u32,
    pub total_emails: u32,
    pub unread_emails: u32,
}

/// The text of an optional string.
pub open spec fn opt_view(o: Option<String>) -> Option<Seq<char>> {
    match o {
        Some(s) => Some(s@),
        None => None,
    }
}

/// A server folder as plain values.
pub struct RawView {
    pub id: Seq<char>,
    pub name: Seq<char>,
    pub parent_id: Option<Seq<char>>,
    pub role: Option<Seq<char>>,
    pub sort_order: u32,
    pub total_emails: u32,
    pub unread_emails: u32,
}

impl View for RawFolder {
    type V = RawView;

    open spec fn view(&self) -> RawView {
        RawView {
            id: self.id@,
            name: self.name@,
            parent_id: opt_view(self.parent_id),
            role: opt_view(self.role),
            sort_order: self.sort_order,
            total_emails: self.total_emails,
            unread_emails: self.unread_emails,
        }
    }
}

/// A display row as plain values.
pub struct FolderView {
    pub id: Seq<char>,
    pub name: Seq<char>,
    pub parent_id: Option<Seq<char>>,
    pub role: Option<Seq<char>>,
    pub sort_order: u32,
    pub total_emails: u32,
    pub unread_emails: u32,
    pub display_name: Seq<char>,
    pub depth: int,
    pub action_tag: Option<Seq<char>>,
}

impl View for FolderEntry {
    type V = FolderView;

    open spec fn view(&self) -> FolderView {
        FolderView {
            id: self.id@,
            name: self.name@,
            parent_id: opt_view(self.parent_id),
            role: opt_view(self.role),
            sort_order: self.sort_order,
            total_emails: self.total_emails,
            unread_emails: self.unread_emails,
            display_name: self.display_name@,
            depth: self.depth as int,
            action_tag: opt_view(self.action_tag),
        }
    }
}

pub open spec fn raw_views(raw: Seq<RawFolder>) -> Seq<RawView> {
    raw.map_values(|f: RawFolder| f@)
}

pub open spec fn folder_views(fs: Seq<FolderEntry>) -> Seq<FolderView> {
    fs.map_values(|f: FolderEntry| f@)
}

// ── Ordering ──────────────────────────────────────────────────────────

/// Priority order for well-known mailbox roles (initial within-level sort).
pub open spec fn spec_role_priority(role: Option<Seq<char>>) -> u8 {
    match role {
        Some(r) => if r == "inbox"@ {
            0
        } else if r == "drafts"@ {
            1
        } else if r == "sent"@ {
            2
        } else if r == "archive"@ {
            3
        } else if r == "trash"@ {
            4
        } else if r == "junk"@ {
            5
        } else {
            99
        },
        None => 99,
    }
}

/// Sibling order: role priority, then sort order, then name; equal keys
/// keep the server's order.
pub open spec fn child_before(raw: Seq<RawView>, i: int, j: int) -> bool {
    let (a, b) = (raw[i], raw[j]);
    let (pa, pb) = (spec_role_priority(a.role), spec_role_priority(b.role));
    if pa != pb {
        pa < pb
    } else if a.sort_order != b.sort_order {
        a.sort_order < b.sort_order
    } else if a.name != b.name {
        seq_lt(a.name, b.name)
    } else {
        i < j
    }
}

/// Position in `s` of its first item in sibling order.
pub open spec fn min_pos(raw: Seq<RawView>, s: Seq<int>) -> int
    decreases s.len(),
{
    if s.len() <= 1 {
        0
    } else {
        let k = min_pos(raw, s.drop_last());
        if child_before(raw, s.last(), s[k]) {
            s.len() - 1
        } else {
            k
        }
    }
}

/// The indices `s` in sibling order.
pub open spec fn sort_siblings(raw: Seq<RawView>, s: Seq<int>) -> Seq<int>
    decreases s.len(),
{
    if s.len() == 0 {
        s
    } else {
        let k = min_pos(raw, s);
        if 0 <= k < s.len() {
            seq![s[k]] + sort_siblings(raw, s.remove(k))
        } else {
            s
        }
    }
}

/// Indices of the folders whose parent is `parent`, in server order.
pub open spec fn children_of(raw: Seq<RawView>, parent: Option<Seq<char>>, n: int) -> Seq<int>
    decreases n,
{
    if n <= 0 {
        Seq::empty()
    } else {
        let prev = children_of(raw, parent, n - 1);
        if raw[n - 1].parent_id == parent {
            prev.push(n - 1)
        } else {
            prev
        }
    }
}

// ── Tree order ────────────────────────────────────────────────────────

/// The rows (folder index, depth) under `parent`, depth first, each
/// level in sibling order; `fuel` bounds the nesting.
pub open spec fn tree_rows(raw: Seq<RawView>, parent: Option<Seq<char>>, depth: nat, fuel: nat) -> Seq<(int, nat)>
    decreases fuel, 0nat,
{
    if fuel == 0 {
        Seq::empty()
    } else {
        kid_rows(
            raw,
            sort_siblings(raw, children_of(raw, parent, raw.len() as int)),
            depth,
            (fuel - 1) as nat,
        )
    }
}

/// The rows of the siblings `kids`, each followed by its subtree.
pub open spec fn kid_rows(raw: Seq<RawView>, kids: Seq<int>, depth: nat, fuel: nat) -> Seq<(int, nat)>
    decreases fuel, kids.len(),
{
    if kids.len() == 0 {
        Seq::empty()
    } else {
        let k = kids.last();
        kid_rows(raw, kids.drop_last(), depth, fuel) + seq![(k, depth)] + if 0 <= k < raw.len() {
            tree_rows(raw, Some(raw[k].id), depth + 1, fuel)
        } else {
            Seq::empty()
        }
    }
}

/// Indentation and branch mark in front of a folder name.
pub open spec fn display_of(name: Seq<char>, depth: nat) -> Seq<char> {
    Seq::new(2 * depth, |i: int| ' ') + (if depth > 0 {
        seq!['└', ' ']
    } else {
        Seq::empty()
    }) + name
}

/// The display row of a server folder at a depth, before tagging.
pub open spec fn row_view(f: RawView, depth: nat) -> FolderView {
    FolderView {
        id: f.id,
        name: f.name,
        parent_id: f.parent_id,
        role: f.role,
        sort_order: f.sort_order,
        total_emails: f.total_emails,
        unread_emails: f.unread_emails,
        display_name: display_of(f.name, depth),
        depth: depth as int,
        action_tag: None,
    }
}

pub open spec fn rows_view(raw: Seq<RawView>, rows: Seq<(int, nat)>) -> Seq<FolderView> {
    rows.map_values(|r: (int, nat)| row_view(raw[r.0], r.1))
}

/// The folder rows in tree order.
pub open spec fn spec_tree(raw: Seq<RawView>) -> Seq<FolderView> {
    rows_view(raw, tree_rows(raw, None, 0, raw.len()))
}

fn clone_opt(o: &Option<String>) -> (r: Option<String>)
    ensures
        opt_view(r) == opt_view(*o),
{
    match o {
        Some(s) => Some(s.clone()),
        None => None,
    }
}

/// Whether an optional string equals an optional string slice.
fn opt_eq(a: &Option<String>, b: Option<&str>) -> (r: bool)
    ensures
        r == (opt_view(*a) == match b {
            Some(s) => Some(s@),
            None => None::<Seq<char>>,
        }),
{
    match (a, b) {
        (Some(x), Some(y)) => str_eq(x.as_str(), y),
        (None, None) => true,
        _ => false,
    }
}

fn role_priority(role: Option<&str>) -> (r: u8)
    ensures
        r == spec_role_priority(
            match role {
                Some(s) => Some(s@),
                None => None,
            },
        ),
{
    match role {
        Some(r) => if str_eq(r, "inbox") {
            0
        } else if str_eq(r, "drafts") {
            1
        } else if str_eq(r, "sent") {
            2
        } else if str_eq(r, "archive") {
            3
        } else if str_eq(r, "trash") {
            4
        } else if str_eq(r, "junk") {
            5
        } else {
            99
        },
        None => 99,
    }
}

fn opt_as_str(o: &Option<String>) -> (r: Option<&str>)
    ensures
        match r {
            Some(s) => opt_view(*o) == Some(s@),
            None => o is None,
        },
{
    match o {
        Some(s) => Some(s.as_str()),
        None => None,
    }
}

fn child_less(raw: &[RawFolder], i: usize, j: usize) -> (r: bool)
    requires
        i < raw@.len(),
        j < raw@.len(),
    ensures
        r == child_before(raw_views(raw@), i as int, j as int),
{
    let a = &raw[i];
    let b = &raw[j];
    let pa = role_priority(opt_as_str(&a.role));
    let pb = role_priority(opt_as_str(&b.role));
    if pa != pb {
        pa < pb
    } else if a.sort_order != b.sort_order {
        a.sort_order < b.sort_order
    } else if !str_eq(a.name.as_str(), b.name.as_str()) {
        str_less(a.name.as_str(), b.name.as_str())
    } else {
        i < j
    }
}

/// The children of `parent`, in sibling order.
fn sorted_children(raw: &[RawFolder], parent: Option<&str>) -> (r: Vec<usize>)
    ensures
        r@.map_values(|k: usize| k as int) == sort_siblings(
            raw_views(raw@),
            children_of(
                raw_views(raw@),
                match parent {
                    Some(s) => Some(s@),
                    None => None,
                },
                raw@.len() as int,
            ),
        ),
        forall|k: int| 0 <= k < r@.len() ==> #[trigger] r@[k] < raw@.len(),
{
    let ghost rv = raw_views(raw@);
    let ghost pv = match parent {
        Some(s) => Some(s@),
        None => None::<Seq<char>>,
    };
    let mut kids: Vec<usize> = Vec::new();
    let mut n: usize = 0;
    while n < raw.len()
        invariant
            n <= raw@.len(),
            rv == raw_views(raw@),
            pv == match parent {
                Some(s) => Some(s@),
                None => None::<Seq<char>>,
            },
            kids@.map_values(|k: usize| k as int) == children_of(rv, pv, n as int),
            forall|k: int| 0 <= k < kids@.len() ==> #[trigger] kids@[k] < n,
        decreases raw@.len() - n,
    {
        assert(rv[n as int] == raw@[n as int]@);
        let ghost before = kids@.map_values(|k: usize| k as int);
        if opt_eq(&raw[n].parent_id, parent) {
            kids.push(n);
            assert(kids@.map_values(|k: usize| k as int) =~= children_of(rv, pv, n as int).push(
                n as int,
            ));
        } else {
            assert(children_of(rv, pv, n as int + 1) == before);
        }
        n = n + 1;
    }
    let mut out: Vec<usize> = Vec::new();
    let ghost all = kids@.map_values(|k: usize| k as int);
    while kids.len() > 0
        invariant
            rv == raw_views(raw@),
            out@.map_values(|k: usize| k as int) + sort_siblings(
                rv,
                kids@.map_values(|k: usize| k as int),
            ) == sort_siblings(rv, all),
            forall|k: int| 0 <= k < kids@.len() ==> #[trigger] kids@[k] < raw@.len(),
            forall|k: int| 0 <= k < out@.len() ==> #[trigger] out@[k] < raw@.len(),
        decreases kids@.len(),
    {
        let ghost s = kids@.map_values(|k: usize| k as int);
        let mut best: usize = 0;
        let mut t: usize = 1;
        while t < kids.len()
            invariant
                1 <= t <= kids@.len(),
                best < t,
                s == kids@.map_values(|k: usize| k as int),
                best == min_pos(rv, s.take(t as int)),
                rv == raw_views(raw@),
                forall|k: int| 0 <= k < kids@.len() ==> #[trigger] kids@[k] < raw@.len(),
            decreases kids@.len() - t,
        {
            assert(s.take(t as int + 1).drop_last() =~= s.take(t as int));
            if child_less(raw, kids[t], kids[best]) {
                best = t;
            }
            t = t + 1;
        }
        assert(s.take(t as int) =~= s);
        let ghost before = out@.map_values(|k: usize| k as int);
        let k = kids.remove(best);
        out.push(k);
        proof {
            let s2 = s.remove(best as int);
            assert(kids@.map_values(|k: usize| k as int) =~= s2);
            assert(sort_siblings(rv, s) == seq![s[best as int]] + sort_siblings(rv, s2));
            assert(out@.map_values(|k: usize| k as int) =~= before.push(k as int));
            assert(before + sort_siblings(rv, s) =~= before.push(k as int) + sort_siblings(rv, s2));
        }
    }
    assert(sort_siblings(rv, kids@.map_values(|k: usize| k as int)) =~= Seq::<int>::empty());
    assert(out@.map_values(|k: usize| k as int) + Seq::<int>::empty() =~= out@.map_values(|k: usize| k as int));
    out
}

/// The display row of a server folder at `depth`.
fn make_entry(f: &RawFolder, depth: usize) -> (r: FolderEntry)
    ensures
        r@ == row_view(f@, depth as nat),
{
    let mut display = String::new();
    let mut k: usize = 0;
    while k < depth
        invariant
            k <= depth,
            display@ == Seq::new(2 * k as nat, |i: int| ' '),
        decreases depth - k,
    {
        push_char(&mut display, ' ');
        push_char(&mut display, ' ');
        assert(display@ =~= Seq::new(2 * (k + 1) as nat, |i: int| ' '));
        k = k + 1;
    }
    if depth > 0 {
        push_char(&mut display, '└');
        push_char(&mut display, ' ');
    }
    push_str(&mut display, f.name.as_str());
    assert(display@ =~= display_of(f.name@, depth as nat));
    FolderEntry {
        id: f.id.clone(),
        name: f.name.clone(),
        parent_id: clone_opt(&f.parent_id),
        role: clone_opt(&f.role),
        sort_order: f.sort_order,
        total_emails: f.total_emails,
        unread_emails: f.unread_emails,
        display_name: display,
        depth,
        action_tag: None,
    }
}

proof fn lemma_views_push(fs: Seq<FolderEntry>, e: FolderEntry)
    ensures
        folder_views(fs.push(e)) == folder_views(fs).push(e@),
{
    assert(folder_views(fs.push(e)) =~= folder_views(fs).push(e@));
}

proof fn lemma_rows_view_add(raw: Seq<RawView>, a: Seq<(int, nat)>, b: Seq<(int, nat)>)
    ensures
        rows_view(raw, a + b) == rows_view(raw, a) + rows_view(raw, b),
{
    assert(rows_view(raw, a + b) =~= rows_view(raw, a) + rows_view(raw, b));
}

/// Appends the rows under `parent`, depth first, each level in sibling
/// order.
fn build_tree(
    raw: &[RawFolder],
    parent: Option<&str>,
    depth: usize,
    fuel: usize,
    out: &mut Vec<FolderEntry>,
)
    requires
        depth + fuel <= usize::MAX,
    ensures
        folder_views(final(out)@) == folder_views(old(out)@) + rows_view(
            raw_views(raw@),
            tree_rows(
                raw_views(raw@),
                match parent {
                    Some(s) => Some(s@),
                    None => None,
                },
                depth as nat,
                fuel as nat,
            ),
        ),
    decreases fuel,
{
    let ghost rv = raw_views(raw@);
    if fuel == 0 {
        assert(folder_views(out@) =~= folder_views(old(out)@) + Seq::<FolderView>::empty());
        return;
    }
    let kids = sorted_children(raw, parent);
    let ghost ks = kids@.map_values(|k: usize| k as int);
    let ghost start = folder_views(out@);
    let mut i: usize = 0;
    while i < kids.len()
        invariant
            i <= kids@.len(),
            rv == raw_views(raw@),
            ks == kids@.map_values(|k: usize| k as int),
            forall|k: int| 0 <= k < kids@.len() ==> #[trigger] kids@[k] < raw@.len(),
            depth + fuel <= usize::MAX,
            fuel > 0,
            folder_views(out@) == start + rows_view(
                rv,
                kid_rows(rv, ks.take(i as int), depth as nat, (fuel - 1) as nat),
            ),
        decreases kids@.len() - i,
    {
        let k = kids[i];
        let e = make_entry(&raw[k], depth);
        proof {
            lemma_views_push(out@, e);
        }
        out.push(e);
        build_tree(raw, Some(raw[k].id.as_str()), depth + 1, fuel - 1, out);
        proof {
            let t = ks.take(i as int + 1);
            assert(t.drop_last() =~= ks.take(i as int));
            assert(t.last() == k as int);
            assert(rv[k as int] == raw@[k as int]@);
            let a = kid_rows(rv, ks.take(i as int), depth as nat, (fuel - 1) as nat);
            let b = tree_rows(rv, Some(rv[k as int].id), depth as nat + 1, (fuel - 1) as nat);
            assert(kid_rows(rv, t, depth as nat, (fuel - 1) as nat) == a + seq![(k as int, depth as nat)] + b);
            lemma_rows_view_add(rv, a + seq![(k as int, depth as nat)], b);
            lemma_rows_view_add(rv, a, seq![(k as int, depth as nat)]);
            assert(rows_view(rv, seq![(k as int, depth as nat)]) =~= seq![row_view(rv[k as int], depth as nat)]);
        }
        i = i + 1;
    }
    proof {
        assert(ks.take(i as int) =~= ks);
        assert(ks == sort_siblings(
            rv,
            children_of(
                rv,
                match parent {
                    Some(s) => Some(s@),
                    None => None,
                },
                raw@.len() as int,
            ),
        ));
    }
}

// ── Resolution ────────────────────────────────────────────────────────

/// The pieces of `s` between occurrences of `c` (at least one piece).
pub open spec fn split_on(s: Seq<char>, c: char) -> Seq<Seq<char>>
    decreases s.len(),
{
    if s.len() == 0 {
        seq![Seq::<char>::empty()]
    } else {
        let rest = split_on(s.drop_first(), c);
        if s[0] == c {
            seq![Seq::<char>::empty()] + rest
        } else {
            rest.update(0, seq![s[0]] + rest[0])
        }
    }
}

proof fn lemma_split_nonempty(s: Seq<char>, c: char)
    ensures
        split_on(s, c).len() >= 1,
    decreases s.len(),
{
    if s.len() > 0 {
        lemma_split_nonempty(s.drop_first(), c);
    }
}

pub open spec fn name_is(n: Seq<char>) -> spec_fn(FolderView) -> bool {
    |f: FolderView| f.name == n
}

pub open spec fn name_parent_is(n: Seq<char>, p: Option<Seq<char>>) -> spec_fn(FolderView) -> bool {
    |f: FolderView| f.name == n && f.parent_id == p
}

pub open spec fn role_is(r: Seq<char>) -> spec_fn(FolderView) -> bool {
    |f: FolderView| f.role == Some(r)
}

pub open spec fn id_is(id: Seq<char>) -> spec_fn(FolderView) -> bool {
    |f: FolderView| f.id == id
}

/// Follows path segments from the top level: each names a child of the
/// folder the previous one found.
pub open spec fn walk(fs: Seq<FolderView>, segs: Seq<Seq<char>>, parent: Option<Seq<char>>) -> Option<Seq<char>>
    decreases segs.len(),
{
    if segs.len() == 0 {
        None
    } else {
        match first_match(fs, name_parent_is(segs[0], parent)) {
            None => None,
            Some(i) => if segs.len() == 1 {
                Some(fs[i].id)
            } else {
                walk(fs, segs.drop_first(), Some(fs[i].id))
            },
        }
    }
}

/// The folder a name or slash-separated path names.
pub open spec fn spec_resolve_path(fs: Seq<FolderView>, path: Seq<char>) -> Option<Seq<char>> {
    if !path.contains('/') {
        match first_match(fs, name_is(path)) {
            Some(i) => Some(fs[i].id),
            None => None,
        }
    } else {
        walk(fs, split_on(path, '/'), None)
    }
}

/// The pieces of `cs` from position `from` between occurrences of `sep`.
fn split_from(cs: &Vec<char>, from: usize, sep: char) -> (r: Vec<String>)
    requires
        from <= cs@.len(),
    ensures
        r@.len() == split_on(cs@.skip(from as int), sep).len(),
        forall|i: int| 0 <= i < r@.len() ==> #[trigger] r@[i]@ == split_on(cs@.skip(from as int), sep)[i],
    decreases cs@.len() - from,
{
    if from == cs.len() {
        assert(cs@.skip(from as int) =~= Seq::<char>::empty());
        return vec![String::new()];
    }
    let mut rest = split_from(cs, from + 1, sep);
    let ghost tail = cs@.skip(from + 1);
    assert(cs@.skip(from as int).drop_first() =~= tail);
    assert(cs@.skip(from as int)[0] == cs@[from as int]);
    proof {
        lemma_split_nonempty(tail, sep);
    }
    if cs[from] == sep {
        rest.insert(0, String::new());
        assert forall|i: int| 0 <= i < rest@.len() implies #[trigger] rest@[i]@ == split_on(
            cs@.skip(from as int),
            sep,
        )[i] by {
            if i > 0 {
                assert(rest@[i] == old_rest_at(rest@, i));
            }
        }
    } else {
        let mut first = String::new();
        push_char(&mut first, cs[from]);
        push_str(&mut first, rest[0].as_str());
        rest.set(0, first);
    }
    rest
}

spec fn old_rest_at(s: Seq<String>, i: int) -> String {
    s[i]
}

/// Position of the first folder named `name` under `parent`.
fn find_child(fs: &[FolderEntry], name: &str, parent: &Option<String>) -> (r: Option<usize>)
    ensures
        r matches Some(i) ==> first_match(folder_views(fs@), name_parent_is(name@, opt_view(*parent)))
            == Some(i as int),
        r is None ==> first_match(folder_views(fs@), name_parent_is(name@, opt_view(*parent))) is None,
        r matches Some(i) ==> i < fs@.len(),
{
    let ghost v = folder_views(fs@);
    let ghost p = name_parent_is(name@, opt_view(*parent));
    let mut i: usize = 0;
    while i < fs.len()
        invariant
            i <= fs@.len(),
            v == folder_views(fs@),
            p == name_parent_is(name@, opt_view(*parent)),
            forall|j: int| 0 <= j < i ==> !p(#[trigger] v[j]),
        decreases fs@.len() - i,
    {
        let parent_ref = opt_as_str(parent);
        if str_eq(fs[i].name.as_str(), name) && opt_eq(&fs[i].parent_id, parent_ref) {
            proof {
                lemma_first_match_at(v, p, i as int);
            }
            return Some(i);
        }
        i = i + 1;
    }
    proof {
        lemma_first_match_none(v, p);
    }
    None
}

/// Position of the first folder named `name`.
fn find_named(fs: &[FolderEntry], name: &str) -> (r: Option<usize>)
    ensures
        r matches Some(i) ==> first_match(folder_views(fs@), name_is(name@)) == Some(i as int),
        r is None ==> first_match(folder_views(fs@), name_is(name@)) is None,
        r matches Some(i) ==> i < fs@.len(),
{
    let ghost v = folder_views(fs@);
    let ghost p = name_is(name@);
    let mut i: usize = 0;
    while i < fs.len()
        invariant
            i <= fs@.len(),
            v == folder_views(fs@),
            p == name_is(name@),
            forall|j: int| 0 <= j < i ==> !p(#[trigger] v[j]),
        decreases fs@.len() - i,
    {
        if str_eq(fs[i].name.as_str(), name) {
            proof {
                lemma_first_match_at(v, p, i as int);
            }
            return Some(i);
        }
        i = i + 1;
    }
    proof {
        lemma_first_match_none(v, p);
    }
    None
}

/// Position of the first folder with the given role.
fn find_role(fs: &[FolderEntry], role: &str) -> (r: Option<usize>)
    ensures
        r matches Some(i) ==> first_match(folder_views(fs@), role_is(role@)) == Some(i as int),
        r is None ==> first_match(folder_views(fs@), role_is(role@)) is None,
        r matches Some(i) ==> i < fs@.len(),
{
    let ghost v = folder_views(fs@);
    let ghost p = role_is(role@);
    let mut i: usize = 0;
    while i < fs.len()
        invariant
            i <= fs@.len(),
            v == folder_views(fs@),
            p == role_is(role@),
            forall|j: int| 0 <= j < i ==> !p(#[trigger] v[j]),
        decreases fs@.len() - i,
    {
        if opt_eq(&fs[i].role, Some(role)) {
            proof {
                lemma_first_match_at(v, p, i as int);
            }
            return Some(i);
        }
        i = i + 1;
    }
    proof {
        lemma_first_match_none(v, p);
    }
    None
}

/// Position of the first folder with the given id.
fn find_id(fs: &[FolderEntry], id: &str) -> (r: Option<usize>)
    ensures
        r matches Some(i) ==> first_match(folder_views(fs@), id_is(id@)) == Some(i as int),
        r is None ==> first_match(folder_views(fs@), id_is(id@)) is None,
        r matches Some(i) ==> i < fs@.len(),
{
    let ghost v = folder_views(fs@);
    let ghost p = id_is(id@);
    let mut i: usize = 0;
    while i < fs.len()
        invariant
            i <= fs@.len(),
            v == folder_views(fs@),
            p == id_is(id@),
            forall|j: int| 0 <= j < i ==> !p(#[trigger] v[j]),
        decreases fs@.len() - i,
    {
        if str_eq(fs[i].id.as_str(), id) {
            proof {
                lemma_first_match_at(v, p, i as int);
            }
            return Some(i);
        }
        i = i + 1;
    }
    proof {
        lemma_first_match_none(v, p);
    }
    None
}

fn has_slash(s: &str) -> (r: bool)
    ensures
        r == s@.contains('/'),
{
    let n = s.unicode_len();
    let mut i: usize = 0;
    while i < n
        invariant
            n == s@.len(),
            i <= n,
            forall|j: int| 0 <= j < i ==> s@[j] != '/',
        decreases n - i,
    {
        if s.get_char(i) == '/' {
            assert(s@[i as int] == '/');
            return true;
        }
        i = i + 1;
    }
    false
}

/// Resolve a folder by name or slash-separated path (e.g. "Archive/2026").
pub fn resolve_folder_path(folders: &[FolderEntry], path: &str) -> (r: Option<String>)
    ensures
        opt_view(r) == spec_resolve_path(folder_views(folders@), path@),
{
    let ghost v = folder_views(folders@);
    if !has_slash(path) {
        return match find_named(folders, path) {
            Some(i) => Some(folders[i].id.clone()),
            None => None,
        };
    }
    let cs = chars_of(path);
    let segments = split_from(&cs, 0, '/');
    let ghost segs = split_on(path@, '/');
    assert(cs@.skip(0) =~= path@);
    assert(segments@.map_values(|s: String| s@) =~= segs);
    assert(segs.skip(0) =~= segs);
    let mut current: Option<String> = None;
    let mut i: usize = 0;
    while i < segments.len()
        invariant
            v == folder_views(folders@),
            segs == split_on(path@, '/'),
            segments@.map_values(|s: String| s@) == segs,
            i <= segments@.len(),
            walk(v, segs.skip(i as int), opt_view(current)) == spec_resolve_path(v, path@),
        decreases segments@.len() - i,
    {
        let ghost rest = segs.skip(i as int);
        assert(rest[0] == segments@[i as int]@);
        match find_child(folders, segments[i].as_str(), &current) {
            None => {
                return None;
            },
            Some(j) => {
                if i == segments.len() - 1 {
                    return Some(folders[j].id.clone());
                }
                assert(rest.drop_first() =~= segs.skip(i as int + 1));
                current = Some(folders[j].id.clone());
            },
        }
        i = i + 1;
    }
    assert(segs.skip(i as int) =~= Seq::<Seq<char>>::empty());
    None
}

/// A mail action's configured folder, the server role that marks its
/// folder, and the folder name used when neither is there.
pub open spec fn spec_action(m: FolderMappings, action: Seq<char>) -> Option<(Option<Seq<char>>, Seq<char>, Seq<char>)> {
    if action == "inbox"@ {
        Some((None, "inbox"@, "Inbox"@))
    } else if action == "drafts"@ {
        Some((None, "drafts"@, "Drafts"@))
    } else if action == "sent"@ {
        Some((opt_view(m.sent), "sent"@, "Sent"@))
    } else if action == "archive"@ {
        Some((opt_view(m.archive), "archive"@, "Archive"@))
    } else if action == "trash"@ {
        Some((opt_view(m.trash), "trash"@, "Trash"@))
    } else if action == "spam"@ {
        Some((opt_view(m.spam), "junk"@, "Junk"@))
    } else {
        None
    }
}

/// The folder id a mail action targets: the configured path, else the
/// first folder with the action's server role, else the default name.
pub open spec fn spec_resolve_action(fs: Seq<FolderView>, m: FolderMappings, action: Seq<char>) -> Option<Seq<char>> {
    match spec_action(m, action) {
        None => None,
        Some((over, role, default_name)) => match over {
            Some(p) => spec_resolve_path(fs, p),
            None => match first_match(fs, role_is(role)) {
                Some(i) => Some(fs[i].id),
                None => spec_resolve_path(fs, default_name),
            },
        },
    }
}

/// Resolve the target folder id for a mail action ("sent", "archive",
/// "trash", "spam", "inbox", "drafts").
pub fn resolve_action_folder(folders: &[FolderEntry], mappings: &FolderMappings, action: &str) -> (r: Option<String>)
    ensures
        opt_view(r) == spec_resolve_action(folder_views(folders@), *mappings, action@),
{
    let (over, role, default_name): (Option<&str>, &str, &str) = if str_eq(action, "inbox") {
        (None, "inbox", "Inbox")
    } else if str_eq(action, "drafts") {
        (None, "drafts", "Drafts")
    } else if str_eq(action, "sent") {
        (opt_as_str(&mappings.sent), "sent", "Sent")
    } else if str_eq(action, "archive") {
        (opt_as_str(&mappings.archive), "archive", "Archive")
    } else if str_eq(action, "trash") {
        (opt_as_str(&mappings.trash), "trash", "Trash")
    } else if str_eq(action, "spam") {
        (opt_as_str(&mappings.spam), "junk", "Junk")
    } else {
        return None;
    };
    match over {
        Some(p) => resolve_folder_path(folders, p),
        None => match find_role(folders, role) {
            Some(i) => Some(folders[i].id.clone()),
            None => resolve_folder_path(folders, default_name),
        },
    }
}

// ── Tagging ───────────────────────────────────────────────────────────

/// The mail actions, in canonical order.
pub open spec fn action_names() -> Seq<Seq<char>> {
    seq!["inbox"@, "drafts"@, "sent"@, "archive"@, "trash"@, "spam"@]
}

fn action_name(k: usize) -> (r: &'static str)
    requires
        k < 6,
    ensures
        r@ == action_names()[k as int],
{
    match k {
        0 => "inbox",
        1 => "drafts",
        2 => "sent",
        3 => "archive",
        4 => "trash",
        _ => "spam",
    }
}

/// Marks the first folder with id `target` with `tag`.
pub open spec fn apply_tag(fs: Seq<FolderView>, tag: Seq<char>, target: Option<Seq<char>>) -> Seq<FolderView> {
    match target {
        None => fs,
        Some(id) => match first_match(fs, id_is(id)) {
            None => fs,
            Some(j) => fs.update(j, FolderView { action_tag: Some(tag), ..fs[j] }),
        },
    }
}

/// The folders after tagging the first `k` actions, each with the target
/// it resolves to among the untagged folders `fs0`.
pub open spec fn tag_steps(fs0: Seq<FolderView>, m: FolderMappings, k: nat) -> Seq<FolderView>
    decreases k,
{
    if k == 0 {
        fs0
    } else {
        let t = action_names()[k - 1];
        apply_tag(tag_steps(fs0, m, (k - 1) as nat), t, spec_resolve_action(fs0, m, t))
    }
}

pub open spec fn spec_tag(fs: Seq<FolderView>, m: FolderMappings) -> Seq<FolderView> {
    tag_steps(fs, m, 6)
}

fn clone_entry(e: &FolderEntry) -> (r: FolderEntry)
    ensures
        r@ == e@,
{
    FolderEntry {
        id: e.id.clone(),
        name: e.name.clone(),
        parent_id: clone_opt(&e.parent_id),
        role: clone_opt(&e.role),
        sort_order: e.sort_order,
        total_emails: e.total_emails,
        unread_emails: e.unread_emails,
        display_name: e.display_name.clone(),
        depth: e.depth,
        action_tag: clone_opt(&e.action_tag),
    }
}

/// Tag exactly one folder per action with the resolved action tag.
fn tag_action_folders(folders: &mut Vec<FolderEntry>, mappings: &FolderMappings)
    ensures
        folder_views(final(folders)@) == spec_tag(folder_views(old(folders)@), *mappings),
{
    let ghost fs0 = folder_views(folders@);
    let mut targets: Vec<Option<String>> = Vec::new();
    let mut k: usize = 0;
    while k < 6
        invariant
            k <= 6,
            targets@.len() == k,
            fs0 == folder_views(folders@),
            forall|j: int| 0 <= j < k ==> opt_view(#[trigger] targets@[j]) == spec_resolve_action(
                fs0,
                *mappings,
                action_names()[j],
            ),
        decreases 6 - k,
    {
        targets.push(resolve_action_folder(folders, mappings, action_name(k)));
        k = k + 1;
    }
    let mut k: usize = 0;
    while k < 6
        invariant
            k <= 6,
            targets@.len() == 6,
            forall|j: int| 0 <= j < 6 ==> opt_view(#[trigger] targets@[j]) == spec_resolve_action(
                fs0,
                *mappings,
                action_names()[j],
            ),
            folder_views(folders@) == tag_steps(fs0, *mappings, k as nat),
        decreases 6 - k,
    {
        let ghost before = folder_views(folders@);
        let ghost t = action_names()[k as int];
        match &targets[k] {
            Some(id) => match find_id(folders, id.as_str()) {
                Some(j) => {
                    let mut e = clone_entry(&folders[j]);
                    e.action_tag = Some(crate::strings::to_owned(action_name(k)));
                    folders.set(j, e);
                    assert(folder_views(folders@) =~= before.update(
                        j as int,
                        FolderView { action_tag: Some(t), ..before[j as int] },
                    ));
                },
                None => {},
            },
            None => {},
        }
        k = k + 1;
    }
}

// ── Hoisting ──────────────────────────────────────────────────────────

/// Rank of an action tag in canonical order (255 for none).
pub open spec fn spec_tag_priority(tag: Option<Seq<char>>) -> u8 {
    match tag {
        Some(t) => if t == "inbox"@ {
            0
        } else if t == "drafts"@ {
            1
        } else if t == "sent"@ {
            2
        } else if t == "archive"@ {
            3
        } else if t == "trash"@ {
            4
        } else if t == "spam"@ {
            5
        } else {
            255
        },
        None => 255,
    }
}

/// The top-level subtrees as blocks of row indices: a block starts at
/// each depth-0 row (and at the first row).
pub open spec fn blocks(fs: Seq<FolderView>) -> Seq<Seq<int>>
    decreases fs.len(),
{
    if fs.len() == 0 {
        Seq::empty()
    } else {
        let b = blocks(fs.drop_last());
        let i = fs.len() - 1;
        if fs[i].depth == 0 || b.len() == 0 {
            b.push(seq![i])
        } else {
            b.update(b.len() - 1, b.last().push(i))
        }
    }
}

/// The smallest action rank in a block.
pub open spec fn block_key(fs: Seq<FolderView>, b: Seq<int>) -> u8
    decreases b.len(),
{
    if b.len() == 0 {
        255
    } else {
        let k = block_key(fs, b.drop_last());
        let t = spec_tag_priority(fs[b.last()].action_tag);
        if t < k {
            t
        } else {
            k
        }
    }
}

/// The rows of the blocks whose key is `k`, blocks kept in order.
pub open spec fn with_key(fs: Seq<FolderView>, bs: Seq<Seq<int>>, k: u8) -> Seq<int>
    decreases bs.len(),
{
    if bs.len() == 0 {
        Seq::empty()
    } else {
        with_key(fs, bs.drop_last(), k) + if block_key(fs, bs.last()) == k {
            bs.last()
        } else {
            Seq::empty()
        }
    }
}

/// The block keys that occur, in order.
pub open spec fn hoist_keys() -> Seq<u8> {
    seq![0u8, 1, 2, 3, 4, 5, 255]
}

/// Row order after hoisting: blocks by key, equal keys in list order.
pub open spec fn hoist_order_upto(fs: Seq<FolderView>, n: nat) -> Seq<int>
    decreases n,
{
    if n == 0 {
        Seq::empty()
    } else {
        hoist_order_upto(fs, (n - 1) as nat) + with_key(fs, blocks(fs), hoist_keys()[n - 1])
    }
}

pub open spec fn spec_hoist(fs: Seq<FolderView>) -> Seq<FolderView> {
    hoist_order_upto(fs, 7).map_values(|i: int| fs[i])
}

fn tag_priority(tag: &Option<String>) -> (r: u8)
    ensures
        r == spec_tag_priority(opt_view(*tag)),
{
    match tag {
        Some(t) => {
            let t = t.as_str();
            if str_eq(t, "inbox") {
                0
            } else if str_eq(t, "drafts") {
                1
            } else if str_eq(t, "sent") {
                2
            } else if str_eq(t, "archive") {
                3
            } else if str_eq(t, "trash") {
                4
            } else if str_eq(t, "spam") {
                5
            } else {
                255
            }
        },
        None => 255,
    }
}

fn hoist_key(k: usize) -> (r: u8)
    requires
        k < 7,
    ensures
        r == hoist_keys()[k as int],
{
    match k {
        0 => 0,
        1 => 1,
        2 => 2,
        3 => 3,
        4 => 4,
        5 => 5,
        _ => 255,
    }
}

spec fn idx_view(v: Seq<usize>) -> Seq<int> {
    v.map_values(|i: usize| i as int)
}

/// Hoist top-level subtrees containing an action target to the top, in
/// canonical action order, keeping subtree blocks intact.
fn sort_action_folders_first(folders: &mut Vec<FolderEntry>)
    ensures
        folder_views(final(folders)@) == spec_hoist(folder_views(old(folders)@)),
{
    let ghost fs = folder_views(folders@);
    let mut bl: Vec<Vec<usize>> = Vec::new();
    let mut i: usize = 0;
    while i < folders.len()
        invariant
            i <= folders@.len(),
            fs == folder_views(folders@),
            bl@.len() == blocks(fs.take(i as int)).len(),
            forall|b: int| 0 <= b < bl@.len() ==> idx_view(#[trigger] bl@[b]@) == blocks(fs.take(i as int))[b],
            forall|b: int, x: int| 0 <= b < bl@.len() && 0 <= x < bl@[b]@.len() ==> #[trigger] bl@[b]@[x] < i,
        decreases folders@.len() - i,
    {
        let ghost t = fs.take(i as int + 1);
        assert(t.drop_last() =~= fs.take(i as int));
        assert(t[i as int] == folders@[i as int]@);
        if folders[i].depth == 0 || bl.len() == 0 {
            bl.push(vec![i]);
            assert(idx_view(seq![i]) =~= seq![i as int]);
            assert forall|b: int| 0 <= b < bl@.len() implies idx_view(#[trigger] bl@[b]@) == blocks(t)[b] by {}
        } else {
            let mut last = bl.pop().unwrap();
            let ghost lb = last@;
            last.push(i);
            bl.push(last);
            assert(idx_view(lb.push(i)) =~= idx_view(lb).push(i as int));
            assert forall|b: int| 0 <= b < bl@.len() implies idx_view(#[trigger] bl@[b]@) == blocks(t)[b] by {}
        }
        i = i + 1;
    }
    assert(fs.take(i as int) =~= fs);
    let mut keys: Vec<u8> = Vec::new();
    let mut b: usize = 0;
    while b < bl.len()
        invariant
            b <= bl@.len(),
            keys@.len() == b,
            fs == folder_views(folders@),
            bl@.len() == blocks(fs).len(),
            forall|c: int| 0 <= c < bl@.len() ==> idx_view(#[trigger] bl@[c]@) == blocks(fs)[c],
            forall|c: int, x: int| 0 <= c < bl@.len() && 0 <= x < bl@[c]@.len() ==> #[trigger] bl@[c]@[x] < fs.len(),
            forall|c: int| 0 <= c < b ==> #[trigger] keys@[c] == block_key(fs, blocks(fs)[c]),
        decreases bl@.len() - b,
    {
        let mut key: u8 = 255;
        let mut x: usize = 0;
        let ghost blk = idx_view(bl@[b as int]@);
        while x < bl[b].len()
            invariant
                x <= bl@[b as int]@.len(),
                b < bl@.len(),
                blk == idx_view(bl@[b as int]@),
                fs == folder_views(folders@),
                forall|y: int| 0 <= y < bl@[b as int]@.len() ==> #[trigger] bl@[b as int]@[y] < fs.len(),
                key == block_key(fs, blk.take(x as int)),
            decreases bl@[b as int]@.len() - x,
        {
            assert(blk.take(x as int + 1).drop_last() =~= blk.take(x as int));
            let idx = bl[b][x];
            assert(fs[idx as int] == folders@[idx as int]@);
            let t = tag_priority(&folders[idx].action_tag);
            if t < key {
                key = t;
            }
            x = x + 1;
        }
        assert(blk.take(x as int) =~= blk);
        keys.push(key);
        b = b + 1;
    }
    let mut order: Vec<usize> = Vec::new();
    let mut k: usize = 0;
    while k < 7
        invariant
            k <= 7,
            fs == folder_views(folders@),
            keys@.len() == bl@.len(),
            bl@.len() == blocks(fs).len(),
            forall|c: int| 0 <= c < bl@.len() ==> idx_view(#[trigger] bl@[c]@) == blocks(fs)[c],
            forall|c: int, x: int| 0 <= c < bl@.len() && 0 <= x < bl@[c]@.len() ==> #[trigger] bl@[c]@[x] < fs.len(),
            forall|c: int| 0 <= c < bl@.len() ==> #[trigger] keys@[c] == block_key(fs, blocks(fs)[c]),
            idx_view(order@) == hoist_order_upto(fs, k as nat),
            forall|y: int| 0 <= y < order@.len() ==> #[trigger] order@[y] < fs.len(),
        decreases 7 - k,
    {
        let want = hoist_key(k);
        let ghost base = idx_view(order@);
        let mut c: usize = 0;
        while c < bl.len()
            invariant
                c <= bl@.len(),
                k < 7,
                want == hoist_keys()[k as int],
                keys@.len() == bl@.len(),
                bl@.len() == blocks(fs).len(),
                forall|c2: int| 0 <= c2 < bl@.len() ==> idx_view(#[trigger] bl@[c2]@) == blocks(fs)[c2],
                forall|c2: int, x: int| 0 <= c2 < bl@.len() && 0 <= x < bl@[c2]@.len() ==> #[trigger] bl@[c2]@[x] < fs.len(),
                forall|c2: int| 0 <= c2 < bl@.len() ==> #[trigger] keys@[c2] == block_key(fs, blocks(fs)[c2]),
                idx_view(order@) == base + with_key(fs, blocks(fs).take(c as int), want),
                forall|y: int| 0 <= y < order@.len() ==> #[trigger] order@[y] < fs.len(),
            decreases bl@.len() - c,
        {
            assert(blocks(fs).take(c as int + 1).drop_last() =~= blocks(fs).take(c as int));
            if keys[c] == want {
                let ghost o0 = idx_view(order@);
                let mut x: usize = 0;
                while x < bl[c].len()
                    invariant
                        x <= bl@[c as int]@.len(),
                        c < bl@.len(),
                        forall|c2: int, x2: int| 0 <= c2 < bl@.len() && 0 <= x2 < bl@[c2]@.len() ==> #[trigger] bl@[c2]@[x2] < fs.len(),
                        idx_view(order@) == o0 + idx_view(bl@[c as int]@).take(x as int),
                        forall|y: int| 0 <= y < order@.len() ==> #[trigger] order@[y] < fs.len(),
                    decreases bl@[c as int]@.len() - x,
                {
                    let ghost before = order@;
                    order.push(bl[c][x]);
                    assert(idx_view(order@) =~= idx_view(before).push(bl@[c as int]@[x as int] as int));
                    assert(idx_view(bl@[c as int]@).take(x as int + 1) =~= idx_view(bl@[c as int]@).take(x as int).push(bl@[c as int]@[x as int] as int));
                    x = x + 1;
                }
                assert(idx_view(bl@[c as int]@).take(x as int) =~= idx_view(bl@[c as int]@));
            }
            c = c + 1;
        }
        assert(blocks(fs).take(c as int) =~= blocks(fs));
        k = k + 1;
    }
    let mut out: Vec<FolderEntry> = Vec::new();
    let mut y: usize = 0;
    while y < order.len()
        invariant
            y <= order@.len(),
            fs == folder_views(folders@),
            forall|z: int| 0 <= z < order@.len() ==> #[trigger] order@[z] < fs.len(),
            folder_views(out@) == idx_view(order@).take(y as int).map_values(|i: int| fs[i]),
        decreases order@.len() - y,
    {
        let e = clone_entry(&folders[order[y]]);
        proof {
            lemma_views_push(out@, e);
            assert(idx_view(order@).take(y as int + 1).map_values(|i: int| fs[i]) =~= idx_view(order@).take(y as int).map_values(|i: int| fs[i]).push(fs[order@[y as int] as int]));
        }
        out.push(e);
        y = y + 1;
    }
    assert(idx_view(order@).take(y as int) =~= idx_view(order@));
    *folders = out;
}

/// Build the display list: tree order, action tags resolved from config,
/// and action-target subtrees hoisted to the top in canonical order.
pub fn build_folder_list(raw: &[RawFolder], mappings: &FolderMappings) -> (r: Vec<FolderEntry>)
    ensures
        folder_views(r@) == spec_hoist(spec_tag(spec_tree(raw_views(raw@)), *mappings)),
{
    let mut folders: Vec<FolderEntry> = Vec::new();
    build_tree(raw, None, 0, raw.len(), &mut folders);
    assert(folder_views(Seq::<FolderEntry>::empty()) =~= Seq::<FolderView>::empty());
    assert(folder_views(folders@) =~= spec_tree(raw_views(raw@)));
    tag_action_folders(&mut folders, mappings);
    sort_action_folders_first(&mut folders);
    folders
}

// ── Rows ──────────────────────────────────────────────────────────────

/// A folder row: display name, action tag, total and unread counts.
pub open spec fn spec_format_folder(f: FolderView) -> Seq<char> {
    let unread = if f.unread_emails > 0 {
        " •"@ + dec(f.unread_emails as nat)
    } else {
        Seq::empty()
    };
    match f.action_tag {
        Some(tag) => f.display_name + "  ["@ + tag + "]  ("@ + dec(f.total_emails as nat) + unread
            + ")"@,
        None => f.display_name + "  ("@ + dec(f.total_emails as nat) + unread + ")"@,
    }
}

/// Format a folder row: display name, action tag, counts.
pub fn format_folder(f: &FolderEntry) -> (r: String)
    ensures
        r@ == spec_format_folder(f@),
{
    let mut out = f.display_name.clone();
    match &f.action_tag {
        Some(tag) => {
            push_str(&mut out, "  [");
            push_str(&mut out, tag.as_str());
            push_str(&mut out, "]  (");
        },
        None => {
            push_str(&mut out, "  (");
        },
    }
    push_dec(&mut out, f.total_emails as u64);
    if f.unread_emails > 0 {
        push_str(&mut out, " •");
        push_dec(&mut out, f.unread_emails as u64);
    }
    push_str(&mut out, ")");
    proof {
        let v = f@;
        let unread = if v.unread_emails > 0 {
            " •"@ + dec(v.unread_emails as nat)
        } else {
            Seq::<char>::empty()
        };
        match v.action_tag {
            Some(tag) => {
                assert(out@ =~= v.display_name + "  ["@ + tag + "]  ("@ + dec(v.total_emails as nat)
                    + unread + ")"@);
            },
            None => {
                assert(out@ =~= v.display_name + "  ("@ + dec(v.total_emails as nat) + unread
                    + ")"@);
            },
        }
    }
    out
}

// ── Laws ──────────────────────────────────────────────────────────────

/// No action tag is carried by two folders.
pub open spec fn tags_distinct(fs: Seq<FolderView>) -> bool {
    forall|i: int, j: int|
        0 <= i < fs.len() && 0 <= j < fs.len() && i != j && (#[trigger] fs[i]).action_tag is Some
            ==> fs[i].action_tag != (#[trigger] fs[j]).action_tag
}

/// Every tag present is one of the first `k` actions.
pub open spec fn tags_among(fs: Seq<FolderView>, k: int) -> bool {
    forall|i: int|
        0 <= i < fs.len() ==> (#[trigger] fs[i]).action_tag is None || exists|q: int|
            0 <= q < k && fs[i].action_tag == Some(action_names()[q])
}

proof fn lemma_action_names_distinct()
    ensures
        forall|a: int, b: int|
            0 <= a < 6 && 0 <= b < 6 && a != b ==> action_names()[a] != action_names()[b],
{
    reveal_strlit("inbox");
    reveal_strlit("drafts");
    reveal_strlit("sent");
    reveal_strlit("archive");
    reveal_strlit("trash");
    reveal_strlit("spam");
    assert("inbox"@[0] != "drafts"@[0]);
    assert("inbox"@[0] != "trash"@[0]);
    assert("sent"@[1] != "spam"@[1]);
}

proof fn lemma_tag_steps(fs0: Seq<FolderView>, m: FolderMappings, k: nat)
    requires
        k <= 6,
        forall|i: int| 0 <= i < fs0.len() ==> (#[trigger] fs0[i]).action_tag is None,
    ensures
        tag_steps(fs0, m, k).len() == fs0.len(),
        tags_distinct(tag_steps(fs0, m, k)),
        tags_among(tag_steps(fs0, m, k), k as int),
    decreases k,
{
    if k > 0 {
        lemma_tag_steps(fs0, m, (k - 1) as nat);
        lemma_action_names_distinct();
        let prev = tag_steps(fs0, m, (k - 1) as nat);
        let t = action_names()[k - 1];
        let cur = tag_steps(fs0, m, k);
        match spec_resolve_action(fs0, m, t) {
            None => {},
            Some(id) => {
                lemma_first_match(prev, id_is(id));
                match first_match(prev, id_is(id)) {
                    None => {},
                    Some(j) => {
                        assert forall|i: int| 0 <= i < cur.len() && i != j implies #[trigger] cur[i] == prev[i] by {}
                        assert forall|i: int|
                            0 <= i < cur.len() && i != j implies (#[trigger] cur[i]).action_tag != Some(t) by {
                            if prev[i].action_tag is Some {
                                let q = choose|q: int| 0 <= q < k - 1 && prev[i].action_tag == Some(action_names()[q]);
                                assert(action_names()[q] != t);
                            }
                        }
                    },
                }
            },
        }
    }
}

/// Tagging gives each action at most one folder: no two folders carry the
/// same action tag, and every tag names a mail action.
pub proof fn law_one_folder_per_action(fs: Seq<FolderView>, m: FolderMappings)
    requires
        forall|i: int| 0 <= i < fs.len() ==> (#[trigger] fs[i]).action_tag is None,
    ensures
        spec_tag(fs, m).len() == fs.len(),
        tags_distinct(spec_tag(fs, m)),
        tags_among(spec_tag(fs, m), 6),
{
    lemma_tag_steps(fs, m, 6);
}

/// The rows built from the server list carry no action tag yet.
pub proof fn law_tree_rows_untagged(raw: Seq<RawView>)
    ensures
        forall|i: int| 0 <= i < spec_tree(raw).len() ==> (#[trigger] spec_tree(raw)[i]).action_tag is None,
{
}

/// The rows of a list of blocks, block after block.
pub open spec fn concat_blocks(bs: Seq<Seq<int>>) -> Seq<int>
    decreases bs.len(),
{
    if bs.len() == 0 {
        Seq::empty()
    } else {
        concat_blocks(bs.drop_last()) + bs.last()
    }
}

/// The blocks, one after the other, are the rows in order.
proof fn lemma_blocks_cover(fs: Seq<FolderView>)
    ensures
        concat_blocks(blocks(fs)) =~= Seq::new(fs.len(), |i: int| i),
    decreases fs.len(),
{
    if fs.len() > 0 {
        let b = blocks(fs.drop_last());
        lemma_blocks_cover(fs.drop_last());
        let i = fs.len() - 1;
        if fs[i].depth == 0 || b.len() == 0 {
            assert(b.push(seq![i]).drop_last() =~= b);
        } else {
            let nb = b.update(b.len() - 1, b.last().push(i));
            assert(nb.drop_last() =~= b.drop_last());
            assert(concat_blocks(nb) =~= concat_blocks(b).push(i));
        }
    }
}

/// Where a block key stands in `hoist_keys` (7 for a key not listed).
pub open spec fn key_pos(k: u8) -> int {
    if k <= 5 {
        k as int
    } else if k == 255 {
        6
    } else {
        7
    }
}

/// Every block key is one of `hoist_keys`.
proof fn lemma_block_key_listed(fs: Seq<FolderView>, b: Seq<int>)
    ensures
        key_pos(block_key(fs, b)) < 7,
        hoist_keys()[key_pos(block_key(fs, b))] == block_key(fs, b),
    decreases b.len(),
{
    if b.len() > 0 {
        lemma_block_key_listed(fs, b.drop_last());
    }
}

/// `hoist_order_upto` over any list of blocks.
pub open spec fn order_upto(fs: Seq<FolderView>, bs: Seq<Seq<int>>, n: nat) -> Seq<int>
    decreases n,
{
    if n == 0 {
        Seq::empty()
    } else {
        order_upto(fs, bs, (n - 1) as nat) + with_key(fs, bs, hoist_keys()[n - 1])
    }
}

proof fn lemma_order_upto_blocks(fs: Seq<FolderView>, n: nat)
    ensures
        hoist_order_upto(fs, n) == order_upto(fs, blocks(fs), n),
    decreases n,
{
    if n > 0 {
        lemma_order_upto_blocks(fs, (n - 1) as nat);
    }
}

/// Taking the last block off: it leaves the first `n` keys' rows exactly
/// when its key is among them.
proof fn lemma_order_last_block(fs: Seq<FolderView>, bs: Seq<Seq<int>>, n: nat)
    requires
        bs.len() > 0,
        n <= 7,
    ensures
        order_upto(fs, bs, n).to_multiset() =~= order_upto(fs, bs.drop_last(), n).to_multiset().add(
            if key_pos(block_key(fs, bs.last())) < n {
                bs.last().to_multiset()
            } else {
                Multiset::empty()
            },
        ),
    decreases n,
{
    broadcast use vstd::seq_lib::lemma_multiset_commutative;
    broadcast use vstd::multiset::group_multiset_axioms;
    if n > 0 {
        lemma_order_last_block(fs, bs, (n - 1) as nat);
        lemma_block_key_listed(fs, bs.last());
        let k = hoist_keys()[n - 1];
        let kl = block_key(fs, bs.last());
        assert(key_pos(k) == n - 1);
        assert((kl == k) == (key_pos(kl) == n - 1));
        let extra = if kl == k {
            bs.last()
        } else {
            Seq::<int>::empty()
        };
        assert(with_key(fs, bs, k) == with_key(fs, bs.drop_last(), k) + extra);
        vstd::seq_lib::to_multiset_len(Seq::<int>::empty());
        vstd::multiset::lemma_multiset_empty_len(Seq::<int>::empty().to_multiset());
        assert(extra.to_multiset() =~= if kl == k {
            bs.last().to_multiset()
        } else {
            Multiset::empty()
        });
    }
}

proof fn lemma_order_all(fs: Seq<FolderView>, bs: Seq<Seq<int>>)
    ensures
        order_upto(fs, bs, 7).to_multiset() =~= concat_blocks(bs).to_multiset(),
    decreases bs.len(),
{
    broadcast use vstd::seq_lib::lemma_multiset_commutative;
    broadcast use vstd::multiset::group_multiset_axioms;
    if bs.len() == 0 {
        lemma_order_empty(fs, bs, 7);
    } else {
        lemma_order_all(fs, bs.drop_last());
        lemma_order_last_block(fs, bs, 7);
        lemma_block_key_listed(fs, bs.last());
    }
}

proof fn lemma_order_empty(fs: Seq<FolderView>, bs: Seq<Seq<int>>, n: nat)
    requires
        bs.len() == 0,
    ensures
        order_upto(fs, bs, n) =~= Seq::<int>::empty(),
    decreases n,
{
    if n > 0 {
        lemma_order_empty(fs, bs, (n - 1) as nat);
    }
}

/// Hoisting the tagged top-level blocks reorders the rows but neither
/// drops nor repeats any: the row indices it orders are each row once.
pub proof fn law_hoist_is_permutation(fs: Seq<FolderView>)
    ensures
        hoist_order_upto(fs, 7).to_multiset() == Seq::new(fs.len(), |i: int| i).to_multiset(),
{
    lemma_order_upto_blocks(fs, 7);
    lemma_order_all(fs, blocks(fs));
    lemma_blocks_cover(fs);
}

} // verus!
