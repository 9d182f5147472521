//! Popup overlays: entries open as popups on top of the full-size main app.
//! A numbered popup bar lists every open popup; `1`–`9`,`0` toggle them.

use vstd::prelude::*;

use crate::seqs::{first_match, lemma_first_match, lemma_first_match_at, lemma_first_match_none};
use crate::strings::str_eq;
use crate::tui::model::form::Form;

verus! {

/// At most this many popups are open; opening one more drops the oldest.
pub const MAX_POPUPS: usize = 10;

#[derive(Debug, Clone, PartialEq)]
pub enum PopupKind {
    /// Read an email (full body).
    MailView { email_id: String },
    /// Compose a new email.
    Compose,
    /// Reply to an email.
    Reply { email_id: String },
    /// Forward an email.
    Forward { email_id: String },
    /// Add (`id: None`) or edit a contact.
    ContactForm { contact_id: Option<String> },
    /// Add (`id: None`) or edit a calendar event.
    EventForm { event_id: Option<String> },
    /// Read a calendar event.
    EventView { event_id: String },
    /// Read a contact.
    ContactView,
    /// Key binding help.
    Help,
}

/// Editor popups hold a form and are submitted with `s`.
pub open spec fn spec_is_editor(k: PopupKind) -> bool {
    match k {
        PopupKind::Compose | PopupKind::Reply { .. } | PopupKind::Forward { .. }
        | PopupKind::ContactForm { .. } | PopupKind::EventForm { .. } => true,
        _ => false,
    }
}

/// The same kind of popup about the same item.
pub open spec fn same_kind(a: PopupKind, b: PopupKind) -> bool {
    match (a, b) {
        (PopupKind::MailView { email_id: x }, PopupKind::MailView { email_id: y }) => x@ == y@,
        (PopupKind::Compose, PopupKind::Compose) => true,
        (PopupKind::Reply { email_id: x }, PopupKind::Reply { email_id: y }) => x@ == y@,
        (PopupKind::Forward { email_id: x }, PopupKind::Forward { email_id: y }) => x@ == y@,
        (PopupKind::ContactForm { contact_id: x }, PopupKind::ContactForm { contact_id: y }) => opt_text(x) == opt_text(y),
        (PopupKind::EventForm { event_id: x }, PopupKind::EventForm { event_id: y }) => opt_text(x) == opt_text(y),
        (PopupKind::EventView { event_id: x }, PopupKind::EventView { event_id: y }) => x@ == y@,
        (PopupKind::ContactView, PopupKind::ContactView) => true,
        (PopupKind::Help, PopupKind::Help) => true,
        _ => false,
    }
}

pub open spec fn opt_text(o: Option<String>) -> Option<Seq<char>> {
    match o {
        Some(s) => Some(s@),
        None => None,
    }
}

fn opt_str_eq(a: &Option<String>, b: &Option<String>) -> (r: bool)
    ensures
        r == (opt_text(*a) == opt_text(*b)),
{
    match (a, b) {
        (Some(x), Some(y)) => str_eq(x.as_str(), y.as_str()),
        (None, None) => true,
        _ => false,
    }
}

impl PopupKind {
    pub fn icon(&self) -> (r: &'static str)
        ensures
            self is MailView ==> r@ == "✉"@,
            (self is Compose || self is Reply || self is Forward) ==> r@ == "✏"@,
            (self is ContactForm || self is ContactView) ==> r@ == "📇"@,
            (self is EventForm || self is EventView) ==> r@ == "📅"@,
            self is Help ==> r@ == "?"@,
    {
        match self {
            PopupKind::MailView { .. } => "✉",
            PopupKind::Compose | PopupKind::Reply { .. } | PopupKind::Forward { .. } => "✏",
            PopupKind::ContactForm { .. } | PopupKind::ContactView => "📇",
            PopupKind::EventForm { .. } | PopupKind::EventView { .. } => "📅",
            PopupKind::Help => "?",
        }
    }

    /// Editor popups hold a form and are submitted with `s`.
    pub fn is_editor(&self) -> (r: bool)
        ensures
            r == spec_is_editor(*self),
    {
        match self {
            PopupKind::Compose | PopupKind::Reply { .. } | PopupKind::Forward { .. }
            | PopupKind::ContactForm { .. } | PopupKind::EventForm { .. } => true,
            _ => false,
        }
    }

    /// Whether two kinds name the same popup.
    pub fn same_as(&self, other: &PopupKind) -> (r: bool)
        ensures
            r == same_kind(*self, *other),
    {
        match (self, other) {
            (PopupKind::MailView { email_id: x }, PopupKind::MailView { email_id: y }) => str_eq(x.as_str(), y.as_str()),
            (PopupKind::Compose, PopupKind::Compose) => true,
            (PopupKind::Reply { email_id: x }, PopupKind::Reply { email_id: y }) => str_eq(x.as_str(), y.as_str()),
            (PopupKind::Forward { email_id: x }, PopupKind::Forward { email_id: y }) => str_eq(x.as_str(), y.as_str()),
            (PopupKind::ContactForm { contact_id: x }, PopupKind::ContactForm { contact_id: y }) => opt_str_eq(x, y),
            (PopupKind::EventForm { event_id: x }, PopupKind::EventForm { event_id: y }) => opt_str_eq(x, y),
            (PopupKind::EventView { event_id: x }, PopupKind::EventView { event_id: y }) => str_eq(x.as_str(), y.as_str()),
            (PopupKind::ContactView, PopupKind::ContactView) => true,
            (PopupKind::Help, PopupKind::Help) => true,
            _ => false,
        }
    }
}

#[derive(Debug, Clone, Copy, PartialEq, Eq, Structural)]
pub enum PopupState {
    Active,
    Minimized,
    Maximized,
}

pub struct Popup {
    pub kind: PopupKind,
    pub title: String,
    pub state: PopupState,
    /// Editor form (editor kinds only).
    pub form: Option<Form>,
    /// Read-only body lines (view kinds only).
    pub body: Vec<String>,
    /// Footer hint line.
    pub hint: &'static str,
}

/// The footer hint of a read-only popup.
pub open spec fn view_hint(kind: PopupKind) -> Seq<char> {
    match kind {
        PopupKind::MailView { .. } => "r reply · f fwd · a archive · d delete · Esc min · x close"@,
        PopupKind::EventView { .. } => "e edit · d delete · Esc min · x close"@,
        _ => "Esc min · x close"@,
    }
}

impl Popup {
    /// A read-only popup showing `body`.
    pub fn view(kind: PopupKind, title: String, body: Vec<String>) -> (r: Self)
        ensures
            r.kind == kind,
            r.title == title,
            r.state == PopupState::Active,
            r.form is None,
            r.body == body,
            r.hint@ == view_hint(kind),
    {
        let hint = match kind {
            PopupKind::MailView { .. } => "r reply · f fwd · a archive · d delete · Esc min · x close",
            PopupKind::EventView { .. } => "e edit · d delete · Esc min · x close",
            _ => "Esc min · x close",
        };
        Popup { kind, title, state: PopupState::Active, form: None, body, hint }
    }

    /// An editor popup holding `form`.
    pub fn editor(kind: PopupKind, title: String, form: Form) -> (r: Self)
        ensures
            r.kind == kind,
            r.title == title,
            r.state == PopupState::Active,
            r.form == Some(form),
            r.body@.len() == 0,
            r.hint@ == "Tab next field · s send/save · i edit · Esc min · x discard"@,
    {
        Popup {
            kind,
            title,
            state: PopupState::Active,
            form: Some(form),
            body: Vec::new(),
            hint: "Tab next field · s send/save · i edit · Esc min · x discard",
        }
    }
}

/// The popup stack.
pub struct Popups {
    pub items: Vec<Popup>,
    pub focused: Option<usize>,
}

impl Default for Popups {
    fn default() -> (r: Self)
        ensures
            r.items@.len() == 0,
            r.focused is None,
    {
        Popups { items: Vec::new(), focused: None }
    }
}

/// Indices, among the first `n` popups, of those not minimized.
pub open spec fn active_upto(items: Seq<Popup>, n: int) -> Seq<int>
    decreases n,
{
    if n <= 0 {
        Seq::empty()
    } else {
        let prev = active_upto(items, n - 1);
        if items[n - 1].state != PopupState::Minimized {
            prev.push(n - 1)
        } else {
            prev
        }
    }
}

pub open spec fn spec_active(items: Seq<Popup>) -> Seq<int> {
    active_upto(items, items.len() as int)
}

/// The focus after a close or minimize: the last popup still shown.
pub open spec fn spec_refocus(items: Seq<Popup>) -> Option<usize> {
    let a = spec_active(items);
    if a.len() == 0 {
        None
    } else {
        Some(a.last() as usize)
    }
}

/// The popup with a new state.
pub open spec fn with_state(p: Popup, s: PopupState) -> Popup {
    Popup { state: s, ..p }
}

pub open spec fn after(cur: int) -> spec_fn(int) -> bool {
    |i: int| i > cur
}

/// The focus after Tab: the next shown popup after the focused one,
/// wrapping to the first.
pub open spec fn spec_focus_next(items: Seq<Popup>, focused: Option<usize>) -> Option<usize> {
    let a = spec_active(items);
    if a.len() == 0 {
        focused
    } else {
        match focused {
            Some(cur) => match first_match(a, after(cur as int)) {
                Some(k) => Some(a[k] as usize),
                None => Some(a[0] as usize),
            },
            None => Some(a[0] as usize),
        }
    }
}

/// A consistent stack: at most `MAX_POPUPS` popups, the focus on a shown
/// popup, and no focus only when none is shown.
pub open spec fn popups_wf(items: Seq<Popup>, focused: Option<usize>) -> bool {
    &&& items.len() <= MAX_POPUPS
    &&& focused matches Some(i) ==> i < items.len() && items[i as int].state != PopupState::Minimized
    &&& focused is None ==> spec_active(items).len() == 0
}

proof fn lemma_active(items: Seq<Popup>, n: int)
    requires
        0 <= n <= items.len(),
    ensures
        forall|k: int| 0 <= k < active_upto(items, n).len() ==> 0 <= #[trigger] active_upto(items, n)[k] < n
            && items[active_upto(items, n)[k]].state != PopupState::Minimized,
        forall|k: int, l: int| 0 <= k < l < active_upto(items, n).len() ==> #[trigger] active_upto(items, n)[k]
            < #[trigger] active_upto(items, n)[l],
        (exists|i: int| 0 <= i < n && #[trigger] items[i].state != PopupState::Minimized) ==> active_upto(items, n).len() > 0,
    decreases n,
{
    if n > 0 {
        lemma_active(items, n - 1);
        let prev = active_upto(items, n - 1);
        if items[n - 1].state != PopupState::Minimized {
            assert(active_upto(items, n) == prev.push(n - 1));
            assert(active_upto(items, n)[prev.len() as int] == n - 1);
        } else {
            if exists|i: int| 0 <= i < n && #[trigger] items[i].state != PopupState::Minimized {
                let i = choose|i: int| 0 <= i < n && #[trigger] items[i].state != PopupState::Minimized;
                assert(i < n - 1);
                assert(prev.len() > 0);
            }
        }
    }
}

/// The first index in `active` beyond `cur`.
fn first_after(active: &Vec<usize>, cur: usize) -> (r: Option<usize>)
    ensures
        match first_match(active@.map_values(|i: usize| i as int), after(cur as int)) {
            Some(k) => r == Some(active@[k]),
            None => r is None,
        },
{
    let ghost a = active@.map_values(|i: usize| i as int);
    let mut k: usize = 0;
    while k < active.len()
        invariant
            k <= active@.len(),
            a == active@.map_values(|i: usize| i as int),
            forall|j: int| 0 <= j < k ==> !after(cur as int)(#[trigger] a[j]),
        decreases active@.len() - k,
    {
        if active[k] > cur {
            proof {
                lemma_first_match_at(a, after(cur as int), k as int);
            }
            return Some(active[k]);
        }
        k = k + 1;
    }
    proof {
        lemma_first_match_none(a, after(cur as int));
    }
    None
}

impl Popups {
    /// Opens a popup on top and focuses it; with the stack full, the
    /// oldest popup is dropped first.
    pub fn open(&mut self, popup: Popup)
        ensures
            final(self).items@ == (if old(self).items@.len() >= MAX_POPUPS {
                old(self).items@.drop_first()
            } else {
                old(self).items@
            }).push(popup),
            final(self).focused == Some((final(self).items@.len() - 1) as usize),
            popups_wf(old(self).items@, old(self).focused) && popup.state != PopupState::Minimized
                ==> popups_wf(
                final(self).items@,
                final(self).focused,
            ),
    {
        if self.items.len() >= MAX_POPUPS {
            self.items.remove(0);
        }
        self.items.push(popup);
        self.focused = Some(self.items.len() - 1);
        proof {
            let items = self.items@;
            lemma_active(items, items.len() as int);
            if popup.state != PopupState::Minimized {
                assert(items[items.len() - 1].state != PopupState::Minimized);
            }
        }
    }

    /// The focused popup.
    pub fn focused_popup(&self) -> (r: Option<&Popup>)
        ensures
            match self.focused {
                Some(i) => if i < self.items@.len() {
                    r matches Some(p) && *p == self.items@[i as int]
                } else {
                    r is None
                },
                None => r is None,
            },
    {
        match self.focused {
            Some(i) => if i < self.items.len() {
                Some(&self.items[i])
            } else {
                None
            },
            None => None,
        }
    }

    /// The focused popup, to change in place; what is written through it
    /// is what the stack holds afterwards.
    pub fn focused_popup_mut(&mut self) -> (r: Option<&mut Popup>)
        ensures
            final(self).focused == old(self).focused,
            match old(self).focused {
                Some(i) => if i < old(self).items@.len() {
                    r matches Some(p) && *p == old(self).items@[i as int] && final(self).items@
                        == old(self).items@.update(i as int, *final(p))
                } else {
                    r is None && final(self).items@ == old(self).items@
                },
                None => r is None && final(self).items@ == old(self).items@,
            },
    {
        match self.focused {
            Some(i) => if i < self.items.len() {
                Some(&mut self.items[i])
            } else {
                None
            },
            None => None,
        }
    }

    /// Indices of non-minimized popups.
    pub fn active_indices(&self) -> (r: Vec<usize>)
        ensures
            r@.map_values(|i: usize| i as int) == spec_active(self.items@),
    {
        let mut out: Vec<usize> = Vec::new();
        let mut n: usize = 0;
        while n < self.items.len()
            invariant
                n <= self.items@.len(),
                out@.map_values(|i: usize| i as int) == active_upto(self.items@, n as int),
            decreases self.items@.len() - n,
        {
            let ghost prev = out@;
            if self.items[n].state != PopupState::Minimized {
                out.push(n);
                assert(out@.map_values(|i: usize| i as int) =~= prev.map_values(|i: usize| i as int).push(n as int));
            }
            n = n + 1;
        }
        out
    }

    pub fn has_active(&self) -> (r: bool)
        ensures
            r == (spec_active(self.items@).len() > 0),
    {
        self.active_indices().len() > 0
    }

    /// After a close/minimize, focus the last remaining active popup.
    fn refocus(&mut self)
        ensures
            final(self).items == old(self).items,
            final(self).focused == spec_refocus(old(self).items@),
    {
        let active = self.active_indices();
        self.focused = if active.len() == 0 {
            None
        } else {
            Some(active[active.len() - 1])
        };
    }

    /// Sets the state of popup `idx`.
    fn set_state(&mut self, idx: usize, s: PopupState)
        requires
            idx < old(self).items@.len(),
        ensures
            final(self).items@ == old(self).items@.update(idx as int, with_state(old(self).items@[idx as int], s)),
            final(self).focused == old(self).focused,
    {
        let mut p = self.items.remove(idx);
        p.state = s;
        self.items.insert(idx, p);
        assert(self.items@ =~= old(self).items@.update(idx as int, with_state(old(self).items@[idx as int], s)));
    }

    /// Toggle popup N between active and minimized.
    pub fn toggle(&mut self, idx: usize)
        ensures
            idx >= old(self).items@.len() ==> final(self).items == old(self).items && final(self).focused
                == old(self).focused,
            idx < old(self).items@.len() && old(self).items@[idx as int].state == PopupState::Minimized
                ==> final(self).items@ == old(self).items@.update(
                idx as int,
                with_state(old(self).items@[idx as int], PopupState::Active),
            ) && final(self).focused == Some(idx),
            idx < old(self).items@.len() && old(self).items@[idx as int].state != PopupState::Minimized
                ==> final(self).items@ == old(self).items@.update(
                idx as int,
                with_state(old(self).items@[idx as int], PopupState::Minimized),
            ) && final(self).focused == spec_refocus(final(self).items@),
            popups_wf(old(self).items@, old(self).focused) ==> popups_wf(
                final(self).items@,
                final(self).focused,
            ),
    {
        if idx >= self.items.len() {
            return;
        }
        if self.items[idx].state == PopupState::Minimized {
            self.set_state(idx, PopupState::Active);
            self.focused = Some(idx);
        } else {
            self.set_state(idx, PopupState::Minimized);
            self.refocus();
            proof {
                if old(self).items@.len() <= MAX_POPUPS {
                    Self::lemma_refocus_wf(self.items@);
                }
            }
        }
    }

    proof fn lemma_refocus_wf(items: Seq<Popup>)
        requires
            items.len() <= MAX_POPUPS,
        ensures
            popups_wf(items, spec_refocus(items)),
    {
        lemma_active(items, items.len() as int);
    }

    /// Minimizes the focused popup and focuses the last one still shown.
    pub fn minimize_focused(&mut self)
        ensures
            match old(self).focused {
                Some(i) => if i < old(self).items@.len() {
                    final(self).items@ == old(self).items@.update(
                        i as int,
                        with_state(old(self).items@[i as int], PopupState::Minimized),
                    )
                } else {
                    final(self).items == old(self).items
                },
                None => final(self).items == old(self).items,
            },
            final(self).focused == spec_refocus(final(self).items@),
            popups_wf(old(self).items@, old(self).focused) ==> popups_wf(
                final(self).items@,
                final(self).focused,
            ),
    {
        match self.focused {
            Some(i) => if i < self.items.len() {
                self.set_state(i, PopupState::Minimized);
            },
            None => {},
        }
        self.refocus();
        proof {
            if old(self).items@.len() <= MAX_POPUPS {
                Self::lemma_refocus_wf(self.items@);
            }
        }
    }

    /// Close the focused popup entirely. Returns the closed popup.
    pub fn close_focused(&mut self) -> (r: Option<Popup>)
        ensures
            match old(self).focused {
                Some(i) => if i < old(self).items@.len() {
                    r == Some(old(self).items@[i as int]) && final(self).items@ == old(self).items@.remove(
                        i as int,
                    ) && final(self).focused == spec_refocus(final(self).items@)
                } else {
                    r is None && final(self).items == old(self).items && final(self).focused == old(
                        self,
                    ).focused
                },
                None => r is None && final(self).items == old(self).items && final(self).focused == old(
                    self,
                ).focused,
            },
            popups_wf(old(self).items@, old(self).focused) ==> popups_wf(
                final(self).items@,
                final(self).focused,
            ),
    {
        let idx = match self.focused {
            Some(i) => i,
            None => {
                return None;
            },
        };
        if idx >= self.items.len() {
            return None;
        }
        let popup = self.items.remove(idx);
        self.refocus();
        proof {
            if old(self).items@.len() <= MAX_POPUPS {
                Self::lemma_refocus_wf(self.items@);
            }
        }
        Some(popup)
    }

    /// Switches the focused popup between maximized and normal size.
    pub fn toggle_maximize(&mut self)
        ensures
            final(self).focused == old(self).focused,
            match old(self).focused {
                Some(i) => if i < old(self).items@.len() {
                    final(self).items@ == old(self).items@.update(
                        i as int,
                        with_state(
                            old(self).items@[i as int],
                            if old(self).items@[i as int].state == PopupState::Maximized {
                                PopupState::Active
                            } else {
                                PopupState::Maximized
                            },
                        ),
                    )
                } else {
                    final(self).items == old(self).items
                },
                None => final(self).items == old(self).items,
            },
            popups_wf(old(self).items@, old(self).focused) ==> popups_wf(
                final(self).items@,
                final(self).focused,
            ),
    {
        match self.focused {
            Some(i) => if i < self.items.len() {
                let s = if self.items[i].state == PopupState::Maximized {
                    PopupState::Active
                } else {
                    PopupState::Maximized
                };
                self.set_state(i, s);
                proof {
                    let items = self.items@;
                    let before = old(self).items@;
                    lemma_active(before, before.len() as int);
                    lemma_active(items, items.len() as int);
                    assert(items[i as int].state != PopupState::Minimized);
                }
            },
            None => {},
        }
    }

    /// Focus the next shown popup after the focused one (wrapping).
    pub fn focus_next(&mut self)
        ensures
            final(self).items == old(self).items,
            final(self).focused == spec_focus_next(old(self).items@, old(self).focused),
            popups_wf(old(self).items@, old(self).focused) ==> popups_wf(
                final(self).items@,
                final(self).focused,
            ),
    {
        let active = self.active_indices();
        let ghost a = active@.map_values(|i: usize| i as int);
        proof {
            lemma_active(self.items@, self.items@.len() as int);
        }
        if active.len() == 0 {
            return;
        }
        proof {
            if let Some(cur) = self.focused {
                lemma_first_match(a, after(cur as int));
            }
        }
        let next = match self.focused {
            Some(cur) => match first_after(&active, cur) {
                Some(v) => v,
                None => active[0],
            },
            None => active[0],
        };
        self.focused = Some(next);
    }

    /// Find an open popup by kind (avoid duplicates).
    pub fn find(&self, kind: &PopupKind) -> (r: Option<usize>)
        ensures
            r matches Some(i) ==> i < self.items@.len() && same_kind(self.items@[i as int].kind, *kind)
                && forall|j: int| 0 <= j < i ==> !same_kind(#[trigger] self.items@[j].kind, *kind),
            r is None ==> forall|j: int| 0 <= j < self.items@.len() ==> !same_kind(#[trigger] self.items@[j].kind, *kind),
    {
        let mut i: usize = 0;
        while i < self.items.len()
            invariant
                i <= self.items@.len(),
                forall|j: int| 0 <= j < i ==> !same_kind(#[trigger] self.items@[j].kind, *kind),
            decreases self.items@.len() - i,
        {
            if self.items[i].kind.same_as(kind) {
                return Some(i);
            }
            i = i + 1;
        }
        None
    }
}

/// The key that toggles popup `idx` (1–9, then 0).
pub fn popup_key(idx: usize) -> (r: char)
    ensures
        idx <= 8 ==> r as u32 == '1' as u32 + idx,
        idx > 8 ==> r == '0',
{
    match idx {
        0 => '1',
        1 => '2',
        2 => '3',
        3 => '4',
        4 => '5',
        5 => '6',
        6 => '7',
        7 => '8',
        8 => '9',
        _ => '0',
    }
}

/// The popup keys and the popup indices that digits name are inverse:
/// the key of popup `idx` names `idx` again.
pub proof fn law_popup_key_round_trip(idx: usize)
    requires
        idx <= 9,
    ensures
        crate::tui::keymap::spec_popup_index(
            if idx <= 8 {
                (('1' as u32) + idx) as char
            } else {
                '0'
            },
        ) == Some(idx),
{
    if idx <= 8 {
        let c = (('1' as u32) + idx) as char;
        assert(c as u32 == '1' as u32 + idx);
    }
}

} // verus!
