//! Calendar screen: month grid + day agenda.
//!
//! `h`/`l` move by day, `H`/`L` by month, `t` jumps to today, `j`/`k` move
//! through the selected day's agenda; Enter opens the event popup.

use vstd::prelude::*;

use crate::seqs::{least_pos, order_by, upto};
use crate::strings::{seq_lt, str_eq, str_less};
use crate::tui::model::month::{days_in_range, spec_from_days, spec_iso, spec_to_days, Date};
use crate::tui::model::window::{spec_clamp, spec_select_next, spec_select_prev, spec_selected, ListWindow};
use crate::tui::types::{slice_or_empty, EventEntry};

verus! {

pub struct CalendarScreen {
    pub events: Vec<EventEntry>,
    pub selected: Date,
    pub win: ListWindow,
}

/// The date part of an event's start.
pub open spec fn start_date_of(e: EventEntry) -> Seq<char> {
    slice_or_empty(e.start@, 0, 10)
}

/// Indices, among the first `n` events, of those on the day `iso`.
pub open spec fn agenda_idx(es: Seq<EventEntry>, iso: Seq<char>, n: int) -> Seq<int>
    decreases n,
{
    if n <= 0 {
        Seq::empty()
    } else {
        let prev = agenda_idx(es, iso, n - 1);
        if start_date_of(es[n - 1]) == iso {
            prev.push(n - 1)
        } else {
            prev
        }
    }
}

/// Indices of the events on the selected day, in list order.
pub open spec fn spec_agenda(es: Seq<EventEntry>, day: Date) -> Seq<int> {
    agenda_idx(es, spec_iso(day), es.len() as int)
}

/// Start order: by start text, equal starts in list order.
pub open spec fn event_before(es: Seq<EventEntry>) -> spec_fn(int, int) -> bool {
    |i: int, j: int|
        seq_lt(es[i].start@, es[j].start@) || (es[i].start@ == es[j].start@ && i < j)
}

/// The events in start order.
pub open spec fn spec_sort_events(es: Seq<EventEntry>) -> Seq<EventEntry> {
    order_by(upto(es.len() as int), event_before(es)).map_values(|i: int| es[i])
}

fn clone_event(e: &EventEntry) -> (r: EventEntry)
    ensures
        r == *e,
{
    EventEntry {
        id: e.id.clone(),
        title: e.title.clone(),
        start: e.start.clone(),
        duration: e.duration.clone(),
        status: e.status.clone(),
    }
}

spec fn idx_view(v: Seq<usize>) -> Seq<int> {
    v.map_values(|i: usize| i as int)
}

/// The events in start order.
fn sort_events(events: &Vec<EventEntry>) -> (r: Vec<EventEntry>)
    ensures
        r@ == spec_sort_events(events@),
{
    let ghost es = events@;
    let ghost before = event_before(es);
    let mut rest: Vec<usize> = Vec::new();
    let mut n: usize = 0;
    while n < events.len()
        invariant
            n <= events@.len(),
            idx_view(rest@) == upto(n as int),
            forall|k: int| 0 <= k < rest@.len() ==> #[trigger] rest@[k] < events@.len(),
        decreases events@.len() - n,
    {
        let ghost prev = rest@;
        rest.push(n);
        assert(idx_view(rest@) =~= idx_view(prev).push(n as int));
        assert(idx_view(rest@) =~= upto(n as int + 1));
        n = n + 1;
    }
    let ghost all = idx_view(rest@);
    let mut order: Vec<usize> = Vec::new();
    while rest.len() > 0
        invariant
            es == events@,
            before == event_before(es),
            idx_view(order@) + order_by(idx_view(rest@), before) == order_by(all, before),
            forall|k: int| 0 <= k < rest@.len() ==> #[trigger] rest@[k] < events@.len(),
            forall|k: int| 0 <= k < order@.len() ==> #[trigger] order@[k] < events@.len(),
        decreases rest@.len(),
    {
        let ghost s = idx_view(rest@);
        let mut best: usize = 0;
        let mut t: usize = 1;
        while t < rest.len()
            invariant
                1 <= t <= rest@.len(),
                best < t,
                s == idx_view(rest@),
                es == events@,
                before == event_before(es),
                best == least_pos(s.take(t as int), before),
                forall|k: int| 0 <= k < rest@.len() ==> #[trigger] rest@[k] < events@.len(),
            decreases rest@.len() - t,
        {
            assert(s.take(t as int + 1).drop_last() =~= s.take(t as int));
            let a = &events[rest[t]].start;
            let b = &events[rest[best]].start;
            let earlier = str_less(a.as_str(), b.as_str()) || (str_eq(a.as_str(), b.as_str())
                && rest[t] < rest[best]);
            if earlier {
                best = t;
            }
            t = t + 1;
        }
        assert(s.take(t as int) =~= s);
        let ghost prev = idx_view(order@);
        let k = rest.remove(best);
        order.push(k);
        proof {
            let s2 = s.remove(best as int);
            assert(idx_view(rest@) =~= s2);
            assert(order_by(s, before) == seq![s[best as int]] + order_by(s2, before));
            assert(idx_view(order@) =~= prev.push(k as int));
            assert(prev + order_by(s, before) =~= prev.push(k as int) + order_by(s2, before));
        }
    }
    assert(order_by(idx_view(rest@), before) =~= Seq::<int>::empty());
    assert(idx_view(order@) =~= order_by(all, before));
    let mut out: Vec<EventEntry> = Vec::new();
    let mut y: usize = 0;
    while y < order.len()
        invariant
            y <= order@.len(),
            es == events@,
            forall|z: int| 0 <= z < order@.len() ==> #[trigger] order@[z] < events@.len(),
            out@ == idx_view(order@).take(y as int).map_values(|i: int| es[i]),
        decreases order@.len() - y,
    {
        let e = clone_event(&events[order[y]]);
        out.push(e);
        assert(out@ =~= idx_view(order@).take(y as int + 1).map_values(|i: int| es[i]));
        y = y + 1;
    }
    assert(idx_view(order@).take(y as int) =~= idx_view(order@));
    out
}

impl CalendarScreen {
    pub fn new() -> (r: Self)
        ensures
            r.events@.len() == 0,
            r.win == ListWindow::spec_new(),
            exists|n: int| 0 <= n && #[trigger] spec_from_days(n) == r.selected,
    {
        CalendarScreen { events: Vec::new(), selected: Date::today(), win: ListWindow::new() }
    }

    /// Takes a fresh event list: kept in start order, the agenda window
    /// clamped to the selected day's events.
    pub fn on_loaded(&mut self, events: Vec<EventEntry>)
        ensures
            final(self).events@ == spec_sort_events(events@),
            final(self).selected == old(self).selected,
            final(self).win == spec_clamp(
                old(self).win,
                spec_agenda(final(self).events@, old(self).selected).len() as int,
            ),
    {
        self.events = sort_events(&events);
        let n = self.agenda().len();
        self.win.clamp(n);
    }

    /// Events on the selected day, in start order.
    pub fn agenda(&self) -> (r: Vec<&EventEntry>)
        ensures
            r@.len() == spec_agenda(self.events@, self.selected).len(),
            forall|k: int| 0 <= k < r@.len() ==> *(#[trigger] r@[k]) == self.events@[spec_agenda(
                self.events@,
                self.selected,
            )[k]],
    {
        let iso = self.selected.iso();
        let ghost d = spec_iso(self.selected);
        let mut out: Vec<&EventEntry> = Vec::new();
        let mut n: usize = 0;
        while n < self.events.len()
            invariant
                n <= self.events@.len(),
                iso@ == d,
                d == spec_iso(self.selected),
                out@.len() == agenda_idx(self.events@, d, n as int).len(),
                forall|k: int| 0 <= k < out@.len() ==> *(#[trigger] out@[k]) == self.events@[agenda_idx(
                    self.events@,
                    d,
                    n as int,
                )[k]],
            decreases self.events@.len() - n,
        {
            if str_eq(self.events[n].start_date(), iso.as_str()) {
                out.push(&self.events[n]);
            }
            n = n + 1;
        }
        out
    }

    /// Whether any event falls on the given day of the selected month.
    pub fn day_has_events(&self, day: u32) -> (r: bool)
        ensures
            r == exists|i: int|
                0 <= i < self.events@.len() && start_date_of(#[trigger] self.events@[i]) == spec_iso(
                    Date { year: self.selected.year, month: self.selected.month, day },
                ),
    {
        let date = Date { year: self.selected.year, month: self.selected.month, day };
        let iso = date.iso();
        let mut n: usize = 0;
        while n < self.events.len()
            invariant
                n <= self.events@.len(),
                iso@ == spec_iso(date),
                date == (Date { year: self.selected.year, month: self.selected.month, day }),
                forall|i: int| 0 <= i < n ==> start_date_of(#[trigger] self.events@[i]) != iso@,
            decreases self.events@.len() - n,
        {
            if str_eq(self.events[n].start_date(), iso.as_str()) {
                assert(start_date_of(self.events@[n as int]) == iso@);
                return true;
            }
            n = n + 1;
        }
        false
    }

    /// The event under the agenda cursor.
    pub fn selected_event(&self) -> (r: Option<&EventEntry>)
        requires
            self.win.offset + self.win.cursor <= usize::MAX,
        ensures
            ({
                let a = spec_agenda(self.events@, self.selected);
                let s = spec_selected(self.win);
                &&& s < a.len() ==> (r matches Some(e) && *e == self.events@[a[s]])
                &&& s >= a.len() ==> r is None
            }),
    {
        let agenda = self.agenda();
        let s = self.win.selected();
        if s < agenda.len() {
            Some(agenda[s])
        } else {
            None
        }
    }

    /// Moves the selected day; the agenda cursor goes back to the top.
    pub fn move_days(&mut self, delta: i64)
        requires
            days_in_range(spec_to_days(old(self).selected) + delta),
        ensures
            final(self).selected == spec_from_days(spec_to_days(old(self).selected) + delta),
            final(self).win == (ListWindow { offset: 0, cursor: 0, height: old(self).win.height }),
            final(self).events == old(self).events,
    {
        self.selected = self.selected.add_days(delta);
        self.win.reset();
    }

    /// Moves the selected day by whole months (clamping the day); the
    /// agenda cursor goes back to the top.
    pub fn move_months(&mut self, delta: i32)
        requires
            i32::MIN <= old(self).selected.year * 12 <= i32::MAX,
            old(self).selected.month <= i32::MAX,
            i32::MIN <= old(self).selected.year * 12 + (old(self).selected.month - 1) <= i32::MAX,
            i32::MIN <= old(self).selected.year * 12 + (old(self).selected.month - 1) + delta <= i32::MAX,
        ensures
            ({
                let d = old(self).selected;
                let total = d.year * 12 + (d.month - 1) + delta;
                let r = final(self).selected;
                &&& r.year == total / 12
                &&& r.month == total % 12 + 1
                &&& r.day == if d.day <= crate::tui::model::month::spec_days_in_month(
                    r.year as int,
                    r.month as int,
                ) {
                    d.day as int
                } else {
                    crate::tui::model::month::spec_days_in_month(r.year as int, r.month as int)
                }
            }),
            final(self).win == (ListWindow { offset: 0, cursor: 0, height: old(self).win.height }),
            final(self).events == old(self).events,
    {
        self.selected = self.selected.add_months(delta);
        self.win.reset();
    }

    /// Jumps to today; the agenda cursor goes back to the top.
    pub fn today(&mut self)
        ensures
            exists|n: int| 0 <= n && #[trigger] spec_from_days(n) == final(self).selected,
            final(self).win == (ListWindow { offset: 0, cursor: 0, height: old(self).win.height }),
            final(self).events == old(self).events,
    {
        self.selected = Date::today();
        self.win.reset();
    }

    /// Moves the agenda cursor down one event.
    pub fn select_next(&mut self)
        requires
            spec_selected(old(self).win) < usize::MAX,
        ensures
            final(self).win == spec_select_next(
                old(self).win,
                spec_agenda(old(self).events@, old(self).selected).len() as int,
            ).1,
            final(self).events == old(self).events,
            final(self).selected == old(self).selected,
    {
        let total = self.agenda().len();
        self.win.select_next(total);
    }

    /// Moves the agenda cursor up one event.
    pub fn select_prev(&mut self)
        ensures
            final(self).win == spec_select_prev(old(self).win).1,
            final(self).events == old(self).events,
            final(self).selected == old(self).selected,
    {
        self.win.select_prev();
    }
}

} // verus!
