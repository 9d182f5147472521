//! Windowed list selection: a cursor inside a visible window that scrolls
//! over a larger (possibly lazily growing) item set.

use vstd::prelude::*;

verus! {

/// A scrolling window over `total` items with an inner cursor.
#[derive(Debug, Clone, Copy, PartialEq, Eq, Structural)]
pub struct ListWindow {
    /// Index of the first visible item.
    pub offset: usize,
    /// Cursor position within the window (0..height).
    pub cursor: usize,
    /// Number of visible rows.
    pub height: usize,
}

/// `a - b`, or 0 when `b` exceeds `a`.
pub open spec fn sat_sub(a: int, b: int) -> int {
    if a >= b { a - b } else { 0 }
}

pub open spec fn min_int(a: int, b: int) -> int {
    if a <= b { a } else { b }
}

/// Absolute index of the selected item.
pub open spec fn spec_selected(w: ListWindow) -> int {
    w.offset + w.cursor
}

/// Number of items of `total` that the window shows.
pub open spec fn spec_visible_len(w: ListWindow, total: int) -> int {
    min_int(sat_sub(total, w.offset as int), w.height as int)
}

/// The cursor stands on a visible item (or at the origin of an empty list).
pub open spec fn in_view(w: ListWindow, total: int) -> bool {
    if total == 0 {
        w.offset == 0 && w.cursor == 0
    } else {
        w.cursor < spec_visible_len(w, total)
    }
}

/// The window after `clamp(total)`.
pub open spec fn spec_clamp(w: ListWindow, total: int) -> ListWindow {
    if total == 0 {
        ListWindow { offset: 0, cursor: 0, height: w.height }
    } else {
        let max_offset = sat_sub(total, w.height as int);
        let offset = if w.offset > max_offset { max_offset } else { w.offset as int };
        let w1 = ListWindow { offset: offset as usize, cursor: w.cursor, height: w.height };
        let visible = spec_visible_len(w1, total);
        let cursor = if w.cursor >= visible { sat_sub(visible, 1) } else { w.cursor as int };
        ListWindow { offset: offset as usize, cursor: cursor as usize, height: w.height }
    }
}

/// The window after `select(index, total)`: the index is clamped into the
/// list, the window is re-centred on it when it lies outside, and the
/// window is kept inside the list without losing the selection.
pub open spec fn spec_select(w: ListWindow, index: int, total: int) -> ListWindow {
    let index = min_int(index, sat_sub(total, 1));
    let offset0 = if index < w.offset || index >= w.offset + w.height {
        sat_sub(index, (w.height / 2) as int)
    } else {
        w.offset as int
    };
    let offset = min_int(offset0, sat_sub(total, w.height as int));
    spec_clamp(
        ListWindow { offset: offset as usize, cursor: (index - offset) as usize, height: w.height },
        total,
    )
}

/// `select_next(total)`: whether the selection moved, and the window after.
pub open spec fn spec_select_next(w: ListWindow, total: int) -> (bool, ListWindow) {
    if spec_selected(w) + 1 >= total {
        (false, w)
    } else if w.cursor + 1 < spec_visible_len(w, total) {
        (true, ListWindow { cursor: (w.cursor + 1) as usize, ..w })
    } else {
        (true, ListWindow { offset: (w.offset + 1) as usize, ..w })
    }
}

/// `select_prev()`: whether the selection moved, and the window after.
pub open spec fn spec_select_prev(w: ListWindow) -> (bool, ListWindow) {
    if w.cursor > 0 {
        (true, ListWindow { cursor: (w.cursor - 1) as usize, ..w })
    } else if w.offset > 0 {
        (true, ListWindow { offset: (w.offset - 1) as usize, ..w })
    } else {
        (false, w)
    }
}

impl ListWindow {
    /// A fresh window: top of the list, ten rows.
    pub open spec fn spec_new() -> ListWindow {
        ListWindow { offset: 0, cursor: 0, height: 10 }
    }

    pub fn new() -> (r: Self)
        ensures
            r == Self::spec_new(),
    {
        ListWindow { offset: 0, cursor: 0, height: 10 }
    }

    /// Sets the number of visible rows (at least one).
    pub fn set_height(&mut self, height: usize)
        ensures
            final(self).height == if height >= 1 { height } else { 1 },
            final(self).offset == old(self).offset,
            final(self).cursor == old(self).cursor,
    {
        self.height = if height >= 1 { height } else { 1 };
    }

    /// Absolute index of the selected item.
    pub fn selected(&self) -> (r: usize)
        requires
            self.offset + self.cursor <= usize::MAX,
        ensures
            r == spec_selected(*self),
    {
        self.offset + self.cursor
    }

    /// Number of items currently visible.
    pub fn visible_len(&self, total: usize) -> (r: usize)
        ensures
            r == spec_visible_len(*self, total as int),
    {
        let rest = if total >= self.offset { total - self.offset } else { 0 };
        if rest <= self.height { rest } else { self.height }
    }

    /// Move the selection down; scrolls the window at the bottom edge.
    /// Returns true if the selection moved.
    pub fn select_next(&mut self, total: usize) -> (r: bool)
        requires
            spec_selected(*old(self)) < usize::MAX,
        ensures
            (r, *final(self)) == spec_select_next(*old(self), total as int),
    {
        if self.selected() + 1 >= total {
            return false;
        }
        if self.cursor + 1 < self.visible_len(total) {
            self.cursor = self.cursor + 1;
        } else {
            self.offset = self.offset + 1;
        }
        true
    }

    /// Move the selection up; scrolls the window at the top edge.
    pub fn select_prev(&mut self) -> (r: bool)
        ensures
            (r, *final(self)) == spec_select_prev(*old(self)),
    {
        if self.cursor > 0 {
            self.cursor = self.cursor - 1;
            true
        } else if self.offset > 0 {
            self.offset = self.offset - 1;
            true
        } else {
            false
        }
    }

    /// Jump to an absolute index, positioning the window around it.
    pub fn select(&mut self, index: usize, total: usize)
        requires
            old(self).offset + old(self).height <= usize::MAX,
        ensures
            *final(self) == spec_select(*old(self), index as int, total as int),
    {
        let last = if total >= 1 { total - 1 } else { 0 };
        let index = if index <= last { index } else { last };
        let mut offset = self.offset;
        if index < self.offset || index >= self.offset + self.height {
            offset = if index >= self.height / 2 { index - self.height / 2 } else { 0 };
        }
        let max_offset = if total >= self.height { total - self.height } else { 0 };
        if offset > max_offset {
            offset = max_offset;
        }
        self.offset = offset;
        self.cursor = index - offset;
        self.clamp(total);
    }

    /// Keep window and cursor within the item set (it may have shrunk).
    pub fn clamp(&mut self, total: usize)
        ensures
            *final(self) == spec_clamp(*old(self), total as int),
    {
        if total == 0 {
            self.offset = 0;
            self.cursor = 0;
            return;
        }
        let max_offset = if total >= self.height { total - self.height } else { 0 };
        if self.offset > max_offset {
            self.offset = max_offset;
        }
        let visible = self.visible_len(total);
        if self.cursor >= visible {
            self.cursor = if visible >= 1 { visible - 1 } else { 0 };
        }
    }

    pub fn reset(&mut self)
        ensures
            *final(self) == (ListWindow { offset: 0, cursor: 0, height: old(self).height }),
    {
        self.offset = 0;
        self.cursor = 0;
    }

    /// Whether the selection is within `threshold` items of the end —
    /// the signal to lazily fetch the next page.
    pub fn near_end(&self, total: usize, threshold: usize) -> (r: bool)
        requires
            self.offset + self.cursor <= usize::MAX,
        ensures
            r == (spec_selected(*self) + threshold >= total),
    {
        let sel = self.selected();
        sel >= total || threshold >= total - sel
    }
}

impl Default for ListWindow {
    fn default() -> (r: Self)
        ensures
            r == (ListWindow { offset: 0, cursor: 0, height: 0 }),
    {
        ListWindow { offset: 0, cursor: 0, height: 0 }
    }
}

/// A step down moves the selection by exactly one item when one follows,
/// and a step up undoes it.
pub proof fn law_next_then_prev(w: ListWindow, total: int)
    requires
        spec_selected(w) + 1 < total,
        spec_selected(w) + 1 <= usize::MAX,
    ensures
        spec_select_next(w, total).0,
        spec_selected(spec_select_next(w, total).1) == spec_selected(w) + 1,
        spec_select_prev(spec_select_next(w, total).1).0,
        spec_selected(spec_select_prev(spec_select_next(w, total).1).1) == spec_selected(w),
{
}

/// A step up moves the selection by one item unless it is at the top.
pub proof fn law_prev_moves_by_one(w: ListWindow)
    ensures
        spec_select_prev(w).0 == (spec_selected(w) > 0),
        spec_select_prev(w).0 ==> spec_selected(spec_select_prev(w).1) == spec_selected(w) - 1,
        !spec_select_prev(w).0 ==> spec_select_prev(w).1 == w,
{
}

/// A window whose cursor stands on a visible item keeps it there after
/// a step down, and the selection never passes the last item.
pub proof fn law_select_next_keeps_in_view(w: ListWindow, total: int)
    requires
        in_view(w, total),
        w.height >= 1,
        spec_selected(w) + 1 <= usize::MAX,
    ensures
        in_view(spec_select_next(w, total).1, total),
        total > 0 ==> spec_selected(spec_select_next(w, total).1) < total,
{
}

/// After `clamp`, a window over a non-empty list selects an item of it
/// and keeps its cursor on a visible row; over an empty list it selects
/// the origin.
pub proof fn law_clamp_in_view(w: ListWindow, total: int)
    requires
        total >= 0,
        w.height >= 1,
    ensures
        in_view(spec_clamp(w, total), total),
        total > 0 ==> spec_selected(spec_clamp(w, total)) < total,
        total == 0 ==> spec_selected(spec_clamp(w, total)) == 0,
{
}

/// Selecting an index puts exactly that item (clamped into the list)
/// under the cursor, inside the visible window.
pub proof fn law_select_lands_on_index(w: ListWindow, index: int, total: int)
    requires
        total > 0,
        index >= 0,
        w.height >= 1,
        total <= usize::MAX,
    ensures
        spec_selected(spec_select(w, index, total)) == min_int(index, total - 1),
        in_view(spec_select(w, index, total), total),
{
}

} // verus!
