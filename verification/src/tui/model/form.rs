//! Editable form model for popup editors: labelled single-line fields plus
//! an optional multi-line body.

use vstd::prelude::*;

use crate::strings::{chars_of, pop_char, push_char, str_eq, to_owned};

verus! {

/// One labelled single-line input.
#[derive(Debug, Clone)]
pub struct FormField {
    pub label: &'static str,
    pub value: String,
}

/// A form: fields in order, then optionally a body. `focus` indexes the
/// fields; `fields.len()` means the body is focused (only if `body` exists).
#[derive(Debug, Clone)]
pub struct Form {
    pub fields: Vec<FormField>,
    pub body: Option<String>,
    pub focus: usize,
}

/// What a form holds: each field as (label, value), the body, the focus.
pub struct FormView {
    pub fields: Seq<(Seq<char>, Seq<char>)>,
    pub body: Option<Seq<char>>,
    pub focus: int,
}

pub open spec fn field_pair(f: FormField) -> (Seq<char>, Seq<char>) {
    (f.label@, f.value@)
}

impl View for Form {
    type V = FormView;

    open spec fn view(&self) -> FormView {
        FormView {
            fields: self.fields@.map_values(|f: FormField| field_pair(f)),
            body: match self.body {
                Some(b) => Some(b@),
                None => None,
            },
            focus: self.focus as int,
        }
    }
}

/// Index of the first field with the given label.
pub open spec fn label_index(fs: Seq<(Seq<char>, Seq<char>)>, label: Seq<char>) -> Option<int>
    decreases fs.len(),
{
    if fs.len() == 0 {
        None
    } else {
        match label_index(fs.drop_last(), label) {
            Some(i) => Some(i),
            None => if fs.last().0 == label {
                Some(fs.len() - 1)
            } else {
                None
            },
        }
    }
}

/// Value of the first field with the given label, empty when none has it.
pub open spec fn spec_field(v: FormView, label: Seq<char>) -> Seq<char> {
    match label_index(v.fields, label) {
        Some(i) => v.fields[i].1,
        None => Seq::empty(),
    }
}

/// Number of focusable slots: the fields, and the body if there is one.
pub open spec fn spec_slots(v: FormView) -> int {
    v.fields.len() + if v.body is Some { 1int } else { 0int }
}

pub open spec fn spec_body_focused(v: FormView) -> bool {
    v.body is Some && v.focus == v.fields.len()
}

/// The form after typing `c`: into the body when it has focus, else into
/// the focused field (nothing when the focus names no slot).
pub open spec fn spec_insert(v: FormView, c: char) -> FormView {
    if spec_body_focused(v) {
        FormView { body: Some(v.body->0.push(c)), ..v }
    } else if 0 <= v.focus < v.fields.len() {
        let (l, val) = v.fields[v.focus];
        FormView { fields: v.fields.update(v.focus, (l, val.push(c))), ..v }
    } else {
        v
    }
}

/// The form after a backspace on the focused slot.
pub open spec fn spec_backspace(v: FormView) -> FormView {
    if spec_body_focused(v) {
        let b = v.body->0;
        FormView { body: Some(if b.len() == 0 { b } else { b.drop_last() }), ..v }
    } else if 0 <= v.focus < v.fields.len() {
        let (l, val) = v.fields[v.focus];
        FormView {
            fields: v.fields.update(v.focus, (l, if val.len() == 0 { val } else { val.drop_last() })),
            ..v
        }
    } else {
        v
    }
}

/// The focus after one step forward, wrapping around the slots.
pub open spec fn spec_next_focus(v: FormView) -> int {
    if spec_slots(v) > 0 {
        (v.focus + 1) % spec_slots(v)
    } else {
        v.focus
    }
}

/// Number of `'\n'` characters.
pub open spec fn count_newlines(s: Seq<char>) -> int
    decreases s.len(),
{
    if s.len() == 0 {
        0
    } else {
        count_newlines(s.drop_last()) + if s.last() == '\n' { 1int } else { 0int }
    }
}

/// Number of characters after the last `'\n'`.
pub open spec fn last_line_len(s: Seq<char>) -> int
    decreases s.len(),
{
    if s.len() == 0 {
        0
    } else if s.last() == '\n' {
        0
    } else {
        last_line_len(s.drop_last()) + 1
    }
}

/// What `str::lines().count()` gives: a final line ending opens no line.
pub open spec fn line_count(s: Seq<char>) -> int {
    if s.len() == 0 {
        0
    } else if s.last() == '\n' {
        count_newlines(s)
    } else {
        count_newlines(s) + 1
    }
}

/// Caret position (row, column) inside the form area, before the
/// conversion to `u16`.
pub open spec fn spec_cursor(v: FormView) -> (int, int) {
    if spec_body_focused(v) {
        let b = v.body->0;
        if b.len() > 0 && b.last() == '\n' {
            (v.fields.len() + 1 + line_count(b), 0)
        } else {
            let lines = line_count(b);
            (v.fields.len() + 1 + if lines >= 1 { lines - 1 } else { 0 }, last_line_len(b))
        }
    } else {
        (v.focus, v.fields[v.focus].1.len() as int)
    }
}

impl Form {
    pub fn new(labels: &[&'static str], with_body: bool) -> (r: Self)
        ensures
            r@.fields.len() == labels@.len(),
            forall|i: int| 0 <= i < labels@.len() ==> #[trigger] r@.fields[i] == (
            labels@[i]@,
            Seq::<char>::empty(),
            ),
            r@.body == if with_body {
                Some(Seq::<char>::empty())
            } else {
                None
            },
            r@.focus == 0,
    {
        let mut fields: Vec<FormField> = Vec::new();
        let mut i: usize = 0;
        while i < labels.len()
            invariant
                i <= labels@.len(),
                fields@.len() == i,
                forall|j: int| 0 <= j < i ==> #[trigger] field_pair(fields@[j]) == (
                labels@[j]@,
                Seq::<char>::empty(),
                ),
            decreases labels@.len() - i,
        {
            fields.push(FormField { label: labels[i], value: String::new() });
            i = i + 1;
        }
        let body = if with_body {
            Some(String::new())
        } else {
            None
        };
        Form { fields, body, focus: 0 }
    }

    /// Position of the first field carrying `label`.
    fn find(&self, label: &str) -> (r: Option<usize>)
        ensures
            r matches Some(i) ==> label_index(self@.fields, label@) == Some(i as int) && i
                < self.fields@.len(),
            r is None ==> label_index(self@.fields, label@) is None,
    {
        let mut i: usize = 0;
        while i < self.fields.len()
            invariant
                i <= self.fields@.len(),
                label_index(self@.fields.take(i as int), label@) is None,
            decreases self.fields@.len() - i,
        {
            assert(self@.fields.take(i as int + 1).drop_last() =~= self@.fields.take(i as int));
            if str_eq(self.fields[i].label, label) {
                proof {
                    lemma_label_index_prefix(self@.fields, i as int + 1, label@);
                }
                return Some(i);
            }
            i = i + 1;
        }
        assert(self@.fields.take(i as int) =~= self@.fields);
        None
    }

    /// Value of the field carrying `label` ("" when there is none).
    pub fn field(&self, label: &str) -> (r: &str)
        ensures
            r@ == spec_field(self@, label@),
    {
        match self.find(label) {
            Some(i) => {
                self.fields[i].value.as_str()
            },
            None => {
                proof {
                    reveal_strlit("");
                }
                ""
            },
        }
    }

    /// Overwrites the value of the field carrying `label`, if any.
    pub fn set_field(&mut self, label: &str, value: &str)
        ensures
            final(self)@.body == old(self)@.body,
            final(self)@.focus == old(self)@.focus,
            final(self)@.fields == match label_index(old(self)@.fields, label@) {
                Some(i) => old(self)@.fields.update(i, (old(self)@.fields[i].0, value@)),
                None => old(self)@.fields,
            },
    {
        match self.find(label) {
            Some(i) => {
                let name = self.fields[i].label;
                let old_fields = Ghost(self.fields@);
                self.fields.set(i, FormField { label: name, value: to_owned(value) });
                assert(old_fields@.map_values(|f: FormField| field_pair(f)) == old(self)@.fields);
                assert(self@.fields =~= old_fields@.map_values(|f: FormField| field_pair(f)).update(
                    i as int,
                    (old_fields@[i as int].label@, value@),
                ));
            },
            None => {},
        }
    }

    /// Replaces the body text, when the form has a body.
    pub fn set_body(&mut self, body: &str)
        ensures
            final(self)@.fields == old(self)@.fields,
            final(self)@.focus == old(self)@.focus,
            final(self)@.body == match old(self)@.body {
                Some(_) => Some(body@),
                None => None::<Seq<char>>,
            },
    {
        if self.body.is_some() {
            self.body = Some(to_owned(body));
        }
    }

    /// Total focusable slots: fields plus the body if present.
    fn slots(&self) -> (r: usize)
        requires
            self.fields@.len() < usize::MAX,
        ensures
            r == spec_slots(self@),
    {
        self.fields.len() + if self.body.is_some() { 1 } else { 0 }
    }

    pub fn body_focused(&self) -> (r: bool)
        ensures
            r == spec_body_focused(self@),
    {
        self.body.is_some() && self.focus == self.fields.len()
    }

    /// Advance focus, wrapping around.
    pub fn next_focus(&mut self)
        requires
            old(self).fields@.len() < usize::MAX,
        ensures
            final(self)@ == (FormView { focus: spec_next_focus(old(self)@), ..old(self)@ }),
    {
        let n = self.slots();
        if n > 0 {
            let f = self.focus % n;
            let next = if f + 1 == n { 0 } else { f + 1 };
            proof {
                lemma_mod_step(self.focus as int, n as int);
            }
            self.focus = next;
        }
    }

    pub fn insert_char(&mut self, c: char)
        ensures
            final(self)@ == spec_insert(old(self)@, c),
    {
        if self.body_focused() {
            let mut body = self.body.take().unwrap();
            push_char(&mut body, c);
            self.body = Some(body);
        } else if self.focus < self.fields.len() {
            let i = self.focus;
            let name = self.fields[i].label;
            let mut value = self.fields[i].value.clone();
            push_char(&mut value, c);
            let old_fields = Ghost(self.fields@);
            self.fields.set(i, FormField { label: name, value });
            assert(self@.fields =~= old_fields@.map_values(|f: FormField| field_pair(f)).update(
                i as int,
                (old_fields@[i as int].label@, old_fields@[i as int].value@.push(c)),
            ));
        }
    }

    pub fn backspace(&mut self)
        ensures
            final(self)@ == spec_backspace(old(self)@),
    {
        if self.body_focused() {
            let mut body = self.body.take().unwrap();
            pop_char(&mut body);
            self.body = Some(body);
        } else if self.focus < self.fields.len() {
            let i = self.focus;
            let name = self.fields[i].label;
            let mut value = self.fields[i].value.clone();
            pop_char(&mut value);
            let old_fields = Ghost(self.fields@);
            self.fields.set(i, FormField { label: name, value });
            assert(self@.fields =~= old_fields@.map_values(|f: FormField| field_pair(f)).update(
                i as int,
                (
                    old_fields@[i as int].label@,
                    if old_fields@[i as int].value@.len() == 0 {
                        old_fields@[i as int].value@
                    } else {
                        old_fields@[i as int].value@.drop_last()
                    },
                ),
            ));
        }
    }

    /// Enter: newline in the body, otherwise advance to the next slot.
    pub fn enter(&mut self)
        requires
            old(self).fields@.len() < usize::MAX,
        ensures
            spec_body_focused(old(self)@) ==> final(self)@ == spec_insert(old(self)@, '\n'),
            !spec_body_focused(old(self)@) ==> final(self)@ == (FormView {
                focus: spec_next_focus(old(self)@),
                ..old(self)@
            }),
    {
        if self.body_focused() {
            self.insert_char('\n');
        } else {
            self.next_focus();
        }
    }

    /// Cursor position for rendering: (row, col) inside the form area,
    /// where each field occupies one row and the body starts after a
    /// separator row.
    pub fn cursor(&self) -> (r: (u16, u16))
        requires
            spec_body_focused(self@) || self.focus < self.fields@.len(),
        ensures
            r.0 == spec_cursor(self@).0 as u16,
            r.1 == spec_cursor(self@).1 as u16,
    {
        if self.body_focused() {
            let body = chars_of(self.body.as_ref().unwrap().as_str());
            let mut newlines: usize = 0;
            let mut tail: usize = 0;
            let mut i: usize = 0;
            while i < body.len()
                invariant
                    i <= body@.len(),
                    newlines == count_newlines(body@.take(i as int)),
                    tail == last_line_len(body@.take(i as int)),
                    newlines <= i,
                    tail <= i,
                decreases body@.len() - i,
            {
                assert(body@.take(i as int + 1).drop_last() =~= body@.take(i as int));
                if body[i] == '\n' {
                    newlines = newlines + 1;
                    tail = 0;
                } else {
                    tail = tail + 1;
                }
                i = i + 1;
            }
            assert(body@.take(i as int) =~= body@);
            let n = body.len();
            let lines: u128 = if n == 0 {
                0
            } else if body[n - 1] == '\n' {
                newlines as u128
            } else {
                newlines as u128 + 1
            };
            let base: u128 = self.fields.len() as u128 + 1;
            if n > 0 && body[n - 1] == '\n' {
                ((base + lines) as u16, 0)
            } else {
                let extra: u128 = if lines >= 1 { lines - 1 } else { 0 };
                ((base + extra) as u16, tail as u16)
            }
        } else {
            let value = chars_of(self.fields[self.focus].value.as_str());
            (self.focus as u16, value.len() as u16)
        }
    }
}

/// A match found in a prefix is the first match of the whole list.
proof fn lemma_label_index_prefix(fs: Seq<(Seq<char>, Seq<char>)>, k: int, label: Seq<char>)
    requires
        0 <= k <= fs.len(),
        label_index(fs.take(k), label) is Some,
    ensures
        label_index(fs, label) == label_index(fs.take(k), label),
    decreases fs.len() - k,
{
    if k < fs.len() {
        assert(fs.take(k + 1).drop_last() =~= fs.take(k));
        lemma_label_index_prefix(fs, k + 1, label);
    } else {
        assert(fs.take(k) =~= fs);
    }
}

proof fn lemma_mod_step(x: int, n: int)
    requires
        n > 0,
        x >= 0,
    ensures
        (x % n + 1 == n ==> (x + 1) % n == 0),
        (x % n + 1 != n ==> (x + 1) % n == x % n + 1),
        x % n < n,
{
    let q = x / n;
    let r = x % n;
    assert(x == n * q + r) by (nonlinear_arith)
        requires
            n > 0,
            q == x / n,
            r == x % n,
    ;
    if r + 1 == n {
        assert((x + 1) % n == 0) by (nonlinear_arith)
            requires
                x == n * q + r,
                r + 1 == n,
                n > 0,
        ;
    } else {
        assert((x + 1) % n == r + 1) by (nonlinear_arith)
            requires
                x == n * q + r,
                0 <= r + 1 < n,
        ;
    }
}

/// Typing a character and deleting it restores the form.
pub proof fn law_insert_then_backspace(v: FormView, c: char)
    requires
        spec_body_focused(v) || 0 <= v.focus < v.fields.len(),
    ensures
        spec_backspace(spec_insert(v, c)) == v,
{
    if spec_body_focused(v) {
        assert(v.body->0.push(c).drop_last() =~= v.body->0);
    } else {
        let (l, val) = v.fields[v.focus];
        assert(val.push(c).drop_last() =~= val);
        assert(v.fields.update(v.focus, (l, val.push(c))).update(v.focus, (l, val)) =~= v.fields);
    }
}

/// The focus after a step always names one of the slots.
pub proof fn law_focus_stays_in_slots(v: FormView)
    requires
        spec_slots(v) > 0,
        0 <= v.focus,
    ensures
        0 <= spec_next_focus(v) < spec_slots(v),
{
}

/// Setting a field and reading it back by the same label gives the value
/// that was set; labels that no field carries read as empty.
pub proof fn law_set_then_get(v: FormView, label: Seq<char>, value: Seq<char>)
    ensures
        label_index(v.fields, label) is Some ==> spec_field(
            FormView {
                fields: v.fields.update(
                    label_index(v.fields, label)->0,
                    (v.fields[label_index(v.fields, label)->0].0, value),
                ),
                ..v
            },
            label,
        ) == value,
        label_index(v.fields, label) is None ==> spec_field(v, label) == Seq::<char>::empty(),
{
    lemma_label_index_bounds(v.fields, label);
    if label_index(v.fields, label) is Some {
        let i = label_index(v.fields, label)->0;
        lemma_label_index_update(v.fields, label, i, value);
    }
}

proof fn lemma_label_index_bounds(fs: Seq<(Seq<char>, Seq<char>)>, label: Seq<char>)
    ensures
        label_index(fs, label) is Some ==> 0 <= label_index(fs, label)->0 < fs.len() && fs[label_index(
            fs,
            label,
        )->0].0 == label,
    decreases fs.len(),
{
    if fs.len() > 0 {
        lemma_label_index_bounds(fs.drop_last(), label);
    }
}

/// Changing the value of a field keeps the first match of a label.
proof fn lemma_label_index_update(
    fs: Seq<(Seq<char>, Seq<char>)>,
    label: Seq<char>,
    i: int,
    value: Seq<char>,
)
    requires
        0 <= i < fs.len(),
    ensures
        label_index(fs.update(i, (fs[i].0, value)), label) == label_index(fs, label),
        label_index(fs, label) == Some(i) ==> fs.update(i, (fs[i].0, value))[i].1 == value,
    decreases fs.len(),
{
    let gs = fs.update(i, (fs[i].0, value));
    if i < fs.len() - 1 {
        assert(gs.drop_last() =~= fs.drop_last().update(i, (fs[i].0, value)));
        lemma_label_index_update(fs.drop_last(), label, i, value);
    } else {
        assert(gs.drop_last() =~= fs.drop_last());
    }
}

} // verus!
