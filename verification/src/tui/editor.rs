//! Text editing in a draft popout: typing into the header field being
//! edited or into the body at the cursor (a byte offset into the body),
//! and the body lines the popout shows for it.

use vstd::prelude::*;

use crate::strings::{
    byte_prefix, chars_of, lemma_byte_prefix_is_take, pop_char, prefix_bytes, push_char, push_str,
    string_from_chars, utf8_len, utf8_width,
};
use crate::seqs::{first_match, lemma_first_match_at, lemma_first_match_none};
use crate::tui::popout::{lines_acc, lines_view, spec_lines, split_lines, HeaderField, Popout};

verus! {

/// The UTF-8 length of a text.
pub open spec fn utf8_bytes(s: Seq<char>) -> int
    decreases s.len(),
{
    if s.len() == 0 {
        0
    } else {
        utf8_width(s[0]) + utf8_bytes(s.drop_first())
    }
}

/// The body after typing `c` at byte offset `cur`, with the new offset;
/// `None` when `cur` is not a character boundary of the body.
pub open spec fn spec_insert_at(buf: Seq<char>, cur: int, c: char) -> Option<(Seq<char>, int)> {
    match byte_prefix(buf, cur) {
        Some(p) => Some((p.push(c) + buf.skip(p.len() as int), cur + utf8_width(c))),
        None => None,
    }
}

/// The body after deleting the character before byte offset `cur`, with
/// the new offset; `None` at the start of the body or off a boundary.
pub open spec fn spec_delete_before(buf: Seq<char>, cur: int) -> Option<(Seq<char>, int)> {
    match byte_prefix(buf, cur) {
        Some(p) => if p.len() > 0 {
            Some((p.drop_last() + buf.skip(p.len() as int), cur - utf8_width(p.last())))
        } else {
            None
        },
        None => None,
    }
}

/// The UTF-8 length of a byte prefix is the offset it was cut at.
pub proof fn lemma_byte_prefix_len(s: Seq<char>, n: int)
    ensures
        byte_prefix(s, n) matches Some(p) ==> utf8_bytes(p) == n,
    decreases s.len(),
{
    if n != 0 && !(s.len() == 0 || n < 0 || utf8_width(s[0]) > n) {
        lemma_byte_prefix_len(s.drop_first(), n - utf8_width(s[0]));
        if byte_prefix(s.drop_first(), n - utf8_width(s[0])) is Some {
            let q = byte_prefix(s.drop_first(), n - utf8_width(s[0]))->0;
            assert((seq![s[0]] + q).drop_first() =~= q);
        }
    }
}

/// Cutting at the UTF-8 length of the first `k` characters gives them back.
pub proof fn lemma_prefix_at_take(s: Seq<char>, k: int)
    requires
        0 <= k <= s.len(),
    ensures
        byte_prefix(s, utf8_bytes(s.take(k))) == Some(s.take(k)),
    decreases k,
{
    lemma_bytes_nonneg(s.take(k));
    if k == 0 {
        assert(s.take(0) =~= Seq::<char>::empty());
    } else {
        assert(s.take(k)[0] == s[0]);
        assert(s.take(k).drop_first() =~= s.drop_first().take(k - 1));
        lemma_prefix_at_take(s.drop_first(), k - 1);
        lemma_bytes_nonneg(s.drop_first().take(k - 1));
        assert(seq![s[0]] + s.drop_first().take(k - 1) =~= s.take(k));
    }
}

pub proof fn lemma_bytes_nonneg(s: Seq<char>)
    ensures
        utf8_bytes(s) >= s.len(),
    decreases s.len(),
{
    if s.len() > 0 {
        lemma_bytes_nonneg(s.drop_first());
    }
}

/// Appending a character adds its width.
pub proof fn lemma_bytes_push(p: Seq<char>, c: char)
    ensures
        utf8_bytes(p.push(c)) == utf8_bytes(p) + utf8_width(c),
    decreases p.len(),
{
    if p.len() == 0 {
        assert(p.push(c).drop_first() =~= Seq::<char>::empty());
        assert(p.push(c)[0] == c);
        assert(utf8_bytes(Seq::<char>::empty()) == 0);
        assert(utf8_bytes(p) == 0);
    } else {
        assert(p.push(c).drop_first() =~= p.drop_first().push(c));
        assert(p.push(c)[0] == p[0]);
        lemma_bytes_push(p.drop_first(), c);
    }
}

/// Editing keeps the body cursor on a character boundary: after typing or
/// deleting, the new offset cuts the new body cleanly.
pub proof fn law_edits_keep_cursor_on_boundary(buf: Seq<char>, cur: int, c: char)
    ensures
        spec_insert_at(buf, cur, c) matches Some((b, k)) ==> byte_prefix(b, k) is Some,
        spec_delete_before(buf, cur) matches Some((b, k)) ==> byte_prefix(b, k) is Some,
{
    lemma_byte_prefix_is_take(buf, cur);
    lemma_byte_prefix_len(buf, cur);
    if byte_prefix(buf, cur) is Some {
        let p = byte_prefix(buf, cur)->0;
        let b = p.push(c) + buf.skip(p.len() as int);
        assert(b.take(p.len() as int + 1) =~= p.push(c));
        lemma_bytes_push(p, c);
        lemma_prefix_at_take(b, p.len() as int + 1);
        if p.len() > 0 {
            let d = p.drop_last() + buf.skip(p.len() as int);
            assert(d.take(p.len() - 1) =~= p.drop_last());
            assert(p.drop_last().push(p.last()) =~= p);
            lemma_bytes_push(p.drop_last(), p.last());
            lemma_prefix_at_take(d, p.len() - 1);
        }
    }
}

/// Types `c` into the body at byte offset `cur`.
fn insert_at(buf: &String, cur: usize, c: char) -> (r: Option<(String, usize)>)
    ensures
        r matches Some((b, k)) ==> spec_insert_at(buf@, cur as int, c) == Some((b@, k as int)),
        r is None ==> (spec_insert_at(buf@, cur as int, c) matches Some((b, k)) ==> k > usize::MAX),
{
    let cs = chars_of(buf.as_str());
    assert(cs@.skip(0) =~= buf@);
    match prefix_bytes(&cs, 0, cur) {
        Some(p) => {
            let w = utf8_len(c);
            if cur > usize::MAX - w {
                return None;
            }
            proof {
                lemma_byte_prefix_is_take(buf@, cur as int);
            }
            let mut out = string_from_chars(&p);
            push_char(&mut out, c);
            let mut i = p.len();
            while i < cs.len()
                invariant
                    p@.len() <= i <= cs@.len(),
                    cs@ == buf@,
                    out@ == p@.push(c) + buf@.subrange(p@.len() as int, i as int),
                decreases cs@.len() - i,
            {
                let ghost before = out@;
                push_char(&mut out, cs[i]);
                assert(out@ =~= p@.push(c) + buf@.subrange(p@.len() as int, i + 1));
                i = i + 1;
            }
            assert(buf@.subrange(p@.len() as int, cs@.len() as int) =~= buf@.skip(p@.len() as int));
            Some((out, cur + w))
        },
        None => None,
    }
}

/// Deletes the character before byte offset `cur`.
fn delete_before(buf: &String, cur: usize) -> (r: Option<(String, usize)>)
    ensures
        r matches Some((b, k)) ==> spec_delete_before(buf@, cur as int) == Some((b@, k as int)),
        r is None ==> spec_delete_before(buf@, cur as int) is None,
{
    let cs = chars_of(buf.as_str());
    assert(cs@.skip(0) =~= buf@);
    match prefix_bytes(&cs, 0, cur) {
        Some(p) => {
            if p.len() == 0 {
                return None;
            }
            proof {
                lemma_byte_prefix_is_take(buf@, cur as int);
                lemma_byte_prefix_len(buf@, cur as int);
                lemma_bytes_push(p@.drop_last(), p@.last());
                assert(p@.drop_last().push(p@.last()) =~= p@);
                lemma_bytes_nonneg(p@.drop_last());
            }
            let last = p[p.len() - 1];
            let w = utf8_len(last);
            let mut out = String::new();
            let mut i: usize = 0;
            while i < p.len() - 1
                invariant
                    i <= p@.len() - 1,
                    out@ == p@.take(i as int),
                decreases p@.len() - 1 - i,
            {
                push_char(&mut out, p[i]);
                assert(out@ =~= p@.take(i + 1));
                i = i + 1;
            }
            assert(p@.take(p@.len() - 1) =~= p@.drop_last());
            let mut j = p.len();
            while j < cs.len()
                invariant
                    p@.len() <= j <= cs@.len(),
                    cs@ == buf@,
                    out@ == p@.drop_last() + buf@.subrange(p@.len() as int, j as int),
                decreases cs@.len() - j,
            {
                push_char(&mut out, cs[j]);
                assert(out@ =~= p@.drop_last() + buf@.subrange(p@.len() as int, j + 1));
                j = j + 1;
            }
            assert(buf@.subrange(p@.len() as int, cs@.len() as int) =~= buf@.skip(p@.len() as int));
            Some((out, cur - w))
        },
        None => None,
    }
}

/// The text of a header field of a draft.
pub open spec fn field_text(p: Popout, f: HeaderField) -> Seq<char> {
    match f {
        HeaderField::To => p.to@,
        HeaderField::Subject => p.subject@,
        HeaderField::Cc => p.cc@,
        HeaderField::Bcc => p.bcc@,
    }
}

/// The popout with header field `f` set to `v`.
pub open spec fn fields_after(p: Popout, q: Popout, f: HeaderField, v: Seq<char>) -> bool {
    &&& field_text(q, f) == v
    &&& forall|g: HeaderField| g != f ==> #[trigger] field_text(q, g) == field_text(p, g)
}

/// The label a header line starts with; the field being edited is marked.
pub open spec fn field_prefix(f: HeaderField, active: Option<HeaderField>) -> Seq<char> {
    let on = active == Some(f);
    match f {
        HeaderField::To => if on { "▶ To:      "@ } else { "  To:      "@ },
        HeaderField::Subject => if on { "▶ Subject: "@ } else { "  Subject: "@ },
        HeaderField::Cc => if on { "▶ Cc:      "@ } else { "  Cc:      "@ },
        HeaderField::Bcc => if on { "▶ Bcc:     "@ } else { "  Bcc:     "@ },
    }
}

/// The horizontal rule between the headers and the body.
pub open spec fn rule_line() -> Seq<char> {
    Seq::new(30, |i: int| '─')
}

/// The lines a draft popout shows: To, then Cc and Bcc when they hold
/// text or are being edited, Subject, a ruled gap, the body's lines, and
/// a cursor block when the empty body is being edited.
pub open spec fn spec_editor_body(p: Popout) -> Seq<Seq<char>> {
    let a = p.editing_field;
    let cc = if p.cc@.len() > 0 || a == Some(HeaderField::Cc) {
        seq![field_prefix(HeaderField::Cc, a) + p.cc@]
    } else {
        Seq::empty()
    };
    let bcc = if p.bcc@.len() > 0 || a == Some(HeaderField::Bcc) {
        seq![field_prefix(HeaderField::Bcc, a) + p.bcc@]
    } else {
        Seq::empty()
    };
    let caret = if a is None && p.editor_buffer@.len() == 0 {
        seq![seq!['▊']]
    } else {
        Seq::empty()
    };
    seq![field_prefix(HeaderField::To, a) + p.to@] + cc + bcc + seq![
        field_prefix(HeaderField::Subject, a) + p.subject@,
        Seq::empty(),
        rule_line(),
        Seq::empty(),
    ] + spec_lines(p.editor_buffer@) + caret
}

/// The popout's body is what `spec_editor_body` says, everything else as
/// in `p`.
pub open spec fn refreshed(p: Popout, q: Popout) -> bool {
    &&& lines_view(q.body@) == spec_editor_body(p)
    &&& q.id == p.id && q.title == p.title && q.state == p.state && q.kind == p.kind
    &&& q.editor_buffer == p.editor_buffer && q.editor_cursor == p.editor_cursor
    &&& q.to == p.to && q.subject == p.subject && q.cc == p.cc && q.bcc == p.bcc
    &&& q.editing_field == p.editing_field
}

/// Typing `c`: see `insert_char`.
pub open spec fn rel_insert_char(o: Popout, n: Popout, c: char) -> bool {
    &&& (match o.editing_field {
            Some(f) => {
                &&& fields_after(o, n, f, field_text(o, f).push(c))
                &&& n.editor_buffer == o.editor_buffer
                &&& n.editor_cursor == o.editor_cursor
            },
            None => {
                &&& forall|g: HeaderField| #[trigger] field_text(n, g) == field_text(o, g)
                &&& match spec_insert_at(o.editor_buffer@, o.editor_cursor as int, c) {
                    Some((b, k)) => if k <= usize::MAX {
                        n.editor_buffer@ == b && n.editor_cursor == k
                    } else {
                        n.editor_buffer == o.editor_buffer && n.editor_cursor
                            == o.editor_cursor
                    },
                    None => n.editor_buffer == o.editor_buffer && n.editor_cursor
                        == o.editor_cursor,
                }
            }
        })
    &&& (n.editing_field == o.editing_field)
    &&& (n.id == o.id && n.kind == o.kind && n.state == o.state)
    &&& (n.title == o.title)
    &&& (lines_view(n.body@) == spec_editor_body(n))
}

/// Deleting: see `backspace`.
pub open spec fn rel_backspace(o: Popout, n: Popout) -> bool {
    &&& (match o.editing_field {
            Some(f) => {
                &&& fields_after(o, n, f, if field_text(o, f).len() > 0 {
                    field_text(o, f).drop_last()
                } else {
                    field_text(o, f)
                })
                &&& n.editor_buffer == o.editor_buffer
                &&& n.editor_cursor == o.editor_cursor
            },
            None => {
                &&& forall|g: HeaderField| #[trigger] field_text(n, g) == field_text(o, g)
                &&& match spec_delete_before(o.editor_buffer@, o.editor_cursor as int) {
                    Some((b, k)) => n.editor_buffer@ == b && n.editor_cursor == k,
                    None => n.editor_buffer == o.editor_buffer && n.editor_cursor
                        == o.editor_cursor,
                }
            }
        })
    &&& (n.editing_field == o.editing_field)
    &&& (n.id == o.id && n.kind == o.kind && n.state == o.state)
    &&& (n.title == o.title)
    &&& (lines_view(n.body@) == spec_editor_body(n))
}

/// Enter: see `enter`.
pub open spec fn rel_enter(o: Popout, n: Popout) -> bool {
    &&& (forall|g: HeaderField| #[trigger] field_text(n, g) == field_text(o, g))
    &&& (match o.editing_field {
            Some(_) => {
                &&& n.editing_field is None
                &&& n.editor_buffer == o.editor_buffer
                &&& n.editor_cursor == o.editor_cursor
            },
            None => {
                &&& n.editing_field is None
                &&& match spec_insert_at(o.editor_buffer@, o.editor_cursor as int, '\n') {
                    Some((b, k)) => if k <= usize::MAX {
                        n.editor_buffer@ == b && n.editor_cursor == k
                    } else {
                        n.editor_buffer == o.editor_buffer && n.editor_cursor
                            == o.editor_cursor
                    },
                    None => n.editor_buffer == o.editor_buffer && n.editor_cursor
                        == o.editor_cursor,
                }
            }
        })
    &&& (n.id == o.id && n.kind == o.kind && n.state == o.state)
    &&& (n.title == o.title)
    &&& (lines_view(n.body@) == spec_editor_body(n))
}

/// The label for header field `f`.
fn prefix_of(f: HeaderField, active: Option<HeaderField>) -> (r: &'static str)
    ensures
        r@ == field_prefix(f, active),
{
    let on = match active {
        Some(g) => g == f,
        None => false,
    };
    match f {
        HeaderField::To => if on { "▶ To:      " } else { "  To:      " },
        HeaderField::Subject => if on { "▶ Subject: " } else { "  Subject: " },
        HeaderField::Cc => if on { "▶ Cc:      " } else { "  Cc:      " },
        HeaderField::Bcc => if on { "▶ Bcc:     " } else { "  Bcc:     " },
    }
}

fn labelled(f: HeaderField, active: Option<HeaderField>, text: &str) -> (r: String)
    ensures
        r@ == field_prefix(f, active) + text@,
{
    let mut s = String::new();
    push_str(&mut s, prefix_of(f, active));
    push_str(&mut s, text);
    assert(Seq::<char>::empty() + field_prefix(f, active) =~= field_prefix(f, active));
    s
}

/// Rebuilds a popout's body lines from its header fields and body text.
pub fn refresh_body(p: &mut Popout)
    ensures
        refreshed(*old(p), *final(p)),
{
    let a = p.editing_field;
    let mut body: Vec<String> = Vec::new();
    body.push(labelled(HeaderField::To, a, p.to.as_str()));
    let ghost l0 = lines_view(body@);
    let cc_on = match a {
        Some(HeaderField::Cc) => true,
        _ => false,
    };
    if !p.cc.as_str().is_empty() || cc_on {
        body.push(labelled(HeaderField::Cc, a, p.cc.as_str()));
    }
    let bcc_on = match a {
        Some(HeaderField::Bcc) => true,
        _ => false,
    };
    if !p.bcc.as_str().is_empty() || bcc_on {
        body.push(labelled(HeaderField::Bcc, a, p.bcc.as_str()));
    }
    body.push(labelled(HeaderField::Subject, a, p.subject.as_str()));
    body.push(String::new());
    let mut rule = String::new();
    let mut k: usize = 0;
    while k < 30
        invariant
            k <= 30,
            rule@ == Seq::new(k as nat, |i: int| '─'),
        decreases 30 - k,
    {
        push_char(&mut rule, '─');
        assert(rule@ =~= Seq::new((k + 1) as nat, |i: int| '─'));
        k = k + 1;
    }
    body.push(rule);
    body.push(String::new());
    let ghost head = lines_view(body@);
    let lines = split_lines(p.editor_buffer.as_str());
    let mut j: usize = 0;
    while j < lines.len()
        invariant
            j <= lines@.len(),
            lines_view(lines@) == spec_lines(p.editor_buffer@),
            lines_view(body@) == head + lines_view(lines@).take(j as int),
        decreases lines@.len() - j,
    {
        let ghost before = lines_view(body@);
        let mut line = String::new();
        push_str(&mut line, lines[j].as_str());
        body.push(line);
        assert(lines_view(lines@).take(j as int + 1) =~= lines_view(lines@).take(j as int).push(
            lines@[j as int]@,
        ));
        assert(lines_view(body@) =~= before.push(lines@[j as int]@));
        j = j + 1;
    }
    assert(lines_view(lines@).take(lines@.len() as int) =~= lines_view(lines@));
    let caret = match a {
        None => p.editor_buffer.as_str().is_empty(),
        Some(_) => false,
    };
    if caret {
        let ghost before = lines_view(body@);
        let mut mark = String::new();
        push_char(&mut mark, '▊');
        body.push(mark);
        assert(lines_view(body@) =~= before.push(seq!['▊']));
    }
    proof {
        assert(Seq::<char>::empty() + p.to@ == p.to@);
    }
    p.body = body;
    assert(lines_view(p.body@) =~= spec_editor_body(*old(p)));
}

/// Types `c` where the draft's cursor is: at the end of the header field
/// being edited, or into the body at the cursor, which then moves past
/// it. The body lines are rebuilt.
pub fn insert_char(p: &mut Popout, c: char)
    ensures
        rel_insert_char(*old(p), *final(p), c),
{
    match p.editing_field {
        Some(HeaderField::To) => push_char(&mut p.to, c),
        Some(HeaderField::Subject) => push_char(&mut p.subject, c),
        Some(HeaderField::Cc) => push_char(&mut p.cc, c),
        Some(HeaderField::Bcc) => push_char(&mut p.bcc, c),
        None => match insert_at(&p.editor_buffer, p.editor_cursor, c) {
            Some((b, k)) => {
                p.editor_buffer = b;
                p.editor_cursor = k;
            },
            None => {},
        },
    }
    refresh_body(p);
}

/// Deletes where the draft's cursor is: the last character of the header
/// field being edited, or the body character before the cursor. The body
/// lines are rebuilt.
pub fn backspace(p: &mut Popout)
    ensures
        rel_backspace(*old(p), *final(p)),
{
    match p.editing_field {
        Some(HeaderField::To) => {
            pop_char(&mut p.to);
        },
        Some(HeaderField::Subject) => {
            pop_char(&mut p.subject);
        },
        Some(HeaderField::Cc) => {
            pop_char(&mut p.cc);
        },
        Some(HeaderField::Bcc) => {
            pop_char(&mut p.bcc);
        },
        None => match delete_before(&p.editor_buffer, p.editor_cursor) {
            Some((b, k)) => {
                p.editor_buffer = b;
                p.editor_cursor = k;
            },
            None => {},
        },
    }
    refresh_body(p);
}

/// Enter: on a header field, leaves it for the body; in the body, starts
/// a new line at the cursor. The body lines are rebuilt.
pub fn enter(p: &mut Popout)
    ensures
        rel_enter(*old(p), *final(p)),
{
    match p.editing_field {
        Some(_) => {
            p.editing_field = None;
        },
        None => match insert_at(&p.editor_buffer, p.editor_cursor, '\n') {
            Some((b, k)) => {
                p.editor_buffer = b;
                p.editor_cursor = k;
            },
            None => {},
        },
    }
    refresh_body(p);
}

/// Width of the label before a header field's text ("▶ To:      ").
pub const FIELD_PREFIX_WIDTH: usize = 11;

/// The row of header field `f` in a draft: To first, then Cc and Bcc when
/// they hold text, then Subject.
pub open spec fn header_row(p: Popout, f: HeaderField) -> int {
    let cc = if p.cc@.len() > 0 { 1int } else { 0 };
    let bcc = if p.bcc@.len() > 0 { 1int } else { 0 };
    match f {
        HeaderField::To => 0,
        HeaderField::Cc => 1,
        HeaderField::Bcc => 1 + cc,
        HeaderField::Subject => 1 + cc + bcc,
    }
}

/// A line that starts with the rule character.
pub open spec fn is_rule_line(l: Seq<char>) -> bool {
    l.len() > 0 && l[0] == '─'
}

/// Rows above the body text: up to the rule, the rule and the blank line
/// after it (four when there is no rule).
pub open spec fn header_rows(body: Seq<Seq<char>>) -> int {
    match first_match(body, |l: Seq<char>| is_rule_line(l)) {
        Some(i) => i + 2,
        None => 4,
    }
}

/// Where the cursor stands inside a draft (column, row), in bytes of
/// text: at the end of the header field being edited, or in the body at
/// the line and column of the cursor offset.
pub open spec fn spec_cursor_position(p: Popout) -> (int, int) {
    match p.editing_field {
        Some(f) => (FIELD_PREFIX_WIDTH + utf8_bytes(field_text(p, f)), header_row(p, f)),
        None => {
            let before = byte_prefix(p.editor_buffer@, p.editor_cursor as int)->0;
            let lines = spec_lines(before);
            let line = if before.len() > 0 && before.last() == '\n' {
                lines.len() as int
            } else if lines.len() > 0 {
                lines.len() - 1
            } else {
                0
            };
            let col = if lines.len() > 0 {
                utf8_bytes(lines.last())
            } else {
                0
            };
            (col, header_rows(lines_view(p.body@)) + line)
        },
    }
}

/// The UTF-8 length of a text, when it fits.
fn byte_len(s: &str) -> (r: usize)
    requires
        utf8_bytes(s@) <= usize::MAX,
    ensures
        r == utf8_bytes(s@),
{
    let n = s.unicode_len();
    let mut total: usize = 0;
    let mut i: usize = n;
    proof {
        assert(s@.skip(n as int) =~= Seq::<char>::empty());
    }
    while i > 0
        invariant
            n == s@.len(),
            i <= n,
            total == utf8_bytes(s@.skip(i as int)),
            utf8_bytes(s@) <= usize::MAX,
        decreases i,
    {
        let c = s.get_char(i - 1);
        proof {
            assert(s@.skip(i - 1).drop_first() =~= s@.skip(i as int));
            assert(s@.skip(i - 1)[0] == c);
            lemma_bytes_suffix(s@, i - 1);
        }
        total = total + utf8_len(c);
        i = i - 1;
    }
    assert(s@.skip(0) =~= s@);
    total
}

/// A suffix is no longer in bytes than the whole text.
proof fn lemma_bytes_suffix(s: Seq<char>, k: int)
    requires
        0 <= k <= s.len(),
    ensures
        utf8_bytes(s.skip(k)) <= utf8_bytes(s),
    decreases k,
{
    if k > 0 {
        assert(s.skip(k) =~= s.drop_first().skip(k - 1));
        lemma_bytes_suffix(s.drop_first(), k - 1);
        lemma_bytes_nonneg(s.drop_first());
    } else {
        assert(s.skip(0) =~= s);
    }
}

/// Bytes of a text with its last character dropped.
proof fn lemma_bytes_drop_last(s: Seq<char>)
    requires
        s.len() > 0,
    ensures
        utf8_bytes(s) == utf8_bytes(s.drop_last()) + utf8_width(s.last()),
{
    assert(s.drop_last().push(s.last()) =~= s);
    lemma_bytes_push(s.drop_last(), s.last());
}

/// While reading lines, no line is longer in bytes than what was read,
/// and there are no more lines than characters.
proof fn lemma_lines_acc_bounds(s: Seq<char>)
    ensures
        lines_acc(s).0.len() + lines_acc(s).1.len() <= s.len(),
        utf8_bytes(lines_acc(s).1) <= utf8_bytes(s),
        forall|i: int|
            0 <= i < lines_acc(s).0.len() ==> utf8_bytes(#[trigger] lines_acc(s).0[i]) <= utf8_bytes(s),
    decreases s.len(),
{
    lemma_bytes_nonneg(s);
    if s.len() > 0 {
        lemma_lines_acc_bounds(s.drop_last());
        lemma_bytes_drop_last(s);
        let (done, cur) = lines_acc(s.drop_last());
        if s.last() == '\n' {
            if cur.len() > 0 && cur.last() == '\r' {
                lemma_bytes_drop_last(cur);
            }
            lemma_bytes_nonneg(Seq::<char>::empty());
        } else {
            lemma_bytes_push(cur, s.last());
        }
    }
}

/// `str::lines` gives no more lines than characters, and no line longer
/// in bytes than the text.
pub proof fn lemma_lines_bounds(s: Seq<char>)
    ensures
        spec_lines(s).len() <= s.len(),
        forall|i: int| 0 <= i < spec_lines(s).len() ==> utf8_bytes(#[trigger] spec_lines(s)[i]) <= utf8_bytes(s),
{
    lemma_lines_acc_bounds(s);
}

/// The cursor position inside a draft (see `spec_cursor_position`). The
/// body cursor must fall on a character boundary, as every edit keeps it.
pub fn cursor_position(p: &Popout) -> (r: (usize, usize))
    requires
        byte_prefix(p.editor_buffer@, p.editor_cursor as int) is Some,
        utf8_bytes(p.to@) + FIELD_PREFIX_WIDTH <= usize::MAX,
        utf8_bytes(p.subject@) + FIELD_PREFIX_WIDTH <= usize::MAX,
        utf8_bytes(p.cc@) + FIELD_PREFIX_WIDTH <= usize::MAX,
        utf8_bytes(p.bcc@) + FIELD_PREFIX_WIDTH <= usize::MAX,
        p.body@.len() + p.editor_buffer@.len() + 4 <= usize::MAX,
    ensures
        r.0 == spec_cursor_position(*p).0,
        r.1 == spec_cursor_position(*p).1,
{
    match p.editing_field {
        Some(f) => {
            let text: &str = match f {
                HeaderField::To => p.to.as_str(),
                HeaderField::Subject => p.subject.as_str(),
                HeaderField::Cc => p.cc.as_str(),
                HeaderField::Bcc => p.bcc.as_str(),
            };
            let cc: usize = if p.cc.as_str().is_empty() { 0 } else { 1 };
            let bcc: usize = if p.bcc.as_str().is_empty() { 0 } else { 1 };
            let row = match f {
                HeaderField::To => 0,
                HeaderField::Cc => 1,
                HeaderField::Bcc => 1 + cc,
                HeaderField::Subject => 1 + cc + bcc,
            };
            (FIELD_PREFIX_WIDTH + byte_len(text), row)
        },
        None => {
            let cs = chars_of(p.editor_buffer.as_str());
            assert(cs@.skip(0) =~= p.editor_buffer@);
            let before_chars = match prefix_bytes(&cs, 0, p.editor_cursor) {
                Some(v) => v,
                None => {
                    return (0, 0);
                },
            };
            proof {
                lemma_byte_prefix_is_take(p.editor_buffer@, p.editor_cursor as int);
            }
            let before = string_from_chars(&before_chars);
            let lines = split_lines(before.as_str());
            let nb = before_chars.len();
            let ends_nl = nb > 0 && before_chars[nb - 1] == '\n';
            proof {
                lemma_lines_bounds(before@);
                lemma_byte_prefix_len(p.editor_buffer@, p.editor_cursor as int);
            }
            let line = if ends_nl {
                lines.len()
            } else if lines.len() > 0 {
                lines.len() - 1
            } else {
                0
            };
            let col = if lines.len() > 0 {
                proof {
                    assert(lines_view(lines@)[lines@.len() - 1] == lines@[lines@.len() - 1]@);
                }
                byte_len(lines[lines.len() - 1].as_str())
            } else {
                0
            };
            let ghost body = lines_view(p.body@);
            let ghost isr = |l: Seq<char>| is_rule_line(l);
            let mut found: Option<usize> = None;
            let mut k: usize = 0;
            while k < p.body.len() && found.is_none()
                invariant
                    k <= p.body@.len(),
                    body == lines_view(p.body@),
                    isr == (|l: Seq<char>| is_rule_line(l)),
                    p.body@.len() + p.editor_buffer@.len() + 4 <= usize::MAX,
                    found matches Some(j) ==> j < p.body@.len() && first_match(body, isr) == Some(j as int),
                    found is None ==> forall|j: int| 0 <= j < k ==> !isr(#[trigger] body[j]),
                decreases p.body@.len() - k,
            {
                let l = p.body[k].as_str();
                if l.unicode_len() > 0 && l.get_char(0) == '─' {
                    proof {
                        lemma_first_match_at(body, isr, k as int);
                    }
                    found = Some(k);
                }
                k = k + 1;
            }
            let rows = match found {
                Some(j) => j + 2,
                None => {
                    proof {
                        lemma_first_match_none(body, isr);
                    }
                    4
                },
            };
            assert(before@ == p.editor_buffer@.take(before@.len() as int));
            (col, rows + line)
        },
    }
}

} // verus!
