//! Popout windows: opened emails, new drafts and reply compositions
//! appear as popout panels. At most two are open at once, shown side by
//! side; each is minimized (title bar only), normal (half screen) or
//! maximized (full overlay).

use vstd::prelude::*;

use crate::jmap::mail::{split_acc, split_pieces};
use crate::strings::{push_char, push_str, to_owned};

verus! {

/// Maximum number of simultaneously open popouts.
pub const MAX_POPOUTS: usize = 2;

/// Visual state of a popout panel.
#[derive(Debug, Clone, Copy, PartialEq, Eq, Structural)]
pub enum PopoutState {
    /// Minimized — only shows as a tab/title bar at the bottom.
    Minimized,
    /// Normal — takes half the screen width.
    Normal,
    /// Maximized — full overlay on top of everything.
    Maximized,
}

/// The kind of content in a popout.
#[derive(Debug, Clone, PartialEq, Eq)]
pub enum PopoutKind {
    /// Viewing an email (read-only).
    EmailView { email_id: String },
    /// Composing a new draft.
    Compose,
    /// Replying to an email.
    Reply { original_id: String },
    /// Forwarding an email.
    Forward { original_id: String },
}

/// Which header field is being edited in a draft popout.
#[derive(Debug, Clone, Copy, PartialEq, Eq, Structural)]
pub enum HeaderField {
    To,
    Subject,
    Cc,
    Bcc,
}

/// A single popout panel.
pub struct Popout {
    /// Unique identifier for this popout.
    pub id: u32,
    /// Display title for the panel border.
    pub title: String,
    /// Body content lines.
    pub body: Vec<String>,
    /// Current visual state.
    pub state: PopoutState,
    /// What kind of content this popout holds.
    pub kind: PopoutKind,
    /// Editable text buffer (for compose/reply).
    pub editor_buffer: String,
    /// Cursor position within editor_buffer (byte offset).
    pub editor_cursor: usize,
    /// To recipients.
    pub to: String,
    /// Subject line.
    pub subject: String,
    /// CC recipients.
    pub cc: String,
    /// BCC recipients.
    pub bcc: String,
    /// Which header field is currently being edited (None = body editor).
    pub editing_field: Option<HeaderField>,
}

/// The signature block a draft starts with: two blank lines and the
/// `-- ` separator before the signature.
pub open spec fn signature_block(signature: Option<Seq<char>>) -> Seq<char> {
    match signature {
        Some(s) => "\n\n-- \n"@ + s,
        None => Seq::empty(),
    }
}

/// The state of `str::lines` after reading `s`: the finished lines and
/// the line in progress. A line ends at `\n`, which is dropped together
/// with a `\r` right before it.
pub open spec fn lines_acc(s: Seq<char>) -> (Seq<Seq<char>>, Seq<char>)
    decreases s.len(),
{
    if s.len() == 0 {
        (Seq::empty(), Seq::empty())
    } else {
        let (done, cur) = lines_acc(s.drop_last());
        if s.last() == '\n' {
            let line = if cur.len() > 0 && cur.last() == '\r' {
                cur.drop_last()
            } else {
                cur
            };
            (done.push(line), Seq::empty())
        } else {
            (done, cur.push(s.last()))
        }
    }
}

/// `str::lines`: the lines of a text; a final line ending opens no line.
pub open spec fn spec_lines(s: Seq<char>) -> Seq<Seq<char>> {
    let (done, cur) = lines_acc(s);
    if cur.len() > 0 {
        done.push(cur)
    } else {
        done
    }
}

/// Each line prefixed with `> ` and ended with a newline.
pub open spec fn quote_lines(lines: Seq<Seq<char>>) -> Seq<char>
    decreases lines.len(),
{
    if lines.len() == 0 {
        Seq::empty()
    } else {
        quote_lines(lines.drop_last()) + "> "@ + lines.last() + seq!['\n']
    }
}

pub open spec fn opt_str(o: Option<&str>) -> Option<Seq<char>> {
    match o {
        Some(s) => Some(s@),
        None => None,
    }
}

/// The header lines a draft shows above its body.
pub open spec fn draft_body(to_line: Seq<char>, subject_line: Seq<char>) -> Seq<Seq<char>> {
    seq![to_line, subject_line, Seq::empty(), Seq::new(30, |i: int| '─'), Seq::empty(), seq!['▊']]
}

fn push_signature(buf: &mut String, signature: Option<&str>)
    ensures
        final(buf)@ == old(buf)@ + signature_block(opt_str(signature)),
{
    match signature {
        Some(s) => {
            push_str(buf, "\n\n-- \n");
            push_str(buf, s);
        },
        None => {
            assert(old(buf)@ + Seq::<char>::empty() =~= old(buf)@);
        },
    }
}

fn draft_lines(to_line: String, subject_line: String) -> (r: Vec<String>)
    ensures
        r@.len() == 6,
        forall|i: int| 0 <= i < 6 ==> #[trigger] r@[i]@ == draft_body(to_line@, subject_line@)[i],
{
    let mut rule = String::new();
    let mut k: usize = 0;
    while k < 30
        invariant
            k <= 30,
            rule@ == Seq::new(k as nat, |i: int| '─'),
        decreases 30 - k,
    {
        push_char(&mut rule, '─');
        assert(rule@ =~= Seq::new((k + 1) as nat, |i: int| '─'));
        k = k + 1;
    }
    let mut mark = String::new();
    push_char(&mut mark, '▊');
    let r = vec![to_line, subject_line, String::new(), rule, String::new(), mark];
    assert(mark@ =~= seq!['▊']);
    r
}

/// The views of a list of strings.
pub open spec fn lines_view(v: Seq<String>) -> Seq<Seq<char>> {
    v.map_values(|s: String| s@)
}

/// `str::lines`: the lines of `text`.
pub fn split_lines(text: &str) -> (r: Vec<String>)
    ensures
        lines_view(r@) == spec_lines(text@),
{
    let cs = crate::strings::chars_of(text);
    let mut done: Vec<String> = Vec::new();
    let mut cur = String::new();
    let mut i: usize = 0;
    while i < cs.len()
        invariant
            i <= cs@.len(),
            cs@ == text@,
            lines_view(done@) == lines_acc(cs@.take(i as int)).0,
            cur@ == lines_acc(cs@.take(i as int)).1,
        decreases cs@.len() - i,
    {
        assert(cs@.take(i as int + 1).drop_last() =~= cs@.take(i as int));
        let ghost before = done@;
        if cs[i] == '\n' {
            let mut line = cur;
            let n = line.as_str().unicode_len();
            if n > 0 && line.as_str().get_char(n - 1) == '\r' {
                crate::strings::pop_char(&mut line);
            }
            done.push(line);
            assert(lines_view(done@) =~= lines_view(before).push(done@.last()@));
            cur = String::new();
        } else {
            push_char(&mut cur, cs[i]);
        }
        i = i + 1;
    }
    assert(cs@.take(i as int) =~= cs@);
    if cur.as_str().unicode_len() > 0 {
        let ghost before = done@;
        done.push(cur);
        assert(lines_view(done@) =~= lines_view(before).push(done@.last()@));
    }
    done
}

/// Appends each line of `text`, prefixed with `> ` and ended with a
/// newline.
fn push_quoted(buf: &mut String, text: &str)
    ensures
        final(buf)@ == old(buf)@ + quote_lines(spec_lines(text@)),
{
    let done = split_lines(text);
    let ghost lines = spec_lines(text@);
    let mut j: usize = 0;
    while j < done.len()
        invariant
            j <= done@.len(),
            lines_view(done@) == lines,
            lines == spec_lines(text@),
            final_buf_ok(buf@, old(buf)@, lines, j as int),
        decreases done@.len() - j,
    {
        assert(lines.take(j as int + 1).drop_last() =~= lines.take(j as int));
        assert(lines.take(j as int + 1).last() == lines[j as int]);
        assert(done@[j as int]@ == lines[j as int]);
        let ghost before = buf@;
        push_str(buf, "> ");
        push_str(buf, done[j].as_str());
        push_char(buf, '\n');
        assert(buf@ =~= before + "> "@ + lines[j as int] + seq!['\n']);
        assert(quote_lines(lines.take(j as int + 1)) == quote_lines(lines.take(j as int)) + "> "@ + lines[j as int] + seq!['\n']);
        assert(buf@ =~= old(buf)@ + quote_lines(lines.take(j as int + 1)));
        j = j + 1;
    }
    assert(lines.take(j as int) =~= lines);
}

spec fn final_buf_ok(buf: Seq<char>, start: Seq<char>, lines: Seq<Seq<char>>, j: int) -> bool {
    buf == start + quote_lines(lines.take(j))
}

/// No newline in the text.
pub open spec fn no_newline(l: Seq<char>) -> bool {
    forall|j: int| 0 <= j < l.len() ==> #[trigger] l[j] != '\n'
}

proof fn lemma_lines_acc_no_newline(s: Seq<char>)
    ensures
        forall|k: int| 0 <= k < lines_acc(s).0.len() ==> no_newline(#[trigger] lines_acc(s).0[k]),
        no_newline(lines_acc(s).1),
    decreases s.len(),
{
    if s.len() > 0 {
        lemma_lines_acc_no_newline(s.drop_last());
        let (done, cur) = lines_acc(s.drop_last());
        if s.last() == '\n' {
            let line = if cur.len() > 0 && cur.last() == '\r' {
                cur.drop_last()
            } else {
                cur
            };
            assert(no_newline(line));
            assert forall|k: int| 0 <= k < done.push(line).len() implies no_newline(#[trigger] done.push(line)[k]) by {
                if k < done.len() {
                    assert(done.push(line)[k] == done[k]);
                }
            }
        } else {
            assert forall|j: int| 0 <= j < cur.push(s.last()).len() implies #[trigger] cur.push(s.last())[j] != '\n' by {
                if j < cur.len() {
                    assert(cur.push(s.last())[j] == cur[j]);
                }
            }
        }
    }
}

/// No line of `str::lines` holds a newline.
proof fn lemma_lines_no_newline(s: Seq<char>)
    ensures
        forall|k: int| 0 <= k < spec_lines(s).len() ==> no_newline(#[trigger] spec_lines(s)[k]),
{
    lemma_lines_acc_no_newline(s);
    let (done, cur) = lines_acc(s);
    if cur.len() > 0 {
        assert forall|k: int| 0 <= k < done.push(cur).len() implies no_newline(#[trigger] done.push(cur)[k]) by {
            if k < done.len() {
                assert(done.push(cur)[k] == done[k]);
            }
        }
    }
}

/// Text without the separator only extends the piece in progress.
proof fn lemma_split_acc_plain(x: Seq<char>, w: Seq<char>, c: char)
    requires
        forall|j: int| 0 <= j < w.len() ==> #[trigger] w[j] != c,
    ensures
        split_acc(x + w, c) == (split_acc(x, c).0, split_acc(x, c).1 + w),
    decreases w.len(),
{
    if w.len() == 0 {
        assert(x + w =~= x);
        assert(split_acc(x, c).1 + w =~= split_acc(x, c).1);
    } else {
        lemma_split_acc_plain(x, w.drop_last(), c);
        assert((x + w).drop_last() =~= x + w.drop_last());
        assert((x + w).last() == w[w.len() - 1]);
        assert((split_acc(x, c).1 + w.drop_last()).push(w.last()) =~= split_acc(x, c).1 + w);
    }
}

/// A line with the quote mark in front.
pub open spec fn quoted_line(l: Seq<char>) -> Seq<char> {
    "> "@ + l
}

proof fn lemma_split_quote(lines: Seq<Seq<char>>)
    requires
        forall|k: int| 0 <= k < lines.len() ==> no_newline(#[trigger] lines[k]),
    ensures
        split_acc(quote_lines(lines), '\n') == (lines.map_values(|l: Seq<char>| quoted_line(l)), Seq::<char>::empty()),
    decreases lines.len(),
{
    if lines.len() == 0 {
        assert(lines.map_values(|l: Seq<char>| quoted_line(l)) =~= Seq::<Seq<char>>::empty());
    } else {
        let init = lines.drop_last();
        assert forall|k: int| 0 <= k < init.len() implies no_newline(#[trigger] init[k]) by {
            assert(init[k] == lines[k]);
        }
        lemma_split_quote(init);
        let last = lines.last();
        assert(no_newline(lines[lines.len() - 1]));
        let w = "> "@ + last;
        reveal_strlit("> ");
        assert forall|j: int| 0 <= j < w.len() implies #[trigger] w[j] != '\n' by {
            if j >= 2 {
                assert(w[j] == last[j - 2]);
            } else {
                assert(w[j] == "> "@[j]);
            }
        }
        lemma_split_acc_plain(quote_lines(init), w, '\n');
        let q = quote_lines(lines);
        assert(q.drop_last() =~= quote_lines(init) + w);
        assert(q.last() == '\n');
        assert(Seq::<char>::empty() + w =~= w);
        assert(init.map_values(|l: Seq<char>| quoted_line(l)).push(w) =~= lines.map_values(|l: Seq<char>| quoted_line(l)));
    }
}

/// Quoting keeps every line, blank ones too: split at newlines, the
/// quote of a text has one piece per line of the text, the `k`-th being
/// `> ` followed by the `k`-th line, and nothing after the last newline.
pub proof fn law_quote_keeps_every_line(text: Seq<char>)
    ensures
        split_pieces(quote_lines(spec_lines(text)), '\n').len() == spec_lines(text).len() + 1,
        forall|k: int| 0 <= k < spec_lines(text).len() ==> #[trigger] split_pieces(quote_lines(spec_lines(text)), '\n')[k]
            == "> "@ + spec_lines(text)[k],
        split_pieces(quote_lines(spec_lines(text)), '\n').last().len() == 0,
{
    let ls = spec_lines(text);
    lemma_lines_no_newline(text);
    lemma_split_quote(ls);
    let ps = split_pieces(quote_lines(ls), '\n');
    assert forall|k: int| 0 <= k < ls.len() implies #[trigger] ps[k] == "> "@ + ls[k] by {
        assert(ps[k] == ls.map_values(|l: Seq<char>| quoted_line(l))[k]);
    }
}

impl Popout {
    fn blank(id: u32, title: String, body: Vec<String>, kind: PopoutKind, editor_buffer: String, to: String, subject: String) -> (r: Self)
        ensures
            r.id == id && r.title == title && r.body == body && r.state == PopoutState::Normal,
            r.kind == kind && r.editor_buffer == editor_buffer && r.editor_cursor == 0,
            r.to == to && r.subject == subject && r.cc@.len() == 0 && r.bcc@.len() == 0,
            r.editing_field is None,
    {
        Popout {
            id,
            title,
            body,
            state: PopoutState::Normal,
            kind,
            editor_buffer,
            editor_cursor: 0,
            to,
            subject,
            cc: String::new(),
            bcc: String::new(),
            editing_field: None,
        }
    }

    /// Create a new popout for viewing an email.
    pub fn email_view(id: u32, title: String, body: Vec<String>, email_id: String) -> (r: Self)
        ensures
            r.id == id && r.title == title && r.body == body && r.state == PopoutState::Normal,
            r.kind == (PopoutKind::EmailView { email_id }),
            r.editor_buffer@.len() == 0 && r.editor_cursor == 0,
            r.to@.len() == 0 && r.subject@.len() == 0 && r.cc@.len() == 0 && r.bcc@.len() == 0,
            r.editing_field is None,
    {
        Self::blank(id, title, body, PopoutKind::EmailView { email_id }, String::new(), String::new(), String::new())
    }

    /// Create a new popout for composing a draft; the body starts with the
    /// signature block.
    pub fn compose(id: u32, signature: Option<&str>) -> (r: Self)
        ensures
            r.id == id && r.title@ == "New Draft"@ && r.state == PopoutState::Normal,
            r.kind == PopoutKind::Compose,
            r.body@.len() == 6,
            forall|i: int| 0 <= i < 6 ==> #[trigger] r.body@[i]@ == draft_body("To: "@, "Subject: "@)[i],
            r.editor_buffer@ == signature_block(opt_str(signature)),
            r.editor_cursor == 0,
            r.to@.len() == 0 && r.subject@.len() == 0 && r.cc@.len() == 0 && r.bcc@.len() == 0,
            r.editing_field is None,
    {
        let body = draft_lines(to_owned("To: "), to_owned("Subject: "));
        let mut buf = String::new();
        push_signature(&mut buf, signature);
        assert(Seq::<char>::empty() + signature_block(opt_str(signature)) =~= signature_block(opt_str(signature)));
        Self::blank(id, to_owned("New Draft"), body, PopoutKind::Compose, buf, String::new(), String::new())
    }

    /// Create a new popout for replying to an email: room to type, the
    /// signature, then the original quoted line by line.
    pub fn reply(id: u32, original_id: String, from: &str, subject: &str, quoted: &str, signature: Option<&str>) -> (r: Self)
        ensures
            r.id == id && r.title@ == "Reply: "@ + subject@ && r.state == PopoutState::Normal,
            r.kind == (PopoutKind::Reply { original_id }),
            r.body@.len() == 6,
            forall|i: int| 0 <= i < 6 ==> #[trigger] r.body@[i]@ == draft_body("To: "@ + from@, "Subject: Re: "@ + subject@)[i],
            r.editor_buffer@ == signature_block(opt_str(signature)) + "\n\n"@ + quote_lines(spec_lines(quoted@)),
            ({
                let quote = r.editor_buffer@.skip(signature_block(opt_str(signature)).len() as int + 2);
                let pieces = split_pieces(quote, '\n');
                &&& pieces.len() == spec_lines(quoted@).len() + 1
                &&& forall|k: int| 0 <= k < spec_lines(quoted@).len() ==> #[trigger] pieces[k] == "> "@
                    + spec_lines(quoted@)[k]
                &&& pieces.last().len() == 0
            }),
            r.editor_cursor == 0,
            r.to@ == from@ && r.subject@ == "Re: "@ + subject@,
            r.cc@.len() == 0 && r.bcc@.len() == 0,
            r.editing_field is None,
    {
        let mut to_line = to_owned("To: ");
        push_str(&mut to_line, from);
        let mut subject_line = to_owned("Subject: Re: ");
        push_str(&mut subject_line, subject);
        let body = draft_lines(to_line, subject_line);
        let mut buf = String::new();
        push_signature(&mut buf, signature);
        push_str(&mut buf, "\n\n");
        push_quoted(&mut buf, quoted);
        assert(buf@ =~= signature_block(opt_str(signature)) + "\n\n"@ + quote_lines(spec_lines(quoted@)));
        proof {
            law_quote_keeps_every_line(quoted@);
            reveal_strlit("\n\n");
            assert(buf@.skip(signature_block(opt_str(signature)).len() as int + 2) =~= quote_lines(spec_lines(quoted@)));
        }
        let mut title = to_owned("Reply: ");
        push_str(&mut title, subject);
        let mut re = to_owned("Re: ");
        push_str(&mut re, subject);
        Self::blank(id, title, body, PopoutKind::Reply { original_id }, buf, to_owned(from), re)
    }

    /// Create a new popout for forwarding an email: room to type, the
    /// signature, then the forwarded content.
    pub fn forward(id: u32, original_id: String, subject: &str, content: &str, signature: Option<&str>) -> (r: Self)
        ensures
            r.id == id && r.title@ == "Fwd: "@ + subject@ && r.state == PopoutState::Normal,
            r.kind == (PopoutKind::Forward { original_id }),
            r.body@.len() == 6,
            forall|i: int| 0 <= i < 6 ==> #[trigger] r.body@[i]@ == draft_body("To: "@, "Subject: Fwd: "@ + subject@)[i],
            r.editor_buffer@ == signature_block(opt_str(signature)) + "\n\n--- Forwarded message ---\n\n"@
                + content@,
            r.editor_cursor == 0,
            r.to@.len() == 0 && r.subject@ == "Fwd: "@ + subject@,
            r.cc@.len() == 0 && r.bcc@.len() == 0,
            r.editing_field is None,
    {
        let mut subject_line = to_owned("Subject: Fwd: ");
        push_str(&mut subject_line, subject);
        let body = draft_lines(to_owned("To: "), subject_line);
        let mut buf = String::new();
        push_signature(&mut buf, signature);
        push_str(&mut buf, "\n\n--- Forwarded message ---\n\n");
        push_str(&mut buf, content);
        assert(buf@ =~= signature_block(opt_str(signature)) + "\n\n--- Forwarded message ---\n\n"@ + content@);
        let mut title = to_owned("Fwd: ");
        push_str(&mut title, subject);
        let mut fwd = to_owned("Fwd: ");
        push_str(&mut fwd, subject);
        Self::blank(id, title, body, PopoutKind::Forward { original_id }, buf, String::new(), fwd)
    }

    /// Is this popout an editor (compose/reply/forward)?
    pub fn is_editor(&self) -> (r: bool)
        ensures
            r == !(self.kind is EmailView),
    {
        match self.kind {
            PopoutKind::EmailView { .. } => false,
            _ => true,
        }
    }
}

/// Manages the set of open popouts (max 2).
pub struct PopoutManager {
    /// Open popouts (max MAX_POPOUTS).
    pub popouts: Vec<Popout>,
    /// Index of the currently focused popout (if any).
    pub focused: Option<usize>,
    /// Auto-incrementing ID counter: the id the next opened popout gets.
    pub next_id: u32,
}

/// The popout with a new state.
pub open spec fn with_popout_state(p: Popout, s: PopoutState) -> Popout {
    Popout { state: s, ..p }
}

/// A consistent manager: at most two popouts, the focus inside the list,
/// and a focus whenever a popout is open.
pub open spec fn manager_wf(ps: Seq<Popout>, focused: Option<usize>) -> bool {
    &&& ps.len() <= MAX_POPOUTS
    &&& focused matches Some(i) ==> i < ps.len()
    &&& ps.len() > 0 ==> focused is Some
}

pub open spec fn id_differs(id: u32) -> spec_fn(Popout) -> bool {
    |p: Popout| p.id != id
}

/// What `close_focused` does: the focused popout is closed and the focus
/// stays on the same position, moving back when it fell off the end.
pub open spec fn spec_closed_focused(o: PopoutManager, n: PopoutManager) -> bool {
    &&& match o.focused {
        Some(idx) => if idx < o.popouts@.len() {
            &&& n.popouts@ == o.popouts@.filter(id_differs(o.popouts@[idx as int].id))
            &&& n.focused == if n.popouts@.len() == 0 {
                None
            } else if idx >= n.popouts@.len() {
                Some((n.popouts@.len() - 1) as usize)
            } else {
                Some(idx)
            }
        } else {
            n.popouts == o.popouts && n.focused == o.focused
        },
        None => n.popouts == o.popouts && n.focused == o.focused,
    }
    &&& n.next_id == o.next_id
}

/// What `switch_focus` does: with two popouts the focus moves to the
/// other one.
pub open spec fn spec_switched_focus(o: PopoutManager, n: PopoutManager) -> bool {
    &&& n.popouts == o.popouts
    &&& n.next_id == o.next_id
    &&& n.focused == if o.popouts@.len() <= 1 {
        o.focused
    } else if o.focused == Some(0usize) {
        Some(1usize)
    } else {
        Some(0usize)
    }
}

/// What `toggle_maximize` does: the focused popout goes from normal to
/// maximized, and otherwise back to normal.
pub open spec fn spec_toggled_maximize(o: PopoutManager, n: PopoutManager) -> bool {
    &&& n.focused == o.focused
    &&& n.next_id == o.next_id
    &&& match o.focused {
        Some(i) => if i < o.popouts@.len() {
            n.popouts@ == o.popouts@.update(
                i as int,
                with_popout_state(
                    o.popouts@[i as int],
                    if o.popouts@[i as int].state == PopoutState::Normal {
                        PopoutState::Maximized
                    } else {
                        PopoutState::Normal
                    },
                ),
            )
        } else {
            n.popouts == o.popouts
        },
        None => n.popouts == o.popouts,
    }
}

/// What `minimize_focused` does.
pub open spec fn spec_minimized_focused(o: PopoutManager, n: PopoutManager) -> bool {
    &&& n.focused == o.focused
    &&& n.next_id == o.next_id
    &&& match o.focused {
        Some(i) => if i < o.popouts@.len() {
            n.popouts@ == o.popouts@.update(
                i as int,
                with_popout_state(o.popouts@[i as int], PopoutState::Minimized),
            )
        } else {
            n.popouts == o.popouts
        },
        None => n.popouts == o.popouts,
    }
}

impl PopoutManager {
    pub fn new() -> (r: Self)
        ensures
            r.popouts@.len() == 0,
            r.focused is None,
            r.next_id == 0,
    {
        PopoutManager { popouts: Vec::new(), focused: None, next_id: 0 }
    }

    /// Open a new popout under a fresh id. If at capacity, closes the
    /// oldest one first. Returns the id.
    pub fn open(&mut self, popout: Popout) -> (r: u32)
        requires
            old(self).next_id < u32::MAX,
        ensures
            r == old(self).next_id,
            final(self).next_id == r + 1,
            final(self).popouts@ == (if old(self).popouts@.len() >= MAX_POPOUTS {
                old(self).popouts@.drop_first()
            } else {
                old(self).popouts@
            }).push(Popout { id: r, ..popout }),
            final(self).focused == Some((final(self).popouts@.len() - 1) as usize),
            manager_wf(old(self).popouts@, old(self).focused) ==> manager_wf(
                final(self).popouts@,
                final(self).focused,
            ),
    {
        let id = self.next_id;
        self.next_id = self.next_id + 1;
        let mut popout = popout;
        popout.id = id;
        if self.popouts.len() >= MAX_POPOUTS {
            self.popouts.remove(0);
        }
        self.popouts.push(popout);
        self.focused = Some(self.popouts.len() - 1);
        id
    }

    /// Close a popout by id.
    pub fn close(&mut self, id: u32)
        ensures
            final(self).popouts@ == old(self).popouts@.filter(id_differs(id)),
            final(self).focused == if final(self).popouts@.len() == 0 {
                None
            } else {
                match old(self).focused {
                    Some(f) => if f >= final(self).popouts@.len() {
                        Some((final(self).popouts@.len() - 1) as usize)
                    } else {
                        Some(f)
                    },
                    None => None,
                }
            },
            final(self).next_id == old(self).next_id,
    {
        let mut rest: Vec<Popout> = Vec::new();
        std::mem::swap(&mut rest, &mut self.popouts);
        let ghost all = rest@;
        let total = rest.len();
        let mut kept: Vec<Popout> = Vec::new();
        let mut i: usize = 0;
        proof {
            reveal(Seq::filter);
        }
        while rest.len() > 0
            invariant
                i <= all.len(),
                total == all.len(),
                rest@ == all.skip(i as int),
                kept@ == all.take(i as int).filter(id_differs(id)),
            decreases rest@.len(),
        {
            proof {
                reveal(Seq::filter);
            }
            assert(all.take(i as int + 1).drop_last() =~= all.take(i as int));
            let p = rest.remove(0);
            assert(p == all[i as int]);
            if p.id != id {
                kept.push(p);
            }
            assert(rest@ =~= all.skip(i as int + 1));
            i = i + 1;
        }
        assert(all.take(i as int) =~= all);
        self.popouts = kept;
        if self.popouts.len() == 0 {
            self.focused = None;
        } else {
            match self.focused {
                Some(f) => if f >= self.popouts.len() {
                    self.focused = Some(self.popouts.len() - 1);
                },
                None => {},
            }
        }
    }

    /// Close the focused popout.
    pub fn close_focused(&mut self)
        ensures
            spec_closed_focused(*old(self), *final(self)),
            manager_wf(old(self).popouts@, old(self).focused) ==> manager_wf(
                final(self).popouts@,
                final(self).focused,
            ),
    {
        match self.focused {
            Some(idx) => if idx < self.popouts.len() {
                let id = self.popouts[idx].id;
                proof {
                    self.popouts@.lemma_filter_len(id_differs(id));
                }
                self.close(id);
            },
            None => {},
        }
    }

    /// Switch focus to the other popout.
    pub fn switch_focus(&mut self)
        ensures
            spec_switched_focus(*old(self), *final(self)),
            manager_wf(old(self).popouts@, old(self).focused) ==> manager_wf(
                final(self).popouts@,
                final(self).focused,
            ),
    {
        if self.popouts.len() <= 1 {
            return;
        }
        self.focused = Some(
            match self.focused {
                Some(0) => 1,
                _ => 0,
            },
        );
    }

    /// Sets the state of popout `idx`.
    fn set_state(&mut self, idx: usize, s: PopoutState)
        requires
            idx < old(self).popouts@.len(),
        ensures
            final(self).popouts@ == old(self).popouts@.update(
                idx as int,
                with_popout_state(old(self).popouts@[idx as int], s),
            ),
            final(self).focused == old(self).focused,
            final(self).next_id == old(self).next_id,
    {
        let mut p = self.popouts.remove(idx);
        p.state = s;
        self.popouts.insert(idx, p);
        assert(self.popouts@ =~= old(self).popouts@.update(
            idx as int,
            with_popout_state(old(self).popouts@[idx as int], s),
        ));
    }

    /// Toggle the focused popout's state between Normal and Maximized
    /// (a minimized one comes back to Normal).
    pub fn toggle_maximize(&mut self)
        ensures
            spec_toggled_maximize(*old(self), *final(self)),
            manager_wf(old(self).popouts@, old(self).focused) ==> manager_wf(
                final(self).popouts@,
                final(self).focused,
            ),
    {
        match self.focused {
            Some(idx) => if idx < self.popouts.len() {
                let s = match self.popouts[idx].state {
                    PopoutState::Normal => PopoutState::Maximized,
                    PopoutState::Maximized => PopoutState::Normal,
                    PopoutState::Minimized => PopoutState::Normal,
                };
                self.set_state(idx, s);
            },
            None => {},
        }
    }

    /// Minimize the focused popout.
    pub fn minimize_focused(&mut self)
        ensures
            spec_minimized_focused(*old(self), *final(self)),
            manager_wf(old(self).popouts@, old(self).focused) ==> manager_wf(
                final(self).popouts@,
                final(self).focused,
            ),
    {
        match self.focused {
            Some(idx) => if idx < self.popouts.len() {
                self.set_state(idx, PopoutState::Minimized);
            },
            None => {},
        }
    }

    /// Get the focused popout (if any).
    pub fn focused_popout(&self) -> (r: Option<&Popout>)
        ensures
            match self.focused {
                Some(i) => if i < self.popouts@.len() {
                    r matches Some(p) && *p == self.popouts@[i as int]
                } else {
                    r is None
                },
                None => r is None,
            },
    {
        match self.focused {
            Some(i) => if i < self.popouts.len() {
                Some(&self.popouts[i])
            } else {
                None
            },
            None => None,
        }
    }

    /// The focused popout, to change in place; what is written through it
    /// is what the manager holds afterwards.
    pub fn focused_popout_mut(&mut self) -> (r: Option<&mut Popout>)
        ensures
            final(self).focused == old(self).focused,
            final(self).next_id == old(self).next_id,
            match old(self).focused {
                Some(i) => if i < old(self).popouts@.len() {
                    r matches Some(p) && *p == old(self).popouts@[i as int] && final(self).popouts@
                        == old(self).popouts@.update(i as int, *final(p))
                } else {
                    r is None && final(self).popouts@ == old(self).popouts@
                },
                None => r is None && final(self).popouts@ == old(self).popouts@,
            },
    {
        match self.focused {
            Some(i) => if i < self.popouts.len() {
                Some(&mut self.popouts[i])
            } else {
                None
            },
            None => None,
        }
    }

    /// Are there any visible (non-minimized) popouts?
    pub fn has_visible(&self) -> (r: bool)
        ensures
            r == exists|i: int| 0 <= i < self.popouts@.len() && #[trigger] self.popouts@[i].state != PopoutState::Minimized,
    {
        let mut i: usize = 0;
        while i < self.popouts.len()
            invariant
                i <= self.popouts@.len(),
                forall|j: int| 0 <= j < i ==> #[trigger] self.popouts@[j].state == PopoutState::Minimized,
            decreases self.popouts@.len() - i,
        {
            if self.popouts[i].state != PopoutState::Minimized {
                return true;
            }
            i = i + 1;
        }
        false
    }

    /// Is any popout maximized?
    pub fn has_maximized(&self) -> (r: bool)
        ensures
            r == exists|i: int| 0 <= i < self.popouts@.len() && #[trigger] self.popouts@[i].state == PopoutState::Maximized,
    {
        let mut i: usize = 0;
        while i < self.popouts.len()
            invariant
                i <= self.popouts@.len(),
                forall|j: int| 0 <= j < i ==> #[trigger] self.popouts@[j].state != PopoutState::Maximized,
            decreases self.popouts@.len() - i,
        {
            if self.popouts[i].state == PopoutState::Maximized {
                return true;
            }
            i = i + 1;
        }
        false
    }

    /// The popouts that are shown (not minimized), in order.
    pub fn visible_popouts(&self) -> (r: Vec<&Popout>)
        ensures
            r@.map_values(|p: &Popout| *p) == self.popouts@.filter(|p: Popout| p.state != PopoutState::Minimized),
    {
        proof {
            reveal(Seq::filter);
        }
        let ghost pred = |p: Popout| p.state != PopoutState::Minimized;
        let mut out: Vec<&Popout> = Vec::new();
        let mut i: usize = 0;
        while i < self.popouts.len()
            invariant
                i <= self.popouts@.len(),
                pred == (|p: Popout| p.state != PopoutState::Minimized),
                out@.map_values(|p: &Popout| *p) == self.popouts@.take(i as int).filter(pred),
            decreases self.popouts@.len() - i,
        {
            proof {
                reveal(Seq::filter);
            }
            assert(self.popouts@.take(i as int + 1).drop_last() =~= self.popouts@.take(i as int));
            let ghost before = out@;
            if self.popouts[i].state != PopoutState::Minimized {
                out.push(&self.popouts[i]);
                assert(out@.map_values(|p: &Popout| *p) =~= before.map_values(|p: &Popout| *p).push(self.popouts@[i as int]));
            }
            i = i + 1;
        }
        assert(self.popouts@.take(i as int) =~= self.popouts@);
        out
    }

    /// The minimized popouts (for the tab bar), in order.
    pub fn minimized_popouts(&self) -> (r: Vec<&Popout>)
        ensures
            r@.map_values(|p: &Popout| *p) == self.popouts@.filter(|p: Popout| p.state == PopoutState::Minimized),
    {
        proof {
            reveal(Seq::filter);
        }
        let ghost pred = |p: Popout| p.state == PopoutState::Minimized;
        let mut out: Vec<&Popout> = Vec::new();
        let mut i: usize = 0;
        while i < self.popouts.len()
            invariant
                i <= self.popouts@.len(),
                pred == (|p: Popout| p.state == PopoutState::Minimized),
                out@.map_values(|p: &Popout| *p) == self.popouts@.take(i as int).filter(pred),
            decreases self.popouts@.len() - i,
        {
            proof {
                reveal(Seq::filter);
            }
            assert(self.popouts@.take(i as int + 1).drop_last() =~= self.popouts@.take(i as int));
            let ghost before = out@;
            if self.popouts[i].state == PopoutState::Minimized {
                out.push(&self.popouts[i]);
                assert(out@.map_values(|p: &Popout| *p) =~= before.map_values(|p: &Popout| *p).push(self.popouts@[i as int]));
            }
            i = i + 1;
        }
        assert(self.popouts@.take(i as int) =~= self.popouts@);
        out
    }
}

/// Closing keeps the manager consistent: at most two popouts, the focus
/// inside the list, and a focus whenever one is open.
pub proof fn law_close_keeps_manager_wf(ps: Seq<Popout>, focused: Option<usize>, id: u32)
    requires
        manager_wf(ps, focused),
    ensures
        ({
            let kept = ps.filter(id_differs(id));
            let f = if kept.len() == 0 {
                None
            } else {
                match focused {
                    Some(f) => if f >= kept.len() {
                        Some((kept.len() - 1) as usize)
                    } else {
                        Some(f)
                    },
                    None => None::<usize>,
                }
            };
            manager_wf(kept, f)
        }),
{
    ps.lemma_filter_len(id_differs(id));
}

} // verus!
