//! Text display helpers shared by every output path.
//!
//! Every path that shows server-controlled content passes it through
//! [`sanitize_display`] first, so that no escape sequence or control
//! character reaches the terminal.

use vstd::prelude::*;

use crate::strings::{chars_of, push_char, to_owned};

verus! {

/// Whether `c` lies in the C1 control range U+0080..=U+009F.
pub open spec fn spec_is_c1(c: char) -> bool {
    0x80 <= (c as u32) && (c as u32) <= 0x9f
}

/// The characters that survive sanitisation: TAB, LF and every printable
/// character (at least U+0020, not DEL, not a C1 control).
pub open spec fn keep_for_display(c: char) -> bool {
    c == '\t' || c == '\n' || ((c as u32) >= 0x20 && c != '\x7F' && !spec_is_c1(c))
}

/// Whether `c` is a C1 control character.
pub fn is_c1_control(c: char) -> (r: bool)
    ensures
        r == spec_is_c1(c),
{
    let u = c as u32;
    0x80 <= u && u <= 0x9f
}

fn keep_char(c: char) -> (r: bool)
    ensures
        r == keep_for_display(c),
{
    c == '\t' || c == '\n' || ((c as u32) >= 0x20 && c != '\x7F' && !is_c1_control(c))
}

/// The characters of a text that may be shown, in their order.
pub open spec fn displayable(s: Seq<char>) -> Seq<char> {
    s.filter(|c: char| keep_for_display(c))
}

/// Strip ANSI escape sequences and C0/C1 control characters: only TAB, LF
/// and printable characters remain, in their original order.
pub fn sanitize_display(input: &str) -> (r: String)
    ensures
        r@ == displayable(input@),
{
    let cs = chars_of(input);
    let ghost keep = |c: char| keep_for_display(c);
    let mut out = String::new();
    let mut i: usize = 0;
    while i < cs.len()
        invariant
            i <= cs.len(),
            cs@ == input@,
            keep == (|c: char| keep_for_display(c)),
            out@ == cs@.take(i as int).filter(keep),
        decreases cs.len() - i,
    {
        let c = cs[i];
        proof {
            assert(cs@.take(i as int + 1) =~= cs@.take(i as int).push(c));
            cs@.take(i as int).lemma_filter_push(c, keep);
        }
        if keep_char(c) {
            push_char(&mut out, c);
        }
        assert(out@ == cs@.take(i as int + 1).filter(keep));
        i = i + 1;
    }
    assert(cs@.take(cs.len() as int) =~= cs@);
    out
}

/// The text `s` cut to at most `max_len` characters: unchanged when it
/// fits, else its first `max_len - 1` characters (saturating) followed by
/// an ellipsis.
pub open spec fn spec_truncate(s: Seq<char>, max_len: nat) -> Seq<char> {
    if s.len() <= max_len {
        s
    } else {
        s.take(if max_len == 0 { 0 } else { max_len - 1 }).push('…')
    }
}

/// Truncate a string to `max_len` characters, appending "…" if truncated.
pub fn truncate_str(s: &str, max_len: usize) -> (r: String)
    ensures
        r@ == spec_truncate(s@, max_len as nat),
{
    let cs = chars_of(s);
    let keep: usize = if cs.len() <= max_len {
        cs.len()
    } else if max_len == 0 {
        0
    } else {
        max_len - 1
    };
    let mut out = String::new();
    let mut i: usize = 0;
    while i < keep
        invariant
            keep <= cs.len(),
            i <= keep,
            cs@ == s@,
            out@ == cs@.take(i as int),
        decreases keep - i,
    {
        push_char(&mut out, cs[i]);
        assert(cs@.take(i as int + 1) =~= cs@.take(i as int).push(cs@[i as int]));
        i = i + 1;
    }
    if cs.len() > max_len {
        push_char(&mut out, '…');
    } else {
        assert(cs@.take(keep as int) =~= cs@);
    }
    out
}

/// A title cut to fit a tab of `max_len` bytes: unchanged when its UTF-8
/// length `bytes` is at most `max_len`, else its first `max_len - 1`
/// characters (all of them when it has fewer) followed by an ellipsis.
pub open spec fn spec_truncate_title(s: Seq<char>, bytes: int, max_len: int) -> Seq<char> {
    if bytes <= max_len {
        s
    } else if max_len - 1 < s.len() {
        s.take(max_len - 1).push('…')
    } else {
        s.push('…')
    }
}

/// Cut a popout title for the minimized tab bar. The limit is on the
/// UTF-8 length; a cut title keeps `max_len - 1` characters and ends in
/// "…". A limit of 0 is only meaningful for an empty title.
pub fn truncate_title(s: &str, max_len: usize) -> (r: String)
    requires
        max_len > 0 || s.len() == 0,
    ensures
        r@ == spec_truncate_title(s@, s.len() as int, max_len as int),
{
    if s.len() <= max_len {
        return to_owned(s);
    }
    let cs = chars_of(s);
    let keep: usize = if max_len - 1 < cs.len() {
        max_len - 1
    } else {
        cs.len()
    };
    let mut out = String::new();
    let mut i: usize = 0;
    while i < keep
        invariant
            keep <= cs.len(),
            i <= keep,
            cs@ == s@,
            out@ == cs@.take(i as int),
        decreases keep - i,
    {
        push_char(&mut out, cs[i]);
        assert(cs@.take(i as int + 1) =~= cs@.take(i as int).push(cs@[i as int]));
        i = i + 1;
    }
    if keep == cs.len() {
        assert(cs@.take(keep as int) =~= cs@);
    }
    push_char(&mut out, '…');
    out
}

/// Sanitised text holds only TAB, LF and printable characters; in
/// particular no ESC, so no escape sequence can start in it.
pub proof fn law_sanitized_text_is_displayable(s: Seq<char>)
    ensures
        forall|i: int| 0 <= i < displayable(s).len() ==> keep_for_display(#[trigger] displayable(s)[i]),
        !displayable(s).contains('\x1b'),
{
    assert forall|i: int| 0 <= i < displayable(s).len() implies keep_for_display(#[trigger] displayable(s)[i]) by {
        s.lemma_filter_pred(|c: char| keep_for_display(c), i);
    }
}

/// Sanitising sanitised text changes nothing.
pub proof fn law_sanitize_idempotent(s: Seq<char>)
    ensures
        displayable(displayable(s)) == displayable(s),
    decreases s.len(),
{
    reveal(Seq::filter);
    if s.len() > 0 {
        law_sanitize_idempotent(s.drop_last());
        let d = displayable(s.drop_last());
        if keep_for_display(s.last()) {
            assert(d.push(s.last()).drop_last() =~= d);
            assert(d.push(s.last()).last() == s.last());
        }
    }
}

/// A cut text is no longer than the limit, whenever the limit is at
/// least one character.
pub proof fn law_truncated_fits(s: Seq<char>, max_len: nat)
    requires
        max_len >= 1,
    ensures
        spec_truncate(s, max_len).len() <= max_len,
        s.len() <= max_len ==> spec_truncate(s, max_len) == s,
{
}

} // verus!
