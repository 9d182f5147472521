//! Small string primitives of the standard library that the rest of the
//! crate builds on, each with the contract that its documentation gives.

use vstd::prelude::*;

verus! {

/// Appends one character (`String::push`).
#[verifier::external_body]
pub(crate) fn push_char(s: &mut String, c: char)
    ensures
        final(s)@ == old(s)@.push(c),
{
    s.push(c);
}

/// Removes the last character (`String::pop`).
#[verifier::external_body]
pub(crate) fn pop_char(s: &mut String) -> (r: Option<char>)
    ensures
        old(s)@.len() == 0 ==> r is None && final(s)@ == old(s)@,
        old(s)@.len() > 0 ==> r == Some(old(s)@.last()) && final(s)@ == old(s)@.drop_last(),
{
    s.pop()
}

/// Appends a string slice (`String::push_str`).
#[verifier::external_body]
pub(crate) fn push_str(s: &mut String, t: &str)
    ensures
        final(s)@ == old(s)@ + t@,
{
    s.push_str(t);
}

/// Converts a string slice into an owned string (`str::to_string`).
#[verifier::external_body]
pub(crate) fn to_owned(t: &str) -> (r: String)
    ensures
        r@ == t@,
{
    t.to_string()
}

/// Compares two string slices (`<str as PartialEq>::eq`).
#[verifier::external_body]
pub(crate) fn str_eq(a: &str, b: &str) -> (r: bool)
    ensures
        r == (a@ == b@),
{
    a == b
}

/// Builds a string from a sequence of characters, one `String::push` each.
pub fn string_from_chars(cs: &Vec<char>) -> (r: String)
    ensures
        r@ == cs@,
{
    let mut r = String::new();
    let mut i: usize = 0;
    while i < cs.len()
        invariant
            i <= cs.len(),
            r@ == cs@.take(i as int),
        decreases cs.len() - i,
    {
        push_char(&mut r, cs[i]);
        assert(cs@.take(i as int + 1) =~= cs@.take(i as int).push(cs@[i as int]));
        i = i + 1;
    }
    assert(cs@.take(cs.len() as int) =~= cs@);
    r
}

/// The characters of a string slice, in order.
pub fn chars_of(s: &str) -> (r: Vec<char>)
    ensures
        r@ == s@,
{
    let n = s.unicode_len();
    let mut r: Vec<char> = Vec::new();
    let mut i: usize = 0;
    while i < n
        invariant
            n == s@.len(),
            i <= n,
            r@ == s@.take(i as int),
        decreases n - i,
    {
        let c = s.get_char(i);
        r.push(c);
        assert(s@.take(i as int + 1) =~= s@.take(i as int).push(c));
        i = i + 1;
    }
    assert(s@.take(n as int) =~= s@);
    r
}

/// Width of a character in UTF-8.
pub open spec fn utf8_width(c: char) -> int {
    if (c as u32) < 0x80 {
        1
    } else if (c as u32) < 0x800 {
        2
    } else if (c as u32) < 0x10000 {
        3
    } else {
        4
    }
}

/// `str::get(..n)`: the characters of the first `n` bytes, when `n` falls
/// on a character boundary within the string.
pub open spec fn byte_prefix(s: Seq<char>, n: int) -> Option<Seq<char>>
    decreases s.len(),
{
    if n == 0 {
        Some(Seq::<char>::empty())
    } else if s.len() == 0 || n < 0 || utf8_width(s[0]) > n {
        None
    } else {
        match byte_prefix(s.drop_first(), n - utf8_width(s[0])) {
            Some(p) => Some(seq![s[0]] + p),
            None => None,
        }
    }
}

pub fn utf8_len(c: char) -> (r: usize)
    ensures
        r == utf8_width(c),
{
    let u = c as u32;
    if u < 0x80 { 1 } else if u < 0x800 { 2 } else if u < 0x10000 { 3 } else { 4 }
}

/// The characters of the first `n` bytes of `cs`, as `str::get(..n)`.
pub fn prefix_bytes(cs: &Vec<char>, from: usize, n: usize) -> (r: Option<Vec<char>>)
    requires
        from <= cs.len(),
    ensures
        r matches Some(v) ==> byte_prefix(cs@.skip(from as int), n as int) == Some(v@),
        r is None ==> byte_prefix(cs@.skip(from as int), n as int) is None,
    decreases cs.len() - from,
{
    if n == 0 {
        return Some(Vec::new());
    }
    if from == cs.len() {
        return None;
    }
    let w = utf8_len(cs[from]);
    assert(cs@.skip(from as int)[0] == cs@[from as int]);
    if w > n {
        return None;
    }
    assert(cs@.skip(from as int).drop_first() =~= cs@.skip(from + 1));
    match prefix_bytes(cs, from + 1, n - w) {
        None => None,
        Some(mut v) => {
            v.insert(0, cs[from]);
            assert(v@ =~= seq![cs@[from as int]] + v@.drop_first());
            Some(v)
        },
    }
}


/// A byte prefix is a prefix of the characters.
pub proof fn lemma_byte_prefix_is_take(s: Seq<char>, n: int)
    ensures
        byte_prefix(s, n) matches Some(p) ==> p.len() <= s.len() && p == s.take(p.len() as int),
    decreases s.len(),
{
    if n != 0 && !(s.len() == 0 || n < 0 || utf8_width(s[0]) > n) {
        lemma_byte_prefix_is_take(s.drop_first(), n - utf8_width(s[0]));
        if byte_prefix(s.drop_first(), n - utf8_width(s[0])) is Some {
            let q = byte_prefix(s.drop_first(), n - utf8_width(s[0]))->0;
            assert(seq![s[0]] + q =~= s.take(q.len() as int + 1));
        }
    }
    if n == 0 {
        assert(Seq::<char>::empty() =~= s.take(0));
    }
}

/// `str::get(a..b)`: the characters between byte offsets `a` and `b`, when
/// both fall on character boundaries within the string and `a <= b`.
pub open spec fn byte_slice(s: Seq<char>, a: int, b: int) -> Option<Seq<char>> {
    match (byte_prefix(s, a), byte_prefix(s, b)) {
        (Some(p), Some(q)) => if a <= b {
            Some(q.skip(p.len() as int))
        } else {
            None
        },
        _ => None,
    }
}

/// `str::get(a..b)` on byte offsets.
pub fn str_get(s: &str, a: usize, b: usize) -> (r: Option<&str>)
    ensures
        r matches Some(t) ==> byte_slice(s@, a as int, b as int) == Some(t@),
        r is None ==> byte_slice(s@, a as int, b as int) is None,
{
    let cs = chars_of(s);
    let p = prefix_bytes(&cs, 0, a);
    let q = prefix_bytes(&cs, 0, b);
    assert(cs@.skip(0) =~= s@);
    proof {
        lemma_byte_prefix_is_take(s@, a as int);
        lemma_byte_prefix_is_take(s@, b as int);
    }
    match (p, q) {
        (Some(p), Some(q)) => {
            if a <= b {
                if p.len() <= q.len() {
                    let t = s.substring_char(p.len(), q.len());
                    assert(t@ =~= q@.skip(p@.len() as int));
                    Some(t)
                } else {
                    proof {
                        lemma_byte_prefix_monotone(s@, a as int, b as int);
                    }
                    None
                }
            } else {
                None
            }
        },
        _ => None,
    }
}

/// A longer byte prefix has at least as many characters.
proof fn lemma_byte_prefix_monotone(s: Seq<char>, a: int, b: int)
    requires
        a <= b,
        byte_prefix(s, a) is Some,
        byte_prefix(s, b) is Some,
    ensures
        byte_prefix(s, a)->0.len() <= byte_prefix(s, b)->0.len(),
    decreases s.len(),
{
    if a != 0 && b != 0 && s.len() > 0 {
        lemma_byte_prefix_monotone(s.drop_first(), a - utf8_width(s[0]), b - utf8_width(s[0]));
    }
}

/// Lexicographic order of character sequences by code point, which is the
/// order of `String`'s `Ord` (UTF-8 bytes compare as their code points do).
pub open spec fn seq_lt(a: Seq<char>, b: Seq<char>) -> bool
    decreases a.len(),
{
    if a.len() == 0 {
        b.len() > 0
    } else if b.len() == 0 {
        false
    } else if a[0] != b[0] {
        (a[0] as u32) < (b[0] as u32)
    } else {
        seq_lt(a.drop_first(), b.drop_first())
    }
}

/// Code-point lexicographic `<` on two strings.
pub fn str_less(a: &str, b: &str) -> (r: bool)
    ensures
        r == seq_lt(a@, b@),
{
    let x = chars_of(a);
    let y = chars_of(b);
    let mut i: usize = 0;
    assert(x@.skip(0) =~= x@);
    assert(y@.skip(0) =~= y@);
    while i < x.len() && i < y.len() && x[i] == y[i]
        invariant
            i <= x@.len(),
            i <= y@.len(),
            seq_lt(a@, b@) == seq_lt(x@.skip(i as int), y@.skip(i as int)),
            x@ == a@,
            y@ == b@,
        decreases x@.len() - i,
    {
        assert(x@.skip(i as int).drop_first() =~= x@.skip(i as int + 1));
        assert(y@.skip(i as int).drop_first() =~= y@.skip(i as int + 1));
        i = i + 1;
    }
    if i == x.len() {
        i < y.len()
    } else if i == y.len() {
        false
    } else {
        (x[i] as u32) < (y[i] as u32)
    }
}

/// What `str::to_lowercase` gives for a text (Unicode lowercase mapping).
pub uninterp spec fn lowercase(s: Seq<char>) -> Seq<char>;

/// Lowercases a string (`str::to_lowercase`); the contract names the
/// result only: it is `lowercase` of the input text.
#[verifier::external_body]
pub(crate) fn to_lowercase(s: &str) -> (r: String)
    ensures
        r@ == lowercase(s@),
{
    s.to_lowercase()
}

/// `needle` occurs in `hay` as a contiguous run.
pub open spec fn contains_seq(hay: Seq<char>, needle: Seq<char>) -> bool {
    exists|i: int| 0 <= i && i + needle.len() <= hay.len() && #[trigger] hay.subrange(i, i + needle.len()) == needle
}

/// Whether `n` occurs in `h` at position `i`.
fn matches_at(h: &Vec<char>, n: &Vec<char>, i: usize) -> (r: bool)
    requires
        i + n@.len() <= h@.len(),
    ensures
        r == (h@.subrange(i as int, i + n@.len()) == n@),
{
    let hl = h.len();
    let mut j: usize = 0;
    while j < n.len()
        invariant
            i + n@.len() <= h@.len(),
            hl == h@.len(),
            j <= n@.len(),
            forall|x: int| 0 <= x < j ==> h@[i + x] == n@[x],
        decreases n@.len() - j,
    {
        if h[i + j] != n[j] {
            assert(h@.subrange(i as int, i + n@.len())[j as int] != n@[j as int]);
            return false;
        }
        j = j + 1;
    }
    assert(h@.subrange(i as int, i + n@.len()) =~= n@);
    true
}

/// Whether `needle` occurs in `hay` (`str::contains` with a string pattern).
pub fn str_contains(hay: &str, needle: &str) -> (r: bool)
    ensures
        r == contains_seq(hay@, needle@),
{
    let h = chars_of(hay);
    let n = chars_of(needle);
    if n.len() == 0 {
        assert(hay@.subrange(0, 0int + needle@.len()) =~= needle@);
        return true;
    }
    if n.len() > h.len() {
        return false;
    }
    let last = h.len() - n.len();
    let mut i: usize = 0;
    while i <= last
        invariant
            h@ == hay@,
            n@ == needle@,
            1 <= n@.len() <= h@.len(),
            last == h@.len() - n@.len(),
            last < usize::MAX,
            i <= last + 1,
            forall|k: int| 0 <= k < i ==> #[trigger] h@.subrange(k, k + n@.len()) != n@,
        decreases last + 1 - i,
    {
        if matches_at(&h, &n, i) {
            return true;
        }
        i = i + 1;
    }
    assert forall|k: int| 0 <= k && k + n@.len() <= h@.len() implies #[trigger] h@.subrange(
        k,
        k + n@.len(),
    ) != n@ by {
        assert(k < i);
    }
    false
}

/// Unicode White_Space (`char::is_whitespace`), what `str::trim` and
/// `str::split_whitespace` go by.
pub open spec fn is_whitespace(c: char) -> bool {
    let u = c as u32;
    (0x9 <= u && u <= 0xD) || u == 0x20 || u == 0x85 || u == 0xA0 || u == 0x1680 || (0x2000 <= u
        && u <= 0x200A) || u == 0x2028 || u == 0x2029 || u == 0x202F || u == 0x205F || u == 0x3000
}

pub fn char_is_whitespace(c: char) -> (r: bool)
    ensures
        r == is_whitespace(c),
{
    let u = c as u32;
    (0x9 <= u && u <= 0xD) || u == 0x20 || u == 0x85 || u == 0xA0 || u == 0x1680 || (0x2000 <= u
        && u <= 0x200A) || u == 0x2028 || u == 0x2029 || u == 0x202F || u == 0x205F || u == 0x3000
}

/// `s` without leading whitespace.
pub open spec fn trim_start_ws(s: Seq<char>) -> Seq<char>
    decreases s.len(),
{
    if s.len() > 0 && is_whitespace(s[0]) {
        trim_start_ws(s.drop_first())
    } else {
        s
    }
}

/// `s` without trailing whitespace.
pub open spec fn trim_end_ws(s: Seq<char>) -> Seq<char>
    decreases s.len(),
{
    if s.len() > 0 && is_whitespace(s.last()) {
        trim_end_ws(s.drop_last())
    } else {
        s
    }
}

/// `str::trim`.
pub open spec fn trim_ws(s: Seq<char>) -> Seq<char> {
    trim_end_ws(trim_start_ws(s))
}

/// `str::trim`: the slice without leading and trailing whitespace.
pub fn str_trim(s: &str) -> (r: &str)
    ensures
        r@ == trim_ws(s@),
{
    let n = s.unicode_len();
    let mut start: usize = 0;
    assert(s@.skip(0) =~= s@);
    while start < n && char_is_whitespace(s.get_char(start))
        invariant
            n == s@.len(),
            start <= n,
            trim_start_ws(s@) == trim_start_ws(s@.skip(start as int)),
        decreases n - start,
    {
        assert(s@.skip(start as int).drop_first() =~= s@.skip(start + 1));
        start = start + 1;
    }
    let mut end: usize = n;
    let ghost t = s@.skip(start as int);
    assert(t.take(t.len() as int) =~= t);
    while end > start && char_is_whitespace(s.get_char(end - 1))
        invariant
            n == s@.len(),
            start <= end <= n,
            t == s@.skip(start as int),
            trim_end_ws(t) == trim_end_ws(t.take(end - start)),
        decreases end,
    {
        assert(t.take(end - start).drop_last() =~= t.take(end - start - 1));
        end = end - 1;
    }
    let r = s.substring_char(start, end);
    assert(r@ =~= t.take(end - start));
    r
}

} // verus!
