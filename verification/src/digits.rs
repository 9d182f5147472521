//! Decimal and hexadecimal text of integers, and decimal parsing, as the
//! standard library's formatting and `str::parse` produce and accept them.

use vstd::prelude::*;

use crate::strings::push_char;

verus! {

/// The ASCII digit of a value below ten.
pub open spec fn digit_char(d: nat) -> char {
    ((d + 48) as u32) as char
}

/// Decimal digits of `n`, most significant first, without leading zeros.
pub open spec fn dec(n: nat) -> Seq<char>
    decreases n,
{
    if n < 10 {
        seq![digit_char(n)]
    } else {
        dec(n / 10).push(digit_char(n % 10))
    }
}

/// `n` copies of a character.
pub open spec fn repeat(c: char, n: nat) -> Seq<char> {
    Seq::new(n, |i: int| c)
}

/// Left-pads with zeros to at least `w` characters.
pub open spec fn zero_pad(s: Seq<char>, w: nat) -> Seq<char> {
    if s.len() >= w {
        s
    } else {
        repeat('0', (w - s.len()) as nat) + s
    }
}

/// `format!("{:0w$}", n)` for a signed integer: the sign counts toward
/// the width and the zeros go between sign and digits.
pub open spec fn fmt_padded(n: int, w: nat) -> Seq<char> {
    if n < 0 {
        seq!['-'] + zero_pad(dec((-n) as nat), if w == 0 { 0 } else { (w - 1) as nat })
    } else {
        zero_pad(dec(n as nat), w)
    }
}

/// The lowercase hexadecimal digit of a value below sixteen.
pub open spec fn hex_char(d: nat) -> char {
    if d < 10 {
        digit_char(d)
    } else {
        ((d - 10 + 97) as u32) as char
    }
}

/// Lowercase hexadecimal digits of `n`, without leading zeros.
pub open spec fn hex(n: nat) -> Seq<char>
    decreases n,
{
    if n < 16 {
        seq![hex_char(n)]
    } else {
        hex(n / 16).push(hex_char(n % 16))
    }
}

/// Appends the decimal digits of `n`.
pub fn push_dec(out: &mut String, n: u64)
    ensures
        final(out)@ == old(out)@ + dec(n as nat),
    decreases n,
{
    if n >= 10 {
        push_dec(out, n / 10);
    }
    push_char(out, ((n % 10) as u8 + 48) as char);
    proof {
        assert((((n % 10) as u8 + 48) as char) == digit_char((n % 10) as nat));
        if n < 10 {
            assert(dec(n as nat) =~= seq![digit_char(n as nat)]);
        }
    }
    assert(final(out)@ =~= old(out)@ + dec(n as nat));
}

/// Appends the lowercase hexadecimal digits of `n`.
pub fn push_hex(out: &mut String, n: u64)
    ensures
        final(out)@ == old(out)@ + hex(n as nat),
    decreases n,
{
    if n >= 16 {
        push_hex(out, n / 16);
    }
    let d = (n % 16) as u8;
    let c = if d < 10 { (d + 48) as char } else { (d - 10 + 97) as char };
    push_char(out, c);
    proof {
        assert(c == hex_char((n % 16) as nat));
        if n < 16 {
            assert(hex(n as nat) =~= seq![hex_char(n as nat)]);
        }
    }
    assert(final(out)@ =~= old(out)@ + hex(n as nat));
}

fn push_zeros(out: &mut String, k: usize)
    ensures
        final(out)@ == old(out)@ + repeat('0', k as nat),
{
    let mut i: usize = 0;
    while i < k
        invariant
            i <= k,
            out@ == old(out)@ + repeat('0', i as nat),
        decreases k - i,
    {
        push_char(out, '0');
        assert(old(out)@ + repeat('0', (i + 1) as nat) =~= (old(out)@ + repeat('0', i as nat)).push('0'));
        i = i + 1;
    }
}

fn dec_len(n: u64) -> (r: usize)
    ensures
        r == dec(n as nat).len(),
    decreases n,
{
    if n < 10 {
        1
    } else {
        let k = dec_len(n / 10);
        proof {
            reveal_with_fuel(pow10, 21);
            assert(pow10(20) == 100000000000000000000nat);
            lemma_dec_small((n / 10) as nat, 20);
        }
        k + 1
    }
}

proof fn lemma_dec_small(n: nat, k: nat)
    requires
        k >= 1,
        n < pow10(k),
    ensures
        dec(n).len() <= k,
    decreases k,
{
    if n >= 10 {
        assert(k >= 2) by {
            if k == 1 {
                reveal_with_fuel(pow10, 2);
            }
        }
        assert(n / 10 < pow10((k - 1) as nat)) by {
            assert(pow10(k) == 10 * pow10((k - 1) as nat));
        }
        lemma_dec_small(n / 10, (k - 1) as nat);
    }
}

/// Ten to the power `k`.
pub open spec fn pow10(k: nat) -> nat
    decreases k,
{
    if k == 0 { 1 } else { 10 * pow10((k - 1) as nat) }
}

/// Appends `n` in decimal, zero-padded to at least `w` characters.
pub fn push_padded_u64(out: &mut String, n: u64, w: usize)
    ensures
        final(out)@ == old(out)@ + zero_pad(dec(n as nat), w as nat),
{
    let len = dec_len(n);
    if len < w {
        push_zeros(out, w - len);
    }
    push_dec(out, n);
    assert(final(out)@ =~= old(out)@ + zero_pad(dec(n as nat), w as nat));
}

/// Appends `n` in decimal like `format!("{:0w$}", n)`.
pub fn push_padded_i64(out: &mut String, n: i64, w: usize)
    ensures
        final(out)@ == old(out)@ + fmt_padded(n as int, w as nat),
{
    if n < 0 {
        push_char(out, '-');
        let mag: u64 = if n == i64::MIN { 9_223_372_036_854_775_808u64 } else { (-n) as u64 };
        push_padded_u64(out, mag, if w == 0 { 0 } else { w - 1 });
        assert(final(out)@ =~= old(out)@ + fmt_padded(n as int, w as nat));
    } else {
        push_padded_u64(out, n as u64, w);
    }
}

/// Whether `c` is an ASCII digit.
pub open spec fn is_digit(c: char) -> bool {
    '0' <= c && c <= '9'
}

/// The value of a run of ASCII digits.
pub open spec fn digits_value(s: Seq<char>) -> nat
    decreases s.len(),
{
    if s.len() == 0 {
        0
    } else {
        digits_value(s.drop_last()) * 10 + ((s.last() as u32) - 48) as nat
    }
}

/// Whether every character is an ASCII digit.
pub open spec fn all_digits(s: Seq<char>) -> bool {
    forall|i: int| 0 <= i < s.len() ==> is_digit(#[trigger] s[i])
}

/// The digits after an optional leading `+`.
pub open spec fn unsigned_body(s: Seq<char>) -> Seq<char> {
    if s.len() > 0 && s[0] == '+' { s.drop_first() } else { s }
}

/// `str::parse::<uN>`: an optional `+`, then at least one digit, with a
/// value at most `max`.
pub open spec fn parse_unsigned(s: Seq<char>, max: nat) -> Option<nat> {
    let b = unsigned_body(s);
    if b.len() > 0 && all_digits(b) && digits_value(b) <= max {
        Some(digits_value(b))
    } else {
        None
    }
}

/// `str::parse::<iN>`: an optional sign, then at least one digit, with a
/// value in `min..=max`.
pub open spec fn parse_signed(s: Seq<char>, min: int, max: int) -> Option<int> {
    if s.len() > 0 && s[0] == '-' {
        let b = s.drop_first();
        if b.len() > 0 && all_digits(b) && -(digits_value(b) as int) >= min {
            Some(-(digits_value(b) as int))
        } else {
            None
        }
    } else {
        match parse_unsigned(s, max as nat) {
            Some(v) => if max >= 0 { Some(v as int) } else { None },
            None => None,
        }
    }
}

/// The value of `cs[from..]` as digits, capped at `cap + 1`, with whether
/// all of them are digits.
fn scan_digits(cs: &Vec<char>, from: usize, cap: u64) -> (r: (bool, u64))
    requires
        from <= cs.len(),
        cap <= u32::MAX as u64 + 1,
    ensures
        r.0 == all_digits(cs@.skip(from as int)),
        r.0 ==> r.1 as int == if digits_value(cs@.skip(from as int)) <= cap {
            digits_value(cs@.skip(from as int)) as int
        } else {
            cap + 1
        },
{
    let ghost body = cs@.skip(from as int);
    let mut acc: u64 = 0;
    let mut ok = true;
    let mut i: usize = from;
    while i < cs.len()
        invariant
            from <= i <= cs.len(),
            body == cs@.skip(from as int),
            cap <= u32::MAX as u64 + 1,
            acc <= cap + 1,
            ok == all_digits(body.take(i - from)),
            ok ==> acc as int == if digits_value(body.take(i - from)) <= cap {
                digits_value(body.take(i - from)) as int
            } else {
                cap + 1
            },
        decreases cs.len() - i,
    {
        let c = cs[i];
        let ghost pre = body.take(i - from);
        assert(body.take(i - from + 1) =~= pre.push(c));
        assert(body.take(i - from + 1).drop_last() =~= pre);
        if '0' <= c && c <= '9' {
            let d = (c as u32 - 48) as u64;
            let next = acc * 10 + d;
            proof {
                if ok {
                    let v = digits_value(pre);
                    assert(digits_value(body.take(i - from + 1)) == v * 10 + d);
                    if v > cap {
                        assert(v * 10 + d > cap) by (nonlinear_arith)
                            requires v > cap, d >= 0;
                    }
                }
            }
            acc = if next > cap { cap + 1 } else { next };
        } else {
            ok = false;
            assert(!is_digit(body.take(i - from + 1)[i - from]));
        }
        i = i + 1;
    }
    assert(body.take(cs.len() - from) =~= body);
    (ok, acc)
}

/// Parses an unsigned 32-bit number the way `str::parse::<u32>` does.
pub fn parse_u32(cs: &Vec<char>) -> (r: Option<u32>)
    ensures
        r matches Some(v) ==> parse_unsigned(cs@, u32::MAX as nat) == Some(v as nat),
        r is None ==> parse_unsigned(cs@, u32::MAX as nat) is None,
{
    let from: usize = if cs.len() > 0 && cs[0] == '+' { 1 } else { 0 };
    assert(unsigned_body(cs@) =~= cs@.skip(from as int));
    if from >= cs.len() {
        return None;
    }
    let (ok, v) = scan_digits(cs, from, u32::MAX as u64);
    if ok && v <= u32::MAX as u64 {
        Some(v as u32)
    } else {
        None
    }
}

/// Parses a signed 32-bit number the way `str::parse::<i32>` does.
pub fn parse_i32(cs: &Vec<char>) -> (r: Option<i32>)
    ensures
        r matches Some(v) ==> parse_signed(cs@, i32::MIN as int, i32::MAX as int) == Some(
            v as int,
        ),
        r is None ==> parse_signed(cs@, i32::MIN as int, i32::MAX as int) is None,
{
    if cs.len() > 0 && cs[0] == '-' {
        assert(cs@.drop_first() =~= cs@.skip(1));
        if cs.len() == 1 {
            return None;
        }
        let (ok, v) = scan_digits(cs, 1, 2_147_483_648u64);
        if ok && v <= 2_147_483_648u64 {
            Some((0 - v as i64) as i32)
        } else {
            None
        }
    } else {
        match parse_u32(cs) {
            Some(v) => if v <= i32::MAX as u32 { Some(v as i32) } else { None },
            None => None,
        }
    }
}

/// Appends the decimal digits of a 128-bit number.
pub fn push_dec_u128(out: &mut String, n: u128)
    ensures
        final(out)@ == old(out)@ + dec(n as nat),
    decreases n,
{
    if n >= 10 {
        push_dec_u128(out, n / 10);
    }
    push_char(out, ((n % 10) as u8 + 48) as char);
    proof {
        assert((((n % 10) as u8 + 48) as char) == digit_char((n % 10) as nat));
        if n < 10 {
            assert(dec(n as nat) =~= seq![digit_char(n as nat)]);
        }
    }
    assert(final(out)@ =~= old(out)@ + dec(n as nat));
}

} // verus!
