//! Calendar month math: civil-date arithmetic and Monday-first month grids
//! for the calendar screen.

use vstd::prelude::*;

use crate::clock::now_unix_secs;
use crate::digits::{fmt_padded, parse_signed, parse_unsigned, parse_i32, parse_u32, push_padded_i64, zero_pad, dec, push_padded_u64};
use crate::strings::{byte_prefix, chars_of, prefix_bytes, push_char};

verus! {

/// A simple civil date.
#[derive(Debug, Clone, Copy, PartialEq, Eq, Structural)]
pub struct Date {
    pub year: i32,
    pub month: u32,
    pub day: u32,
}

/// Leap years of the proleptic Gregorian calendar.
pub open spec fn spec_is_leap(year: int) -> bool {
    year % 4 == 0 && (year % 100 != 0 || year % 400 == 0)
}

/// Length of a month; months outside 1..=12 count 30 days.
pub open spec fn spec_days_in_month(year: int, month: int) -> int {
    if month == 1 || month == 3 || month == 5 || month == 7 || month == 8 || month == 10
        || month == 12 {
        31
    } else if month == 4 || month == 6 || month == 9 || month == 11 {
        30
    } else if month == 2 {
        if spec_is_leap(year) { 29 } else { 28 }
    } else {
        30
    }
}

/// A date that names a real day of the proleptic Gregorian calendar.
pub open spec fn valid_date(d: Date) -> bool {
    1 <= d.month <= 12 && 1 <= d.day <= spec_days_in_month(d.year as int, d.month as int)
}

/// Days since 1970-01-01 of the civil date (year, month, day), with the
/// year counted from March so that the leap day ends the year.
pub open spec fn days_from_civil(y: int, m: int, d: int) -> int {
    let yy = if m <= 2 { y - 1 } else { y };
    let era = yy / 400;
    let yoe = yy - era * 400;
    let mp = (m + 9) % 12;
    let doy = (153 * mp + 2) / 5 + d - 1;
    let doe = yoe * 365 + yoe / 4 - yoe / 100 + doy;
    era * 146097 + doe - 719468
}

/// The civil date (year, month, day) of a day count since 1970-01-01.
pub open spec fn civil_from_days(n: int) -> (int, int, int) {
    let z = n + 719468;
    let era = z / 146097;
    let doe = z - era * 146097;
    let yoe = (doe - doe / 1460 + doe / 36524 - doe / 146096) / 365;
    let y = yoe + era * 400;
    let doy = doe - (365 * yoe + yoe / 4 - yoe / 100);
    let mp = (5 * doy + 2) / 153;
    let d = doy - (153 * mp + 2) / 5 + 1;
    let m = if mp < 10 { mp + 3 } else { mp - 9 };
    (if m <= 2 { y + 1 } else { y }, m, d)
}

/// Day count of a date.
pub open spec fn spec_to_days(d: Date) -> int {
    days_from_civil(d.year as int, d.month as int, d.day as int)
}

/// Whether a day count maps to a year that `i32` holds.
pub open spec fn days_in_i32_years(n: int) -> bool {
    i32::MIN <= civil_from_days(n).0 <= i32::MAX
}

/// The date of a day count (its year taken as `i32`).
pub open spec fn spec_from_days(n: int) -> Date {
    let (y, m, d) = civil_from_days(n);
    Date { year: y as i32, month: m as u32, day: d as u32 }
}

/// Weekday of a day count, Monday = 0 … Sunday = 6 (1970-01-01 was a
/// Thursday).
pub open spec fn spec_weekday(n: int) -> int {
    (n % 7 + 3) % 7
}

/// Whether a day count can be shifted inside the `i64` range that
/// `from_days` accepts.
pub open spec fn days_in_range(n: int) -> bool {
    i64::MIN <= n && n + 719468 <= i64::MAX
}

pub proof fn lemma_civil_bounds(n: int)
    ensures
        ({
            let (y, m, d) = civil_from_days(n);
            1 <= m <= 12 && 1 <= d <= 31
        }),
{
    let z = n + 719468;
    let era = z / 146097;
    let doe = z - era * 146097;
    assert(0 <= doe < 146097);
    let yoe = (doe - doe / 1460 + doe / 36524 - doe / 146096) / 365;
    assert(0 <= yoe <= 399);
    let doy = doe - (365 * yoe + yoe / 4 - yoe / 100);
    assert(0 <= doy <= 365);
    let mp = (5 * doy + 2) / 153;
    assert(0 <= mp <= 11);
    let d = doy - (153 * mp + 2) / 5 + 1;
    assert(1 <= d <= 31);
}


/// Within one era: the day of the era of a year-of-era and day-of-year
/// determines both back.
proof fn lemma_doe_inverse(yoe: int, doy: int)
    requires
        0 <= yoe <= 399,
        0 <= doy <= 364 || (doy == 365 && (yoe % 4 == 3 && (yoe % 100 != 99 || yoe == 399))),
    ensures
        ({
            let doe = yoe * 365 + yoe / 4 - yoe / 100 + doy;
            &&& 0 <= doe < 146097
            &&& (doe - doe / 1460 + doe / 36524 - doe / 146096) / 365 == yoe
        }),
{
}

/// Within a March-based year: the month offset and the day of the month
/// are recovered from the day of the year.
proof fn lemma_doy_inverse(mp: int, dd: int)
    requires
        0 <= mp <= 11,
        1 <= dd,
        mp == 0 || mp == 2 || mp == 4 || mp == 5 || mp == 7 || mp == 9 || mp == 10 ==> dd <= 31,
        mp == 1 || mp == 3 || mp == 6 || mp == 8 ==> dd <= 30,
        mp == 11 ==> dd <= 29,
    ensures
        ({
            let doy = (153 * mp + 2) / 5 + dd - 1;
            &&& (5 * doy + 2) / 153 == mp
            &&& doy - (153 * mp + 2) / 5 + 1 == dd
            &&& 0 <= doy <= 365
            &&& doy == 365 ==> mp == 11 && dd == 29
        }),
{
}

proof fn lemma_div_unique(z: int, q: int, r: int, k: int)
    requires
        k > 0,
        0 <= r < k,
        z == q * k + r,
    ensures
        z / k == q,
        z - (z / k) * k == r,
{
    vstd::arithmetic::div_mod::lemma_fundamental_div_mod_converse(z, k, q, r);
}

/// Day count of a valid date, and the date of it again.
pub proof fn lemma_from_to_days(d: Date)
    requires
        valid_date(d),
    ensures
        civil_from_days(spec_to_days(d)) == (d.year as int, d.month as int, d.day as int),
{
    let y = d.year as int;
    let m = d.month as int;
    let dd = d.day as int;
    let yy = if m <= 2 { y - 1 } else { y };
    let era = yy / 400;
    let yoe = yy - era * 400;
    assert(0 <= yoe < 400);
    let mp = (m + 9) % 12;
    assert(m <= 2 ==> mp == m + 9);
    assert(m > 2 ==> mp == m - 3);
    lemma_doy_inverse(mp, dd);
    let doy = (153 * mp + 2) / 5 + dd - 1;
    assert(doy == 365 ==> spec_is_leap(y)) by {
        if doy == 365 {
            assert(m == 2 && dd == 29);
        }
    }
    assert(spec_is_leap(yy + 1) ==> (yoe % 4 == 3 && (yoe % 100 != 99 || yoe == 399))) by {
        assert(yy + 1 == era * 400 + (yoe + 1));
        assert((yy + 1) % 4 == (yoe + 1) % 4) by (nonlinear_arith)
            requires yy + 1 == era * 400 + (yoe + 1);
        assert((yy + 1) % 100 == (yoe + 1) % 100) by (nonlinear_arith)
            requires yy + 1 == era * 400 + (yoe + 1);
        assert((yy + 1) % 400 == (yoe + 1) % 400) by (nonlinear_arith)
            requires yy + 1 == era * 400 + (yoe + 1), 0 <= yoe < 400;
    }
    lemma_doe_inverse(yoe, doy);
    let doe = yoe * 365 + yoe / 4 - yoe / 100 + doy;
    let n = era * 146097 + doe - 719468;
    assert(spec_to_days(d) == n);
    lemma_div_unique(n + 719468, era, doe, 146097);
}

/// Within one era: every day of the era falls in a year of the era, on a
/// day of that year that exists (the 366th only in a leap year).
#[verifier::rlimit(100)]
proof fn lemma_doe_split(doe: int)
    requires
        0 <= doe < 146097,
    ensures
        ({
            let yoe = (doe - doe / 1460 + doe / 36524 - doe / 146096) / 365;
            let doy = doe - (365 * yoe + yoe / 4 - yoe / 100);
            &&& 0 <= yoe <= 399
            &&& 0 <= doy <= 365
            &&& doy == 365 ==> (yoe % 4 == 3 && (yoe % 100 != 99 || yoe == 399))
        }),
{
}

/// Within a March-based year: the day of the year splits into a month
/// offset and a day that exists in that month.
proof fn lemma_doy_split(doy: int)
    requires
        0 <= doy <= 365,
    ensures
        ({
            let mp = (5 * doy + 2) / 153;
            let dd = doy - (153 * mp + 2) / 5 + 1;
            &&& 0 <= mp <= 11
            &&& 1 <= dd
            &&& mp == 0 || mp == 2 || mp == 4 || mp == 5 || mp == 7 || mp == 9 || mp == 10
                ==> dd <= 31
            &&& mp == 1 || mp == 3 || mp == 6 || mp == 8 ==> dd <= 30
            &&& mp == 11 ==> dd <= 28 || (dd == 29 && doy == 365)
        }),
{
}

/// Every day count names a valid date, whose day count it is again.
pub proof fn lemma_to_from_days(n: int)
    requires
        days_in_i32_years(n),
    ensures
        valid_date(spec_from_days(n)),
        spec_to_days(spec_from_days(n)) == n,
{
    let z = n + 719468;
    let era = z / 146097;
    let doe = z - era * 146097;
    lemma_doe_split(doe);
    let yoe = (doe - doe / 1460 + doe / 36524 - doe / 146096) / 365;
    let y = yoe + era * 400;
    let doy = doe - (365 * yoe + yoe / 4 - yoe / 100);
    lemma_doy_split(doy);
    let mp = (5 * doy + 2) / 153;
    let dd = doy - (153 * mp + 2) / 5 + 1;
    let m = if mp < 10 { mp + 3 } else { mp - 9 };
    let yr = if m <= 2 { y + 1 } else { y };
    let r = spec_from_days(n);
    assert(r.year == yr && r.month == m && r.day == dd);
    assert((m + 9) % 12 == mp);
    lemma_div_unique(y, era, yoe, 400);
    assert(doy == 365 ==> spec_is_leap(yr)) by {
        if doy == 365 {
            assert(m == 2);
            assert(yr == era * 400 + (yoe + 1));
            assert(yr % 4 == (yoe + 1) % 4) by (nonlinear_arith)
                requires yr == era * 400 + (yoe + 1);
            assert(yr % 100 == (yoe + 1) % 100) by (nonlinear_arith)
                requires yr == era * 400 + (yoe + 1);
            assert(yr % 400 == (yoe + 1) % 400) by (nonlinear_arith)
                requires yr == era * 400 + (yoe + 1), 0 <= yoe < 400;
        }
    }
}

/// Days since 1970-01-01.
pub fn to_days(d: Date) -> (r: i64)
    ensures
        r == spec_to_days(d),
{
    let y: i64 = if d.month <= 2 { d.year as i64 - 1 } else { d.year as i64 };
    // floor division by 400, done on a non-negative shift of the year
    let shifted: u64 = (y + 2_160_000_000) as u64;
    let era: i64 = (shifted / 400) as i64 - 5_400_000;
    assert(era == y as int / 400);
    let yoe: i64 = y - era * 400;
    let mp: i64 = (d.month as i64 + 9) % 12;
    let doy: i64 = (153 * mp + 2) / 5 + d.day as i64 - 1;
    let doe: i64 = yoe * 365 + yoe / 4 - yoe / 100 + doy;
    era * 146097 + doe - 719468
}

/// The date of a day count since 1970-01-01.
pub fn from_days(days: i64) -> (r: Date)
    requires
        days_in_range(days as int),
    ensures
        r == spec_from_days(days as int),
        1 <= r.month <= 12,
        1 <= r.day <= 31,
{
    proof { lemma_civil_bounds(days as int); }
    let z: i128 = days as i128 + 719468;
    // floor division by 146097, done on a non-negative shift
    let shifted: u128 = (z + 146097 * 64_000_000_000_000) as u128;
    let era: i128 = (shifted / 146097) as i128 - 64_000_000_000_000;
    assert(era == z as int / 146097);
    let doe: u64 = (z - era * 146097) as u64;
    let yoe: u64 = (doe - doe / 1460 + doe / 36524 - doe / 146096) / 365;
    let y: i128 = yoe as i128 + era * 400;
    let doy: u64 = doe - (365 * yoe + yoe / 4 - yoe / 100);
    let mp: u64 = (5 * doy + 2) / 153;
    let day: u64 = doy - (153 * mp + 2) / 5 + 1;
    let month: u64 = if mp < 10 { mp + 3 } else { mp - 9 };
    let year: i128 = if month <= 2 { y + 1 } else { y };
    Date { year: year as i32, month: month as u32, day: day as u32 }
}


/// Leap years of the proleptic Gregorian calendar.
pub fn is_leap_year(year: i32) -> (r: bool)
    ensures
        r == spec_is_leap(year as int),
{
    let y = year as i64;
    let r4 = y.checked_rem_euclid(4).unwrap();
    let r100 = y.checked_rem_euclid(100).unwrap();
    let r400 = y.checked_rem_euclid(400).unwrap();
    r4 == 0 && (r100 != 0 || r400 == 0)
}

/// Number of days in a month (30 for a month number outside 1..=12).
pub fn days_in_month(year: i32, month: u32) -> (r: u32)
    ensures
        r == spec_days_in_month(year as int, month as int),
{
    match month {
        1 | 3 | 5 | 7 | 8 | 10 | 12 => 31,
        4 | 6 | 9 | 11 => 30,
        2 => if is_leap_year(year) { 29 } else { 28 },
        _ => 30,
    }
}

/// The part before the first `-`, and what follows it when there is one.
pub open spec fn split_dash(s: Seq<char>) -> (Seq<char>, Option<Seq<char>>)
    decreases s.len(),
{
    if s.len() == 0 {
        (s, None)
    } else if s[0] == '-' {
        (Seq::<char>::empty(), Some(s.drop_first()))
    } else {
        let (a, r) = split_dash(s.drop_first());
        (seq![s[0]] + a, r)
    }
}

/// The date part of an ISO 8601 string: the first ten bytes split at `-`
/// into year, month and day, which must name a real day.
pub open spec fn spec_from_iso(s: Seq<char>) -> Option<Date> {
    match byte_prefix(s, 10) {
        None => None,
        Some(p) => {
            let (a, r1) = split_dash(p);
            match r1 {
                None => None,
                Some(r1) => {
                    let (b, r2) = split_dash(r1);
                    match r2 {
                        None => None,
                        Some(r2) => {
                            let (c, _) = split_dash(r2);
                            match (
                                parse_signed(a, i32::MIN as int, i32::MAX as int),
                                parse_unsigned(b, u32::MAX as nat),
                                parse_unsigned(c, u32::MAX as nat),
                            ) {
                                (Some(y), Some(m), Some(d)) => {
                                    if 1 <= m <= 12 && 1 <= d && d <= spec_days_in_month(y, m as int) {
                                        Some(Date { year: y as i32, month: m as u32, day: d as u32 })
                                    } else {
                                        None
                                    }
                                },
                                _ => None,
                            }
                        },
                    }
                },
            }
        },
    }
}

/// "YYYY-MM-DD" as `format!("{:04}-{:02}-{:02}")` writes it.
pub open spec fn spec_iso(d: Date) -> Seq<char> {
    fmt_padded(d.year as int, 4) + seq!['-'] + zero_pad(dec(d.month as nat), 2) + seq!['-']
        + zero_pad(dec(d.day as nat), 2)
}

/// The characters of `s` before its first `-` from position `from` on, the
/// position of that `-` (or the length), as a new vector.
fn take_segment(cs: &Vec<char>, from: usize) -> (r: (Vec<char>, usize))
    requires
        from <= cs.len(),
    ensures
        from <= r.1 <= cs.len(),
        r.0@ == cs@.subrange(from as int, r.1 as int),
        r.1 < cs.len() ==> cs@[r.1 as int] == '-',
        split_dash(cs@.skip(from as int)) == (
            r.0@,
            if r.1 < cs.len() { Some(cs@.skip(r.1 + 1)) } else { None::<Seq<char>> },
        ),
    decreases cs.len() - from,
{
    if from == cs.len() {
        assert(cs@.skip(from as int) =~= Seq::<char>::empty());
        return (Vec::new(), from);
    }
    if cs[from] == '-' {
        assert(cs@.skip(from as int).drop_first() =~= cs@.skip(from + 1));
        return (Vec::new(), from);
    }
    let (mut rest, end) = take_segment(cs, from + 1);
    assert(cs@.skip(from as int).drop_first() =~= cs@.skip(from + 1));
    rest.insert(0, cs[from]);
    assert(rest@ =~= seq![cs@[from as int]] + cs@.subrange(from + 1, end as int));
    assert(rest@ =~= cs@.subrange(from as int, end as int));
    (rest, end)
}

impl Date {
    /// Today in UTC, from the system clock: the date of the clock's day
    /// count, that is of whole days of 86400 seconds since the epoch, so
    /// of a day whose first second a `u64` count of seconds reaches.
    pub fn today() -> (r: Date)
        ensures
            exists|n: int| 0 <= n && n * 86400 <= u64::MAX && #[trigger] spec_from_days(n) == r,
    {
        let secs = now_unix_secs();
        let days = (secs / 86400) as i64;
        from_days(days)
    }

    /// Parse the date part of an ISO 8601 string ("YYYY-MM-DD...").
    pub fn from_iso(s: &str) -> (r: Option<Date>)
        ensures
            r == spec_from_iso(s@),
    {
        let all = chars_of(s);
        assert(all@.skip(0) =~= all@);
        let p = match prefix_bytes(&all, 0, 10) {
            Some(p) => p,
            None => return None,
        };
        assert(p@.skip(0) =~= p@);
        let (a, e1) = take_segment(&p, 0);
        if e1 >= p.len() {
            return None;
        }
        let (b, e2) = take_segment(&p, e1 + 1);
        if e2 >= p.len() {
            return None;
        }
        let (c, _e3) = take_segment(&p, e2 + 1);
        let year = match parse_i32(&a) { Some(v) => v, None => return None };
        let month = match parse_u32(&b) { Some(v) => v, None => return None };
        let day = match parse_u32(&c) { Some(v) => v, None => return None };
        if month < 1 || month > 12 || day < 1 || day > days_in_month(year, month) {
            return None;
        }
        Some(Date { year, month, day })
    }

    /// "YYYY-MM-DD".
    pub fn iso(&self) -> (r: String)
        ensures
            r@ == spec_iso(*self),
    {
        let mut out = String::new();
        push_padded_i64(&mut out, self.year as i64, 4);
        push_char(&mut out, '-');
        push_padded_u64(&mut out, self.month as u64, 2);
        push_char(&mut out, '-');
        push_padded_u64(&mut out, self.day as u64, 2);
        assert(out@ =~= spec_iso(*self));
        out
    }

    /// Weekday, Monday = 0 … Sunday = 6.
    pub fn weekday(&self) -> (r: u32)
        ensures
            r == spec_weekday(spec_to_days(*self)),
            r < 7,
    {
        let days = to_days(*self);
        let m = days.checked_rem_euclid(7).unwrap();
        ((m as u32) + 3) % 7
    }

    /// The date `delta` days later (earlier for a negative `delta`).
    pub fn add_days(&self, delta: i64) -> (r: Date)
        requires
            days_in_range(spec_to_days(*self) + delta),
        ensures
            r == spec_from_days(spec_to_days(*self) + delta),
    {
        from_days(to_days(*self) + delta)
    }

    /// Move by whole months, clamping the day to the target month's length.
    pub fn add_months(&self, delta: i32) -> (r: Date)
        requires
            i32::MIN <= self.year * 12 <= i32::MAX,
            self.month <= i32::MAX,
            i32::MIN <= self.year * 12 + (self.month - 1) <= i32::MAX,
            i32::MIN <= self.year * 12 + (self.month - 1) + delta <= i32::MAX,
        ensures
            ({
                let total = self.year * 12 + (self.month - 1) + delta;
                &&& r.year == total / 12
                &&& r.month == total % 12 + 1
                &&& r.day == if self.day <= spec_days_in_month(r.year as int, r.month as int) {
                    self.day as int
                } else {
                    spec_days_in_month(r.year as int, r.month as int)
                }
            }),
    {
        let total: i32 = self.year * 12 + (self.month as i32 - 1) + delta;
        let year = total.checked_div_euclid(12).unwrap();
        let month = (total.checked_rem_euclid(12).unwrap() + 1) as u32;
        let dim = days_in_month(year, month);
        let day = if self.day <= dim { self.day } else { dim };
        Date { year, month, day }
    }
}

/// The month grid cell at flat index `k` (week `k / 7`, column `k % 7`):
/// the day shown there, for a month of `dim` days starting on weekday `fw`.
pub open spec fn grid_cell(fw: int, dim: int, k: int) -> Option<u32> {
    if fw <= k < fw + dim { Some((k - fw + 1) as u32) } else { None }
}

/// A Monday-first month grid: each week is 7 optional day numbers; week
/// `w` column `c` holds day `7w + c - first + 1` when that is a day of the
/// month, where `first` is the weekday of its first day.
pub fn month_grid(year: i32, month: u32) -> (r: Vec<[Option<u32>; 7]>)
    ensures
        ({
            let fw = spec_weekday(spec_to_days(Date { year, month, day: 1 }));
            let dim = spec_days_in_month(year as int, month as int);
            &&& r@.len() == (fw + dim + 6) / 7
            &&& forall|w: int, c: int|
                0 <= w < r@.len() && 0 <= c < 7 ==> (#[trigger] r@[w]@[c]) == grid_cell(fw, dim, w * 7 + c)
        }),
{
    let first_weekday = Date { year, month, day: 1 }.weekday();
    let days = days_in_month(year, month);
    let ghost fw = first_weekday as int;
    let ghost dim = days as int;
    let mut weeks: Vec<[Option<u32>; 7]> = Vec::new();
    let mut week: [Option<u32>; 7] = [None; 7];
    let mut col: usize = first_weekday as usize;
    let mut day: u32 = 1;
    assert forall|c: int| 0 <= c < 7 implies #[trigger] week@[c] == (if c < col {
        None::<u32>
    } else {
        None::<u32>
    }) by {}
    while day <= days
        invariant
            1 <= day <= days + 1,
            days == dim,
            28 <= dim <= 31,
            0 <= fw < 7,
            col < 7,
            (weeks@.len() * 7 + col) as int == fw + day - 1,
            forall|w: int, c: int|
                0 <= w < weeks@.len() && 0 <= c < 7 ==> (#[trigger] weeks@[w]@[c]) == grid_cell(fw, dim, w * 7 + c),
            forall|c: int| 0 <= c < col ==> (#[trigger] week@[c]) == grid_cell(fw, dim, weeks@.len() * 7 + c),
            forall|c: int| col <= c < 7 ==> (#[trigger] week@[c]) == None::<u32>,
        decreases days + 1 - day,
    {
        week[col] = Some(day);
        col = col + 1;
        if col == 7 {
            weeks.push(week);
            week = [None; 7];
            col = 0;
        }
        day = day + 1;
    }
    if col > 0 {
        weeks.push(week);
    }
    weeks
}

/// English month name ("?" outside 1..=12).
pub fn month_name(month: u32) -> (r: &'static str)
    ensures
        month == 1 ==> r@ == "January"@,
        month == 2 ==> r@ == "February"@,
        month == 3 ==> r@ == "March"@,
        month == 4 ==> r@ == "April"@,
        month == 5 ==> r@ == "May"@,
        month == 6 ==> r@ == "June"@,
        month == 7 ==> r@ == "July"@,
        month == 8 ==> r@ == "August"@,
        month == 9 ==> r@ == "September"@,
        month == 10 ==> r@ == "October"@,
        month == 11 ==> r@ == "November"@,
        month == 12 ==> r@ == "December"@,
        !(1 <= month <= 12) ==> r@ == "?"@,
{
    match month {
        1 => "January",
        2 => "February",
        3 => "March",
        4 => "April",
        5 => "May",
        6 => "June",
        7 => "July",
        8 => "August",
        9 => "September",
        10 => "October",
        11 => "November",
        12 => "December",
        _ => "?",
    }
}


/// Moving by `a` days and then by `b` days is moving by `a + b` days.
pub proof fn law_add_days_compose(d: Date, a: int, b: int)
    requires
        valid_date(d),
        days_in_range(spec_to_days(d) + a),
        days_in_i32_years(spec_to_days(d) + a),
        days_in_range(spec_to_days(d) + a + b),
    ensures
        spec_from_days(spec_to_days(spec_from_days(spec_to_days(d) + a)) + b)
            == spec_from_days(spec_to_days(d) + (a + b)),
{
    lemma_to_from_days(spec_to_days(d) + a);
}

/// Moving a valid date by zero days gives it back.
pub proof fn law_add_zero_days(d: Date)
    requires
        valid_date(d),
    ensures
        spec_from_days(spec_to_days(d)) == d,
{
    lemma_from_to_days(d);
}

/// The day after a date falls on the next weekday.
pub proof fn law_next_day_next_weekday(d: Date)
    requires
        valid_date(d),
        days_in_range(spec_to_days(d) + 1),
        days_in_i32_years(spec_to_days(d) + 1),
    ensures
        spec_weekday(spec_to_days(spec_from_days(spec_to_days(d) + 1)))
            == (spec_weekday(spec_to_days(d)) + 1) % 7,
{
    let n = spec_to_days(d);
    lemma_to_from_days(n + 1);
    lemma_weekday_succ(n);
}

proof fn lemma_weekday_succ(n: int)
    ensures
        spec_weekday(n + 1) == (spec_weekday(n) + 1) % 7,
{
    let r = n % 7;
    assert(n == 7 * (n / 7) + r);
    assert(n + 1 == 7 * (n / 7) + (r + 1));
    if r == 6 {
        assert((n + 1) % 7 == 0);
    } else {
        assert((n + 1) % 7 == r + 1);
    }
}

/// Shifting a day count by `k` shifts its weekday by `k`, round the week.
proof fn lemma_weekday_shift(n: int, k: int)
    ensures
        spec_weekday(n + k) == (spec_weekday(n) + k) % 7,
{
    vstd::arithmetic::div_mod::lemma_add_mod_noop_right(3, n + k, 7);
    vstd::arithmetic::div_mod::lemma_add_mod_noop_right(3, n, 7);
    vstd::arithmetic::div_mod::lemma_add_mod_noop_right(k, 3 + n, 7);
    assert((n % 7 + 3) % 7 == (3 + n) % 7);
    assert(((3 + n) % 7 + k) % 7 == (k + (3 + n) % 7) % 7);
    assert((n + k) % 7 + 3 == 3 + (n + k) % 7);
}

/// Moving a date by `delta` days moves its weekday by `delta`, round the
/// week.
pub proof fn law_add_days_shifts_weekday(d: Date, delta: int)
    requires
        valid_date(d),
        days_in_range(spec_to_days(d) + delta),
        days_in_i32_years(spec_to_days(d) + delta),
    ensures
        spec_weekday(spec_to_days(spec_from_days(spec_to_days(d) + delta)))
            == (spec_weekday(spec_to_days(d)) + delta) % 7,
{
    lemma_to_from_days(spec_to_days(d) + delta);
    lemma_weekday_shift(spec_to_days(d), delta);
}

/// Moving a date by `delta` days and back by `delta` gives it back.
pub proof fn law_add_days_round_trip(d: Date, delta: int)
    requires
        valid_date(d),
        days_in_range(spec_to_days(d) + delta),
        days_in_i32_years(spec_to_days(d) + delta),
    ensures
        spec_from_days(spec_to_days(spec_from_days(spec_to_days(d) + delta)) - delta) == d,
{
    lemma_to_from_days(spec_to_days(d) + delta);
    lemma_from_to_days(d);
}

/// Moving by months always lands on a real day.
pub proof fn law_add_months_valid(d: Date, delta: int)
    requires
        1 <= d.month <= 12,
    ensures
        ({
            let total = d.year * 12 + (d.month - 1) + delta;
            let year = total / 12;
            let month = total % 12 + 1;
            let dim = spec_days_in_month(year, month);
            let day = if d.day <= dim { d.day as int } else { dim };
            1 <= month <= 12 && day <= dim && (d.day >= 1 ==> day >= 1)
        }),
{
}

} // verus!
