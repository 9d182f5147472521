//! Calendar helpers: the current time in JMAP's local date-time form and
//! the defaults of a new event.

use vstd::prelude::*;

use crate::clock::now_unix_secs;
use crate::digits::{dec, push_dec, push_padded_u64, zero_pad};
use crate::jmap::mail::trimmed_nonempty;
use crate::seqs::{first_match, lemma_first_match_at, lemma_first_match_none};
use crate::strings::{push_char, push_str, str_trim, to_owned, trim_ws};
use crate::tui::model::month::{civil_from_days, spec_from_days, spec_iso};

verus! {

/// "YYYY-MM-DDTHH:MM:SS" for a UTC instant given in seconds since the
/// epoch.
pub open spec fn spec_utc_iso8601(secs: u64) -> Seq<char> {
    let days = secs / 86400;
    let tod = secs % 86400;
    let (y, m, d) = civil_from_days(days as int);
    zero_pad(dec(y as nat), 4) + seq!['-'] + zero_pad(dec(m as nat), 2) + seq!['-'] + zero_pad(
        dec(d as nat),
        2,
    ) + seq!['T'] + zero_pad(dec((tod / 3600) as nat), 2) + seq![':'] + zero_pad(
        dec(((tod % 3600) / 60) as nat),
        2,
    ) + seq![':'] + zero_pad(dec((tod % 60) as nat), 2)
}

proof fn lemma_civil_nonneg(n: int)
    requires
        0 <= n,
        n <= u64::MAX / 86400,
    ensures
        civil_from_days(n).0 >= 0,
        1 <= civil_from_days(n).1 <= 12,
        1 <= civil_from_days(n).2 <= 31,
{
    crate::tui::model::month::lemma_civil_bounds(n);
}

/// The UTC instant `secs` (seconds since the epoch) as an ISO 8601 local
/// date-time.
#[verifier::spinoff_prover]
pub fn utc_iso8601(secs: u64) -> (r: String)
    ensures
        r@ == spec_utc_iso8601(secs),
{
    let days = secs / 86400;
    let time_of_day = secs % 86400;
    let hours = time_of_day / 3600;
    let minutes = (time_of_day % 3600) / 60;
    let seconds = time_of_day % 60;
    let z = days + 719468;
    let era = z / 146097;
    let doe = z - era * 146097;
    let yoe = (doe - doe / 1460 + doe / 36524 - doe / 146096) / 365;
    let y = yoe + era * 400;
    let doy = doe - (365 * yoe + yoe / 4 - yoe / 100);
    let mp = (5 * doy + 2) / 153;
    let d = doy - (153 * mp + 2) / 5 + 1;
    let m = if mp < 10 { mp + 3 } else { mp - 9 };
    let y = if m <= 2 { y + 1 } else { y };
    proof {
        lemma_civil_nonneg(days as int);
        assert(civil_from_days(days as int) == (y as int, m as int, d as int));
    }
    let mut out = String::new();
    push_padded_u64(&mut out, y, 4);
    push_char(&mut out, '-');
    push_padded_u64(&mut out, m, 2);
    push_char(&mut out, '-');
    push_padded_u64(&mut out, d, 2);
    push_char(&mut out, 'T');
    push_padded_u64(&mut out, hours, 2);
    push_char(&mut out, ':');
    push_padded_u64(&mut out, minutes, 2);
    push_char(&mut out, ':');
    push_padded_u64(&mut out, seconds, 2);
    out
}

/// The date a UTC instant is written with is the calendar date of its day
/// count: the text starts with that date, as a `Date` writes it, and `T`
/// (for every year a `Date` can hold).
pub proof fn law_instant_date_is_day_date(secs: u64)
    requires
        civil_from_days((secs / 86400) as int).0 <= i32::MAX,
    ensures
        spec_utc_iso8601(secs).take(spec_iso(spec_from_days((secs / 86400) as int)).len() as int + 1) == spec_iso(
            spec_from_days((secs / 86400) as int),
        ) + seq!['T'],
{
    let n = (secs / 86400) as int;
    lemma_civil_nonneg(n);
    let (y, m, d) = civil_from_days(n);
    let date = spec_from_days(n);
    assert(date.year as int == y);
    assert(date.month as int == m);
    assert(date.day as int == d);
    let head = spec_iso(date) + seq!['T'];
    assert(spec_utc_iso8601(secs).take(head.len() as int) =~= head);
}

/// The current UTC time as an ISO 8601 string (e.g. "2026-07-13T12:00:00")
/// suitable for JMAP calendar date fields and the CalendarEvent/query
/// `after` filter.
pub fn utc_now_iso8601() -> (r: String)
    ensures
        exists|secs: u64| r@ == #[trigger] spec_utc_iso8601(secs),
{
    let secs = now_unix_secs();
    utc_iso8601(secs)
}

/// Start and duration of a new event: each trimmed, an empty start
/// becoming `now` and an empty duration one hour.
pub fn event_times(start: &str, duration: &str, now: String) -> (r: (String, String))
    ensures
        r.0@ == if trim_ws(start@).len() == 0 {
            now@
        } else {
            trim_ws(start@)
        },
        r.1@ == if trim_ws(duration@).len() == 0 {
            "PT1H"@
        } else {
            trim_ws(duration@)
        },
{
    let s = str_trim(start);
    let d = str_trim(duration);
    let s = if s.is_empty() {
        now
    } else {
        to_owned(s)
    };
    let d = if d.is_empty() {
        to_owned("PT1H")
    } else {
        to_owned(d)
    };
    (s, d)
}

/// A calendar event to create, with optional scheduling (invite) fields.
///
/// When `attendees` is non-empty the event is created as a non-draft with
/// participants, which makes the server send invitations to each attendee.
pub struct NewEvent<'a> {
    pub title: &'a str,
    /// Local start time, e.g. `2026-07-16T08:30:00`. Empty defaults to now.
    pub start: &'a str,
    /// ISO 8601 duration, e.g. `PT15M`. Empty defaults to `PT1H`.
    pub duration: &'a str,
    /// Calendar id to file the event under. `None` uses the account default.
    pub calendar_id: Option<&'a str>,
    pub description: Option<&'a str>,
    pub location: Option<&'a str>,
    /// IANA time zone, e.g. `Europe/Berlin`.
    pub time_zone: Option<&'a str>,
    pub all_day: bool,
    /// Attendee email addresses to invite.
    pub attendees: &'a [String],
    /// Organizer address. `None` derives it from the primary mail identity.
    pub organizer: Option<&'a str>,
}

/// What is sent for a new event, every optional text trimmed and left out
/// when blank.
pub struct EventPlan {
    pub title: String,
    pub start: String,
    /// The duration; `None` for an all-day event, shown without a time.
    pub duration: Option<String>,
    pub time_zone: Option<String>,
    pub description: Option<String>,
    pub location: Option<String>,
    /// `None` files the event under the account's default calendar.
    pub calendar_id: Option<String>,
    /// The attendees to invite, trimmed, blank ones dropped.
    pub attendees: Vec<String>,
    /// The organizer named by the caller; with attendees and `None` the
    /// primary mail identity organizes.
    pub organizer: Option<String>,
}

/// An optional text, trimmed, and absent when blank.
pub open spec fn non_blank(o: Option<&str>) -> Option<Seq<char>> {
    match o {
        Some(s) => if trim_ws(s@).len() > 0 {
            Some(trim_ws(s@))
        } else {
            None
        },
        None => None,
    }
}

pub open spec fn opt_view(o: Option<String>) -> Option<Seq<char>> {
    match o {
        Some(s) => Some(s@),
        None => None,
    }
}

pub open spec fn strings_view(v: Seq<String>) -> Seq<Seq<char>> {
    v.map_values(|s: String| s@)
}

/// The trimmed, non-blank form of an optional text.
fn trimmed_opt(o: Option<&str>) -> (r: Option<String>)
    ensures
        opt_view(r) == non_blank(o),
{
    match o {
        Some(s) => {
            let t = str_trim(s);
            if t.is_empty() {
                None
            } else {
                Some(to_owned(t))
            }
        },
        None => None,
    }
}

/// Plans a new event: start and duration as `event_times` gives them
/// (no duration for an all-day event), the optional texts trimmed and
/// dropped when blank, the attendees trimmed with blank ones dropped, and
/// the organizer named only when attendees are invited.
pub fn plan_event(ev: &NewEvent, now: String) -> (r: EventPlan)
    ensures
        r.title@ == ev.title@,
        r.start@ == (if trim_ws(ev.start@).len() == 0 {
            now@
        } else {
            trim_ws(ev.start@)
        }),
        opt_view(r.duration) == (if ev.all_day {
            None
        } else if trim_ws(ev.duration@).len() == 0 {
            Some("PT1H"@)
        } else {
            Some(trim_ws(ev.duration@))
        }),
        opt_view(r.time_zone) == non_blank(ev.time_zone),
        opt_view(r.description) == non_blank(ev.description),
        opt_view(r.location) == non_blank(ev.location),
        opt_view(r.calendar_id) == non_blank(ev.calendar_id),
        strings_view(r.attendees@) == trimmed_nonempty(strings_view(ev.attendees@)),
        opt_view(r.organizer) == (if r.attendees@.len() > 0 {
            non_blank(ev.organizer)
        } else {
            None
        }),
{
    let (start, duration) = event_times(ev.start, ev.duration, now);
    let mut attendees: Vec<String> = Vec::new();
    let mut i: usize = 0;
    while i < ev.attendees.len()
        invariant
            i <= ev.attendees@.len(),
            strings_view(attendees@) == trimmed_nonempty(strings_view(ev.attendees@).take(i as int)),
        decreases ev.attendees@.len() - i,
    {
        let ghost all = strings_view(ev.attendees@);
        assert(all.take(i as int + 1).drop_last() =~= all.take(i as int));
        assert(all.take(i as int + 1).last() == ev.attendees@[i as int]@);
        let t = str_trim(ev.attendees[i].as_str());
        if !t.is_empty() {
            let ghost before = attendees@;
            attendees.push(to_owned(t));
            assert(strings_view(attendees@) =~= strings_view(before).push(t@));
        }
        i = i + 1;
    }
    assert(strings_view(ev.attendees@).take(ev.attendees@.len() as int) =~= strings_view(
        ev.attendees@,
    ));
    let organizer = if attendees.len() > 0 {
        trimmed_opt(ev.organizer)
    } else {
        None
    };
    EventPlan {
        title: to_owned(ev.title),
        start,
        duration: if ev.all_day {
            None
        } else {
            Some(duration)
        },
        time_zone: trimmed_opt(ev.time_zone),
        description: trimmed_opt(ev.description),
        location: trimmed_opt(ev.location),
        calendar_id: trimmed_opt(ev.calendar_id),
        attendees,
        organizer,
    }
}

/// A calendar as far as choosing where new events go.
#[derive(Debug, Clone)]
pub struct CalendarInfo {
    pub id: Option<String>,
    pub is_default: bool,
    pub may_add_items: bool,
}

pub open spec fn cal_is_default() -> spec_fn(CalendarInfo) -> bool {
    |c: CalendarInfo| c.is_default
}

pub open spec fn cal_may_add() -> spec_fn(CalendarInfo) -> bool {
    |c: CalendarInfo| c.may_add_items
}

/// The calendar a new event goes to when none is named: the first marked
/// default, else the first that may take new items, else the first.
pub open spec fn spec_default_calendar(cs: Seq<CalendarInfo>) -> Option<int> {
    match first_match(cs, cal_is_default()) {
        Some(i) => Some(i),
        None => match first_match(cs, cal_may_add()) {
            Some(i) => Some(i),
            None => if cs.len() > 0 {
                Some(0)
            } else {
                None
            },
        },
    }
}

fn find_flag(cs: &Vec<CalendarInfo>, by_default: bool) -> (r: Option<usize>)
    ensures
        match first_match(cs@, if by_default { cal_is_default() } else { cal_may_add() }) {
            Some(i) => r == Some(i as usize),
            None => r is None,
        },
{
    let ghost p = if by_default { cal_is_default() } else { cal_may_add() };
    let mut i: usize = 0;
    while i < cs.len()
        invariant
            i <= cs@.len(),
            p == (if by_default { cal_is_default() } else { cal_may_add() }),
            forall|j: int| 0 <= j < i ==> !p(#[trigger] cs@[j]),
        decreases cs@.len() - i,
    {
        let hit = if by_default {
            cs[i].is_default
        } else {
            cs[i].may_add_items
        };
        if hit {
            proof {
                lemma_first_match_at(cs@, p, i as int);
            }
            return Some(i);
        }
        i = i + 1;
    }
    proof {
        lemma_first_match_none(cs@, p);
    }
    None
}

/// Chooses the calendar a new event goes to (see `spec_default_calendar`).
pub fn default_calendar(cs: &Vec<CalendarInfo>) -> (r: Option<usize>)
    ensures
        match spec_default_calendar(cs@) {
            Some(i) => r == Some(i as usize),
            None => r is None,
        },
{
    match find_flag(cs, true) {
        Some(i) => Some(i),
        None => match find_flag(cs, false) {
            Some(i) => Some(i),
            None => if cs.len() > 0 {
                Some(0)
            } else {
                None
            },
        },
    }
}

/// A participant of an invitation: its key in the event, its address,
/// the `mailto:` URI it is reached at, and whether it is the organizer.
#[derive(Debug, Clone)]
pub struct ParticipantPlan {
    pub key: String,
    pub email: String,
    pub imip: String,
    pub owner: bool,
}

pub open spec fn participant_view(p: ParticipantPlan) -> (Seq<char>, Seq<char>, Seq<char>, bool) {
    (p.key@, p.email@, p.imip@, p.owner)
}

/// The address as a `mailto:` URI.
pub open spec fn mailto(addr: Seq<char>) -> Seq<char> {
    "mailto:"@ + addr
}

/// The roster of an invitation: the organizer under the key `owner`
/// (owner and attendee), then each attendee under `a0`, `a1`, ... in
/// order.
pub open spec fn spec_roster(organizer: Seq<char>, attendees: Seq<Seq<char>>) -> Seq<(Seq<char>, Seq<char>, Seq<char>, bool)> {
    seq![("owner"@, organizer, mailto(organizer), true)] + Seq::new(
        attendees.len(),
        |i: int| ("a"@ + dec(i as nat), attendees[i], mailto(attendees[i]), false),
    )
}

fn plan_participant(key: String, email: &str, owner: bool) -> (r: ParticipantPlan)
    ensures
        participant_view(r) == (key@, email@, mailto(email@), owner),
{
    let mut imip = to_owned("mailto:");
    push_str(&mut imip, email);
    ParticipantPlan { key, email: to_owned(email), imip, owner }
}

/// The participants of an invitation sent by `organizer` to `attendees`
/// (see `spec_roster`); the invitation replies to `mailto(organizer)`.
pub fn event_roster(organizer: &str, attendees: &Vec<String>) -> (r: Vec<ParticipantPlan>)
    ensures
        r@.map_values(|p: ParticipantPlan| participant_view(p)) == spec_roster(organizer@, strings_view(attendees@)),
{
    let ghost want = spec_roster(organizer@, strings_view(attendees@));
    let mut out: Vec<ParticipantPlan> = Vec::new();
    out.push(plan_participant(to_owned("owner"), organizer, true));
    let mut i: usize = 0;
    while i < attendees.len()
        invariant
            i <= attendees@.len(),
            want == spec_roster(organizer@, strings_view(attendees@)),
            out@.len() == i + 1,
            forall|j: int| 0 <= j < out@.len() ==> #[trigger] participant_view(out@[j]) == want[j],
        decreases attendees@.len() - i,
    {
        let mut key = to_owned("a");
        push_dec(&mut key, i as u64);
        out.push(plan_participant(key, attendees[i].as_str(), false));
        i = i + 1;
    }
    assert(out@.map_values(|p: ParticipantPlan| participant_view(p)) =~= want);
    out
}

} // verus!
