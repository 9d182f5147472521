//! Mail helpers: recipient lists, Message-IDs, the checks an outgoing
//! message passes before it is sent, and the choice of identity and of
//! the mailbox a sent message is filed in.

use mail_builder::headers::address::Address;
use vstd::prelude::*;

use crate::clock::now_unix_millis;
use crate::digits::{dec, hex, push_dec_u128, push_hex, zero_pad};
use crate::strings::{chars_of, push_char, push_str, str_eq, str_trim, to_owned, trim_ws};
use crate::validate::{has_line_break, validate_header_value, ValidateError};

verus! {

/// The pieces of a text between occurrences of `c`, left to right, with
/// the piece in progress.
pub open spec fn split_acc(s: Seq<char>, c: char) -> (Seq<Seq<char>>, Seq<char>)
    decreases s.len(),
{
    if s.len() == 0 {
        (Seq::empty(), Seq::empty())
    } else {
        let (done, cur) = split_acc(s.drop_last(), c);
        if s.last() == c {
            (done.push(cur), Seq::empty())
        } else {
            (done, cur.push(s.last()))
        }
    }
}

/// `str::split` on a character: the pieces between its occurrences.
pub open spec fn split_pieces(s: Seq<char>, c: char) -> Seq<Seq<char>> {
    split_acc(s, c).0.push(split_acc(s, c).1)
}

/// The pieces trimmed, empty ones dropped.
pub open spec fn trimmed_nonempty(ps: Seq<Seq<char>>) -> Seq<Seq<char>>
    decreases ps.len(),
{
    if ps.len() == 0 {
        Seq::empty()
    } else {
        let r = trimmed_nonempty(ps.drop_last());
        let t = trim_ws(ps.last());
        if t.len() > 0 {
            r.push(t)
        } else {
            r
        }
    }
}

/// The addresses of a comma-separated list.
pub open spec fn spec_split_addresses(s: Seq<char>) -> Seq<Seq<char>> {
    trimmed_nonempty(split_pieces(s, ','))
}

pub open spec fn strs_view(v: Seq<&str>) -> Seq<Seq<char>> {
    v.map_values(|s: &str| s@)
}

/// Split a comma-separated address list into trimmed parts.
pub fn split_addresses(s: &str) -> (r: Vec<&str>)
    ensures
        strs_view(r@) == spec_split_addresses(s@),
{
    let n = s.unicode_len();
    let mut out: Vec<&str> = Vec::new();
    let mut start: usize = 0;
    let mut i: usize = 0;
    while i < n
        invariant
            n == s@.len(),
            start <= i <= n,
            strs_view(out@) == trimmed_nonempty(split_acc(s@.take(i as int), ',').0),
            split_acc(s@.take(i as int), ',').1 == s@.subrange(start as int, i as int),
        decreases n - i,
    {
        assert(s@.take(i as int + 1).drop_last() =~= s@.take(i as int));
        let c = s.get_char(i);
        if c == ',' {
            let piece = str_trim(s.substring_char(start, i));
            let ghost prev = out@;
            let ghost p = s@.subrange(start as int, i as int);
            assert(split_acc(s@.take(i as int), ',').0.push(p).drop_last() =~= split_acc(
                s@.take(i as int),
                ',',
            ).0);
            if !piece.is_empty() {
                out.push(piece);
                assert(strs_view(out@) =~= strs_view(prev).push(piece@));
            }
            start = i + 1;
        } else {
            assert(s@.subrange(start as int, i + 1) =~= s@.subrange(start as int, i as int).push(c));
        }
        i = i + 1;
    }
    assert(s@.take(n as int) =~= s@);
    let last = str_trim(s.substring_char(start, n));
    let ghost prev = out@;
    let ghost p = s@.subrange(start as int, n as int);
    assert(split_acc(s@, ',').0.push(p).drop_last() =~= split_acc(s@, ',').0);
    if !last.is_empty() {
        out.push(last);
        assert(strs_view(out@) =~= strs_view(prev).push(last@));
    }
    out
}

/// Position of the last occurrence of `c`.
pub open spec fn last_index_of(s: Seq<char>, c: char) -> Option<int>
    decreases s.len(),
{
    if s.len() == 0 {
        None
    } else if s.last() == c {
        Some(s.len() - 1)
    } else {
        last_index_of(s.drop_last(), c)
    }
}

/// The domain of an address: what follows its last `@`, else `localhost`.
pub open spec fn spec_domain(email: Seq<char>) -> Seq<char> {
    match last_index_of(email, '@') {
        Some(i) => email.skip(i + 1),
        None => "localhost"@,
    }
}

/// A Message-ID (without angle brackets): milliseconds since the epoch,
/// a dot, sixteen hex digits of randomness, `@` and the sender's domain.
pub open spec fn spec_message_id(from_email: Seq<char>, millis: u128, random: u64) -> Seq<char> {
    dec(millis as nat) + seq!['.'] + zero_pad(hex(random as nat), 16) + seq!['@'] + spec_domain(
        from_email,
    )
}

fn domain_of(from_email: &str) -> (r: String)
    ensures
        r@ == spec_domain(from_email@),
{
    let n = from_email.unicode_len();
    let mut i: usize = n;
    assert(from_email@.take(n as int) =~= from_email@);
    while i > 0
        invariant
            n == from_email@.len(),
            i <= n,
            last_index_of(from_email@, '@') == last_index_of(from_email@.take(i as int), '@'),
        decreases i,
    {
        assert(from_email@.take(i as int).drop_last() =~= from_email@.take(i - 1));
        if from_email.get_char(i - 1) == '@' {
            let d = from_email.substring_char(i, n);
            assert(d@ =~= from_email@.skip(i as int));
            return to_owned(d);
        }
        i = i - 1;
    }
    to_owned("localhost")
}

/// The Message-ID for a message from `from_email` at `millis` with the
/// random number `random`.
pub fn message_id(from_email: &str, millis: u128, random: u64) -> (r: String)
    ensures
        r@ == spec_message_id(from_email@, millis, random),
{
    let mut out = String::new();
    push_dec_u128(&mut out, millis);
    push_char(&mut out, '.');
    let h = hex_digits(random);
    let hl = h.as_str().unicode_len();
    let pad = if hl < 16 { 16 - hl } else { 0 };
    let mut k: usize = 0;
    let ghost before = out@;
    while k < pad
        invariant
            k <= pad,
            out@ == before + Seq::new(k as nat, |j: int| '0'),
        decreases pad - k,
    {
        push_char(&mut out, '0');
        assert(out@ =~= before + Seq::new((k + 1) as nat, |j: int| '0'));
        k = k + 1;
    }
    push_str(&mut out, h.as_str());
    push_char(&mut out, '@');
    let d = domain_of(from_email);
    push_str(&mut out, d.as_str());
    proof {
        let z = zero_pad(hex(random as nat), 16);
        if h@.len() < 16 {
            assert(Seq::new(pad as nat, |j: int| '0') + h@ =~= z);
        } else {
            assert(Seq::new(pad as nat, |j: int| '0') + h@ =~= z);
        }
    }
    assert(out@ =~= spec_message_id(from_email@, millis, random));
    out
}

fn hex_digits(n: u64) -> (r: String)
    ensures
        r@ == hex(n as nat),
{
    let mut s = String::new();
    push_hex(&mut s, n);
    assert(s@ =~= hex(n as nat));
    s
}

/// A random 64-bit number (`rand::random`); nothing is promised of it.
#[verifier::external_body]
fn random_u64() -> (r: u64) {
    rand::random::<u64>()
}

/// Generate a Message-ID using the from-address domain (no angle
/// brackets — the message builder adds them).
pub fn generate_message_id(from_email: &str) -> (r: String)
    ensures
        exists|millis: u128, random: u64| r@ == #[trigger] spec_message_id(from_email@, millis, random),
{
    let millis = now_unix_millis();
    let random = random_u64();
    message_id(from_email, millis, random)
}

/// A Message-ID ends with `@` and the sender's domain, and carries no
/// angle brackets unless the domain does.
pub proof fn law_message_id_shape(from_email: Seq<char>, millis: u128, random: u64)
    ensures
        ({
            let id = spec_message_id(from_email, millis, random);
            let d = spec_domain(from_email);
            &&& id.len() >= d.len() + 1
            &&& id.skip(id.len() - d.len() - 1) == seq!['@'] + d
        }),
{
    let id = spec_message_id(from_email, millis, random);
    let d = spec_domain(from_email);
    let head = dec(millis as nat) + seq!['.'] + zero_pad(hex(random as nat), 16);
    assert(id =~= head + (seq!['@'] + d));
    assert(id.skip(id.len() - d.len() - 1) =~= seq!['@'] + d);
}

/// An outgoing message. `cc`/`bcc` may be empty; addresses are
/// comma-separated.
pub struct OutgoingMail<'a> {
    pub from_email: &'a str,
    pub from_name: &'a str,
    pub to: &'a str,
    pub cc: &'a str,
    pub bcc: &'a str,
    pub subject: &'a str,
    pub body: &'a str,
}

/// Why an outgoing message is not sent.
#[derive(Debug)]
pub enum SendCheckError {
    /// A header value would inject a line break.
    Header(ValidateError),
    /// The To field is empty.
    NoRecipient,
}

/// The first header of a message (checked in the order To, Cc, Bcc,
/// Subject, From, From name) whose value holds a line break.
pub open spec fn first_bad_header(m: OutgoingMail) -> Option<Seq<char>> {
    if has_line_break(m.to@) {
        Some("to"@)
    } else if has_line_break(m.cc@) {
        Some("cc"@)
    } else if has_line_break(m.bcc@) {
        Some("bcc"@)
    } else if has_line_break(m.subject@) {
        Some("subject"@)
    } else if has_line_break(m.from_email@) {
        Some("from"@)
    } else if has_line_break(m.from_name@) {
        Some("from_name"@)
    } else {
        None
    }
}

fn check_header(name: &str, value: &str) -> (r: Result<(), SendCheckError>)
    ensures
        !has_line_break(value@) <==> r is Ok,
        has_line_break(value@) ==> (r matches Err(SendCheckError::Header(ValidateError::HeaderInjection(n)))
            && n@ == name@),
{
    match validate_header_value(name, value) {
        Ok(()) => Ok(()),
        Err(e) => Err(SendCheckError::Header(e)),
    }
}

/// Checks a message before it is sent: no header value may hold a line
/// break (checked in the order To, Cc, Bcc, Subject, From, From name),
/// and there must be a recipient.
pub fn check_outgoing(mail: &OutgoingMail) -> (r: Result<(), SendCheckError>)
    ensures
        first_bad_header(*mail) matches Some(n) ==> (r matches Err(
            SendCheckError::Header(ValidateError::HeaderInjection(x)),
        ) && x@ == n),
        first_bad_header(*mail) is None && trim_ws(mail.to@).len() == 0 ==> (r matches Err(
            SendCheckError::NoRecipient,
        )),
        first_bad_header(*mail) is None && trim_ws(mail.to@).len() > 0 ==> r is Ok,
{
    check_header("to", mail.to)?;
    check_header("cc", mail.cc)?;
    check_header("bcc", mail.bcc)?;
    check_header("subject", mail.subject)?;
    check_header("from", mail.from_email)?;
    check_header("from_name", mail.from_name)?;
    if str_trim(mail.to).is_empty() {
        return Err(SendCheckError::NoRecipient);
    }
    Ok(())
}

/// The identity to send as: the first whose address is the sender's,
/// else the first one.
pub fn choose_identity(identity_emails: &Vec<String>, from_email: &str) -> (r: Option<usize>)
    ensures
        identity_emails@.len() == 0 ==> r is None,
        (exists|i: int| 0 <= i < identity_emails@.len() && #[trigger] identity_emails@[i]@ == from_email@) ==> (
        r matches Some(k) && k < identity_emails@.len() && identity_emails@[k as int]@ == from_email@
            && forall|j: int| 0 <= j < k ==> #[trigger] identity_emails@[j]@ != from_email@),
        identity_emails@.len() > 0 && (forall|i: int| 0 <= i < identity_emails@.len() ==> #[trigger] identity_emails@[i]@
            != from_email@) ==> r == Some(0usize),
{
    let mut i: usize = 0;
    while i < identity_emails.len()
        invariant
            i <= identity_emails@.len(),
            forall|j: int| 0 <= j < i ==> #[trigger] identity_emails@[j]@ != from_email@,
        decreases identity_emails@.len() - i,
    {
        if str_eq(identity_emails[i].as_str(), from_email) {
            return Some(i);
        }
        i = i + 1;
    }
    if identity_emails.len() > 0 {
        Some(0)
    } else {
        None
    }
}

/// A mailbox as far as filing a sent message goes.
#[derive(Debug, Clone)]
pub struct MailboxInfo {
    pub id: String,
    pub role: Option<String>,
}

pub open spec fn has_role(b: MailboxInfo, role: Seq<char>) -> bool {
    b.role matches Some(r) && r@ == role
}

/// First index satisfying a condition on mailboxes.
pub open spec fn first_box(bs: Seq<MailboxInfo>, p: spec_fn(MailboxInfo) -> bool) -> Option<int> {
    crate::seqs::first_match(bs, p)
}

pub open spec fn box_id_is(id: Seq<char>) -> spec_fn(MailboxInfo) -> bool {
    |b: MailboxInfo| b.id@ == id
}

pub open spec fn box_role_is(role: Seq<char>) -> spec_fn(MailboxInfo) -> bool {
    |b: MailboxInfo| has_role(b, role)
}

/// The mailbox a sent message is filed in: the configured one when it
/// exists, else the first with the `sent` role, else the first with the
/// `drafts` role, else the first mailbox.
pub open spec fn spec_sent_mailbox(bs: Seq<MailboxInfo>, override_id: Option<Seq<char>>) -> Option<int> {
    let by_id = match override_id {
        Some(id) => first_box(bs, box_id_is(id)),
        None => None,
    };
    match by_id {
        Some(i) => Some(i),
        None => match first_box(bs, box_role_is("sent"@)) {
            Some(i) => Some(i),
            None => match first_box(bs, box_role_is("drafts"@)) {
                Some(i) => Some(i),
                None => if bs.len() > 0 {
                    Some(0)
                } else {
                    None
                },
            },
        },
    }
}

fn find_box_id(bs: &Vec<MailboxInfo>, id: &str) -> (r: Option<usize>)
    ensures
        match first_box(bs@, box_id_is(id@)) {
            Some(i) => r == Some(i as usize),
            None => r is None,
        },
{
    let ghost p = box_id_is(id@);
    let mut i: usize = 0;
    while i < bs.len()
        invariant
            i <= bs@.len(),
            p == box_id_is(id@),
            forall|j: int| 0 <= j < i ==> !p(#[trigger] bs@[j]),
        decreases bs@.len() - i,
    {
        if str_eq(bs[i].id.as_str(), id) {
            proof {
                crate::seqs::lemma_first_match_at(bs@, p, i as int);
            }
            return Some(i);
        }
        i = i + 1;
    }
    proof {
        crate::seqs::lemma_first_match_none(bs@, p);
    }
    None
}

fn find_box_role(bs: &Vec<MailboxInfo>, role: &str) -> (r: Option<usize>)
    ensures
        match first_box(bs@, box_role_is(role@)) {
            Some(i) => r == Some(i as usize),
            None => r is None,
        },
{
    let ghost p = box_role_is(role@);
    let mut i: usize = 0;
    while i < bs.len()
        invariant
            i <= bs@.len(),
            p == box_role_is(role@),
            forall|j: int| 0 <= j < i ==> !p(#[trigger] bs@[j]),
        decreases bs@.len() - i,
    {
        let hit = match &bs[i].role {
            Some(r) => str_eq(r.as_str(), role),
            None => false,
        };
        if hit {
            proof {
                crate::seqs::lemma_first_match_at(bs@, p, i as int);
            }
            return Some(i);
        }
        i = i + 1;
    }
    proof {
        crate::seqs::lemma_first_match_none(bs@, p);
    }
    None
}

/// Chooses the mailbox a sent message is filed in.
pub fn choose_sent_mailbox(bs: &Vec<MailboxInfo>, override_id: Option<&str>) -> (r: Option<usize>)
    ensures
        match spec_sent_mailbox(
            bs@,
            match override_id {
                Some(s) => Some(s@),
                None => None,
            },
        ) {
            Some(i) => r == Some(i as usize),
            None => r is None,
        },
{
    let by_id = match override_id {
        Some(id) => find_box_id(bs, id),
        None => None,
    };
    match by_id {
        Some(i) => Some(i),
        None => match find_box_role(bs, "sent") {
            Some(i) => Some(i),
            None => match find_box_role(bs, "drafts") {
                Some(i) => Some(i),
                None => if bs.len() > 0 {
                    Some(0)
                } else {
                    None
                },
            },
        },
    }
}

/// An address for display: `Name <email>`, or the address alone.
pub fn format_addr(name: Option<&str>, email: &str) -> (r: String)
    ensures
        r@ == match name {
            Some(n) => n@ + " <"@ + email@ + ">"@,
            None => email@,
        },
{
    match name {
        Some(n) => {
            let mut out = to_owned(n);
            push_str(&mut out, " <");
            push_str(&mut out, email);
            push_str(&mut out, ">");
            out
        },
        None => to_owned(email),
    }
}

/// Items joined with a separator.
pub open spec fn join_with(items: Seq<Seq<char>>, sep: Seq<char>) -> Seq<char>
    decreases items.len(),
{
    if items.len() == 0 {
        Seq::empty()
    } else if items.len() == 1 {
        items[0]
    } else {
        join_with(items.drop_last(), sep) + sep + items.last()
    }
}

/// Joins addresses with `", "`.
pub fn join_addresses(items: &Vec<String>) -> (r: String)
    ensures
        r@ == join_with(items@.map_values(|s: String| s@), ", "@),
{
    let ghost v = items@.map_values(|s: String| s@);
    let mut out = String::new();
    let mut i: usize = 0;
    while i < items.len()
        invariant
            i <= items@.len(),
            v == items@.map_values(|s: String| s@),
            out@ == join_with(v.take(i as int), ", "@),
        decreases items@.len() - i,
    {
        assert(v.take(i as int + 1).drop_last() =~= v.take(i as int));
        if i > 0 {
            push_str(&mut out, ", ");
        }
        push_str(&mut out, items[i].as_str());
        proof {
            if i == 0 {
                assert(out@ =~= v.take(1)[0]);
            }
        }
        i = i + 1;
    }
    assert(v.take(i as int) =~= v);
    out
}

/// The RFC 5322 message `mail_builder` writes for these headers and this
/// plain-text body: From (with the display name when there is one), To,
/// Cc and Bcc when present, Subject, Message-ID, and a Date of `date`
/// seconds since the Unix epoch.
pub uninterp spec fn rfc5322(
    from_name: Option<Seq<char>>,
    from_email: Seq<char>,
    to: Seq<Seq<char>>,
    cc: Option<Seq<Seq<char>>>,
    bcc: Option<Seq<Seq<char>>>,
    subject: Seq<char>,
    message_id: Seq<char>,
    body: Seq<char>,
    date: i64,
) -> Seq<u8>;

pub open spec fn str_opt_view(o: Option<&str>) -> Option<Seq<char>> {
    match o {
        Some(s) => Some(s@),
        None => None,
    }
}

pub open spec fn strs_opt_view(o: Option<Vec<&str>>) -> Option<Seq<Seq<char>>> {
    match o {
        Some(v) => Some(strs_view(v@)),
        None => None,
    }
}

/// Builds and serialises a message with `mail_builder::MessageBuilder`
/// (`to`, `subject`, `message_id`, `text_body`, `from` with
/// `Address::new_address`, the `Cc` and `Bcc` headers when given, `date`,
/// then `write_to_vec`). The bytes are what `rfc5322` names for the
/// arguments. Writing goes into a `Vec`, which never fails, and a single
/// text part raises no error of the crate's own, so the result is `Ok`.
#[verifier::external_body]
fn write_message(
    from_name: Option<&str>,
    from_email: &str,
    to: Vec<&str>,
    cc: Option<Vec<&str>>,
    bcc: Option<Vec<&str>>,
    subject: &str,
    message_id: &str,
    body: &str,
    date: i64,
) -> (r: Result<Vec<u8>, std::io::Error>)
    ensures
        r is Ok,
        r matches Ok(b) ==> b@ == rfc5322(
            str_opt_view(from_name),
            from_email@,
            strs_view(to@),
            strs_opt_view(cc),
            strs_opt_view(bcc),
            subject@,
            message_id@,
            body@,
            date,
        ),
{
    mail_builder::MessageBuilder::new()
        .to(to)
        .subject(subject)
        .message_id(message_id)
        .text_body(body)
        .from(Address::new_address(from_name, from_email))
        .headers("Cc", cc.map(Address::from))
        .headers("Bcc", bcc.map(Address::from))
        .date(date)
        .write_to_vec()
}

/// The display name a message is sent under: none when it is empty.
pub open spec fn sender_name(m: OutgoingMail) -> Option<Seq<char>> {
    if m.from_name@.len() == 0 {
        None
    } else {
        Some(m.from_name@)
    }
}

/// A copy-recipient list as the message carries it: no header when the
/// field is blank, else its addresses.
pub open spec fn copy_list(field: Seq<char>) -> Option<Seq<Seq<char>>> {
    if trim_ws(field).len() == 0 {
        None
    } else {
        Some(spec_split_addresses(field))
    }
}

fn copy_addresses<'a>(field: &'a str) -> (r: Option<Vec<&'a str>>)
    ensures
        strs_opt_view(r) == copy_list(field@),
{
    if str_trim(field).is_empty() {
        None
    } else {
        Some(split_addresses(field))
    }
}

/// Builds the RFC 5322 form of an outgoing message with the given
/// Message-ID and Date (seconds since the Unix epoch): the recipients of
/// To split from the list, Cc and Bcc only when not blank, and the
/// sender's display name only when it is not empty. The bytes are
/// `rfc5322` of those values.
pub fn compose_message(mail: &OutgoingMail, message_id: &str, date: i64) -> (r: Vec<u8>)
    ensures
        r@ == rfc5322(
            sender_name(*mail),
            mail.from_email@,
            spec_split_addresses(mail.to@),
            copy_list(mail.cc@),
            copy_list(mail.bcc@),
            mail.subject@,
            message_id@,
            mail.body@,
            date,
        ),
{
    let from_name = if mail.from_name.is_empty() {
        None
    } else {
        Some(mail.from_name)
    };
    let to = split_addresses(mail.to);
    let cc = copy_addresses(mail.cc);
    let bcc = copy_addresses(mail.bcc);
    match write_message(from_name, mail.from_email, to, cc, bcc, mail.subject, message_id, mail.body, date) {
        Ok(b) => b,
        Err(_) => {
            proof {
                assert(false);
            }
            Vec::new()
        },
    }
}

/// A fully fetched email for display: headers plus the complete text body.
#[derive(Debug, Clone)]
pub struct FullEmail {
    pub id: String,
    pub subject: String,
    pub from: String,
    pub to: String,
    pub date: String,
    pub body: String,
}

} // verus!
