//! JSContact field extraction and the fields of a new or edited contact
//! card. The JSON of a card is read into the plain values below by the
//! caller.

use vstd::prelude::*;

use crate::strings::{push_str, str_trim, to_owned, trim_ws};

verus! {

/// The name of a contact card as read from its JSContact `name` object:
/// the `full` text when it is a string, and for each entry of
/// `components` its `value` when that is a string.
pub struct CardName {
    pub full: Option<String>,
    pub components: Option<Vec<Option<String>>>,
}

/// The component values that are texts, in order.
pub open spec fn present_values(cs: Seq<Option<String>>) -> Seq<Seq<char>>
    decreases cs.len(),
{
    if cs.len() == 0 {
        Seq::empty()
    } else {
        let rest = present_values(cs.drop_last());
        match cs.last() {
            Some(v) => rest.push(v@),
            None => rest,
        }
    }
}

/// Texts joined with single spaces.
pub open spec fn join_spaces(ps: Seq<Seq<char>>) -> Seq<char>
    decreases ps.len(),
{
    if ps.len() == 0 {
        Seq::empty()
    } else if ps.len() == 1 {
        ps[0]
    } else {
        join_spaces(ps.drop_last()) + " "@ + ps.last()
    }
}

/// The display name of a card: its full name, else its name components
/// joined with spaces, else "(no name)".
pub open spec fn spec_contact_name(name: Option<CardName>) -> Seq<char> {
    match name {
        Some(n) => match n.full {
            Some(f) => f@,
            None => match n.components {
                Some(cs) => if present_values(cs@).len() > 0 {
                    join_spaces(present_values(cs@))
                } else {
                    "(no name)"@
                },
                None => "(no name)"@,
            },
        },
        None => "(no name)"@,
    }
}

/// The display name of a contact card.
pub fn extract_contact_name(name: &Option<CardName>) -> (r: String)
    ensures
        r@ == spec_contact_name(*name),
{
    match name {
        Some(n) => match &n.full {
            Some(f) => f.clone(),
            None => match &n.components {
                Some(cs) => {
                    let mut out = String::new();
                    let mut count: usize = 0;
                    let mut i: usize = 0;
                    while i < cs.len()
                        invariant
                            i <= cs@.len(),
                            count == present_values(cs@.take(i as int)).len(),
                            count <= i,
                            out@ == join_spaces(present_values(cs@.take(i as int))),
                        decreases cs@.len() - i,
                    {
                        assert(cs@.take(i as int + 1).drop_last() =~= cs@.take(i as int));
                        match &cs[i] {
                            Some(v) => {
                                let ghost before = present_values(cs@.take(i as int));
                                if count > 0 {
                                    push_str(&mut out, " ");
                                }
                                push_str(&mut out, v.as_str());
                                assert(present_values(cs@.take(i as int + 1)) == before.push(v@));
                                assert(before.push(v@).drop_last() =~= before);
                                if count == 0 {
                                    assert(out@ =~= v@);
                                }
                                count = count + 1;
                            },
                            None => {},
                        }
                        i = i + 1;
                    }
                    assert(cs@.take(cs@.len() as int) =~= cs@);
                    if count > 0 {
                        out
                    } else {
                        to_owned("(no name)")
                    }
                },
                None => to_owned("(no name)"),
            },
        },
        None => to_owned("(no name)"),
    }
}

/// The value is there.
pub open spec fn is_present() -> spec_fn(Option<String>) -> bool {
    |v: Option<String>| v is Some
}

/// The first present value of a card's property map (the `address` of
/// its emails, the `number` of its phones), else empty.
pub open spec fn spec_first_property(values: Option<Seq<Option<String>>>) -> Seq<char> {
    match values {
        Some(vs) => match crate::seqs::first_match(vs, is_present()) {
            Some(k) => vs[k]->0@,
            None => Seq::empty(),
        },
        None => Seq::empty(),
    }
}

pub open spec fn opt_values(v: Option<Vec<Option<String>>>) -> Option<Seq<Option<String>>> {
    match v {
        Some(vs) => Some(vs@),
        None => None,
    }
}

/// The first present value of a property map.
pub fn extract_first_property(values: &Option<Vec<Option<String>>>) -> (r: String)
    ensures
        r@ == spec_first_property(opt_values(*values)),
{
    match values {
        Some(vs) => {
            let ghost p = is_present();
            let mut i: usize = 0;
            while i < vs.len()
                invariant
                    i <= vs@.len(),
                    p == is_present(),
                    opt_values(*values) == Some(vs@),
                    forall|j: int| 0 <= j < i ==> !p(#[trigger] vs@[j]),
                decreases vs@.len() - i,
            {
                match &vs[i] {
                    Some(v) => {
                        proof {
                            crate::seqs::lemma_first_match_at(vs@, p, i as int);
                        }
                        let r = v.clone();
                        return r;
                    },
                    None => {},
                }
                i = i + 1;
            }
            proof {
                crate::seqs::lemma_first_match_none(vs@, p);
            }
            String::new()
        },
        None => String::new(),
    }
}

/// An optional text, trimmed, absent when blank.
pub open spec fn trimmed_or_none(s: Seq<char>) -> Option<Seq<char>> {
    if trim_ws(s).len() > 0 {
        Some(trim_ws(s))
    } else {
        None
    }
}

/// The fields a contact card is written with: the full name as given,
/// the email and the phone trimmed, each left out (or cleared) when blank.
pub fn card_fields(email: &str, phone: &str) -> (r: (Option<String>, Option<String>))
    ensures
        match r.0 {
            Some(e) => trimmed_or_none(email@) == Some(e@),
            None => trimmed_or_none(email@) is None,
        },
        match r.1 {
            Some(p) => trimmed_or_none(phone@) == Some(p@),
            None => trimmed_or_none(phone@) is None,
        },
{
    let e = str_trim(email);
    let p = str_trim(phone);
    (
        if e.is_empty() {
            None
        } else {
            Some(to_owned(e))
        },
        if p.is_empty() {
            None
        } else {
            Some(to_owned(p))
        },
    )
}

} // verus!
