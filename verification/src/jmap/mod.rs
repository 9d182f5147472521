//! JMAP helpers shared by the command line and the terminal interface:
//! what is sent to the server and how its answers are read. The requests
//! themselves are made by the caller.

pub mod calendar;
pub mod contacts;
pub mod mail;
pub mod watch;

use vstd::prelude::*;

use crate::strings::{push_str, str_eq, to_owned};

verus! {

/// What a `*/set` method response says, as far as errors go: a
/// top-level error's type and description, or the first item-level
/// failure (`notCreated`, `notUpdated`, `notDestroyed`) with its key,
/// type and description.
#[derive(Debug, Clone)]
pub struct MethodOutcome {
    pub method_name: String,
    pub error_type: String,
    pub error_description: String,
    pub first_failure: Option<(String, String, String)>,
}

/// The error a batch of method responses reports for `method`: the first
/// top-level `error` response, or the first failure of a response to
/// `method`, in order; none when all succeeded.
pub open spec fn spec_set_error(outcomes: Seq<MethodOutcome>, method: Seq<char>) -> Option<Seq<char>>
    decreases outcomes.len(),
{
    if outcomes.len() == 0 {
        None
    } else {
        let o = outcomes[0];
        if o.method_name@ == "error"@ {
            Some("JMAP error: "@ + o.error_type@ + " — "@ + o.error_description@)
        } else if o.method_name@ == method && o.first_failure is Some {
            let (key, t, d) = o.first_failure->0;
            Some(method + " failed for "@ + key@ + ": "@ + t@ + " — "@ + d@)
        } else {
            spec_set_error(outcomes.drop_first(), method)
        }
    }
}

/// Checks the responses of a `*/set` call.
pub fn check_set_outcomes(outcomes: &Vec<MethodOutcome>, method: &str) -> (r: Result<(), String>)
    ensures
        match spec_set_error(outcomes@, method@) {
            Some(m) => r matches Err(e) && e@ == m,
            None => r is Ok,
        },
{
    let mut i: usize = 0;
    assert(outcomes@.skip(0) =~= outcomes@);
    while i < outcomes.len()
        invariant
            i <= outcomes@.len(),
            spec_set_error(outcomes@, method@) == spec_set_error(outcomes@.skip(i as int), method@),
        decreases outcomes@.len() - i,
    {
        let o = &outcomes[i];
        assert(outcomes@.skip(i as int)[0] == outcomes@[i as int]);
        assert(outcomes@.skip(i as int).drop_first() =~= outcomes@.skip(i + 1));
        if str_eq(o.method_name.as_str(), "error") {
            let mut m = to_owned("JMAP error: ");
            push_str(&mut m, o.error_type.as_str());
            push_str(&mut m, " — ");
            push_str(&mut m, o.error_description.as_str());
            return Err(m);
        }
        if str_eq(o.method_name.as_str(), method) {
            match &o.first_failure {
                Some((key, t, d)) => {
                    let mut m = to_owned(method);
                    push_str(&mut m, " failed for ");
                    push_str(&mut m, key.as_str());
                    push_str(&mut m, ": ");
                    push_str(&mut m, t.as_str());
                    push_str(&mut m, " — ");
                    push_str(&mut m, d.as_str());
                    return Err(m);
                },
                None => {},
            }
        }
        i = i + 1;
    }
    assert(outcomes@.skip(i as int) =~= Seq::<MethodOutcome>::empty());
    Ok(())
}

} // verus!
