//! What the OAuth flows send and how they read the answers: token request
//! parameters, the authorization URL, the loopback callback, and the
//! device-flow polling decisions.

use vstd::prelude::*;

use super::OAuthError;
use crate::digits::{dec, push_dec};
use crate::strings::{char_is_whitespace, chars_of, is_whitespace, push_str, str_eq, to_owned};

verus! {

/// Form parameters of a token request, in order.
pub type Params = Vec<(&'static str, String)>;

pub open spec fn params_view(p: Seq<(&'static str, String)>) -> Seq<(Seq<char>, Seq<char>)> {
    p.map_values(|kv: (&'static str, String)| (kv.0@, kv.1@))
}

fn pair(k: &'static str, v: &str) -> (r: (&'static str, String))
    ensures
        r.0 == k && r.1@ == v@,
{
    (k, to_owned(v))
}

/// Parameters of a refresh-token grant.
pub fn refresh_params(refresh_token: &str, client_id: &str) -> (r: Params)
    ensures
        params_view(r@) == seq![
            ("grant_type"@, "refresh_token"@),
            ("refresh_token"@, refresh_token@),
            ("client_id"@, client_id@),
        ],
{
    let r = vec![
        pair("grant_type", "refresh_token"),
        pair("refresh_token", refresh_token),
        pair("client_id", client_id),
    ];
    assert(params_view(r@) =~= seq![
        ("grant_type"@, "refresh_token"@),
        ("refresh_token"@, refresh_token@),
        ("client_id"@, client_id@),
    ]);
    r
}

/// Parameters of an authorization-code grant with a PKCE verifier.
pub fn exchange_params(code: &str, redirect_uri: &str, client_id: &str, verifier: &str) -> (r: Params)
    ensures
        params_view(r@) == seq![
            ("grant_type"@, "authorization_code"@),
            ("code"@, code@),
            ("redirect_uri"@, redirect_uri@),
            ("client_id"@, client_id@),
            ("code_verifier"@, verifier@),
        ],
{
    let r = vec![
        pair("grant_type", "authorization_code"),
        pair("code", code),
        pair("redirect_uri", redirect_uri),
        pair("client_id", client_id),
        pair("code_verifier", verifier),
    ];
    assert(params_view(r@) =~= seq![
        ("grant_type"@, "authorization_code"@),
        ("code"@, code@),
        ("redirect_uri"@, redirect_uri@),
        ("client_id"@, client_id@),
        ("code_verifier"@, verifier@),
    ]);
    r
}

/// Parameters of the device authorization request.
pub fn device_code_params(client_id: &str) -> (r: Params)
    ensures
        params_view(r@) == seq![("client_id"@, client_id@)],
{
    let r = vec![pair("client_id", client_id)];
    assert(params_view(r@) =~= seq![("client_id"@, client_id@)]);
    r
}

/// Parameters of a device-code token poll.
pub fn device_token_params(device_code: &str, client_id: &str) -> (r: Params)
    ensures
        params_view(r@) == seq![
            ("grant_type"@, "urn:ietf:params:oauth:grant-type:device_code"@),
            ("device_code"@, device_code@),
            ("client_id"@, client_id@),
        ],
{
    let r = vec![
        pair("grant_type", "urn:ietf:params:oauth:grant-type:device_code"),
        pair("device_code", device_code),
        pair("client_id", client_id),
    ];
    assert(params_view(r@) =~= seq![
        ("grant_type"@, "urn:ietf:params:oauth:grant-type:device_code"@),
        ("device_code"@, device_code@),
        ("client_id"@, client_id@),
    ]);
    r
}

/// The loopback redirect URI for a callback port.
pub fn redirect_uri(port: u16) -> (r: String)
    ensures
        r@ == "http://127.0.0.1:"@ + dec(port as nat) + "/callback"@,
{
    let mut r = to_owned("http://127.0.0.1:");
    push_dec(&mut r, port as u64);
    push_str(&mut r, "/callback");
    r
}

/// The query of an authorization-code request with PKCE (S256), in order.
pub open spec fn authorize_pairs(client_id: Seq<char>, redirect_uri: Seq<char>, challenge: Seq<char>, state: Seq<char>) -> Seq<(Seq<char>, Seq<char>)> {
    seq![
        ("response_type"@, "code"@),
        ("client_id"@, client_id),
        ("redirect_uri"@, redirect_uri),
        ("code_challenge"@, challenge),
        ("code_challenge_method"@, "S256"@),
        ("state"@, state),
    ]
}

/// Query parameters of the authorization request, in order.
pub fn authorize_params(client_id: &str, redirect_uri: &str, challenge: &str, state: &str) -> (r: Params)
    ensures
        params_view(r@) == authorize_pairs(client_id@, redirect_uri@, challenge@, state@),
{
    let r = vec![
        pair("response_type", "code"),
        pair("client_id", client_id),
        pair("redirect_uri", redirect_uri),
        pair("code_challenge", challenge),
        pair("code_challenge_method", "S256"),
        pair("state", state),
    ];
    assert(params_view(r@) =~= seq![
        ("response_type"@, "code"@),
        ("client_id"@, client_id@),
        ("redirect_uri"@, redirect_uri@),
        ("code_challenge"@, challenge@),
        ("code_challenge_method"@, "S256"@),
        ("state"@, state@),
    ]);
    r
}

/// What `url::Url` makes of an endpoint with query pairs appended (form
/// encoded), or the parse error of the endpoint.
pub uninterp spec fn url_with_query(endpoint: Seq<char>, pairs: Seq<(Seq<char>, Seq<char>)>) -> Result<Seq<char>, url::ParseError>;

/// Appends query pairs to an endpoint (`url::Url::parse` and
/// `query_pairs_mut().append_pair`); the contract names the result.
#[verifier::external_body]
pub(crate) fn authorization_url(endpoint: &str, pairs: &Params) -> (r: Result<String, url::ParseError>)
    ensures
        match (r, url_with_query(endpoint@, params_view(pairs@))) {
            (Ok(s), Ok(t)) => s@ == t,
            (Err(e), Err(f)) => e == f,
            _ => false,
        },
{
    let mut u = url::Url::parse(endpoint)?;
    {
        let mut q = u.query_pairs_mut();
        for (k, v) in pairs.iter() {
            q.append_pair(k, v);
        }
    }
    Ok(u.to_string())
}

/// The URL the browser is sent to for a login: the authorization
/// endpoint with the request's query (see `authorize_pairs`) appended.
pub fn login_url(endpoint: &str, client_id: &str, redirect_uri: &str, challenge: &str, state: &str) -> (r: Result<String, url::ParseError>)
    ensures
        match (r, url_with_query(endpoint@, authorize_pairs(client_id@, redirect_uri@, challenge@, state@))) {
            (Ok(s), Ok(t)) => s@ == t,
            (Err(e), Err(f)) => e == f,
            _ => false,
        },
{
    let params = authorize_params(client_id, redirect_uri, challenge, state);
    authorization_url(endpoint, &params)
}

// ── Loopback callback ────────────────────────────────────────────────

/// The text before the first line feed.
pub open spec fn first_line(s: Seq<char>) -> Seq<char>
    decreases s.len(),
{
    if s.len() == 0 || s[0] == '\n' {
        Seq::empty()
    } else {
        seq![s[0]] + first_line(s.drop_first())
    }
}

/// The whitespace-separated words of a text, left to right, with the
/// word in progress.
pub open spec fn words_acc(s: Seq<char>) -> (Seq<Seq<char>>, Seq<char>)
    decreases s.len(),
{
    if s.len() == 0 {
        (Seq::empty(), Seq::empty())
    } else {
        let (done, cur) = words_acc(s.drop_last());
        if is_whitespace(s.last()) {
            if cur.len() > 0 {
                (done.push(cur), Seq::empty())
            } else {
                (done, cur)
            }
        } else {
            (done, cur.push(s.last()))
        }
    }
}

/// `str::split_whitespace`.
pub open spec fn words(s: Seq<char>) -> Seq<Seq<char>> {
    let (done, cur) = words_acc(s);
    if cur.len() > 0 {
        done.push(cur)
    } else {
        done
    }
}

/// The request target of an HTTP request: the second word of its first
/// line (a trailing `\r` there is whitespace too), or empty.
pub open spec fn spec_request_path(request: Seq<char>) -> Seq<char> {
    let w = words(first_line(request));
    if w.len() >= 2 {
        w[1]
    } else {
        Seq::empty()
    }
}

/// The request target of the request the browser sent to the callback
/// listener.
pub fn request_path(request: &str) -> (r: String)
    ensures
        r@ == spec_request_path(request@),
{
    let cs = chars_of(request);
    let mut end: usize = 0;
    while end < cs.len() && cs[end] != '\n'
        invariant
            end <= cs@.len(),
            cs@ == request@,
            forall|k: int| 0 <= k < end ==> cs@[k] != '\n',
        decreases cs@.len() - end,
    {
        end = end + 1;
    }
    proof {
        lemma_first_line(cs@, end as int);
    }
    let mut done: Vec<Vec<char>> = Vec::new();
    let mut cur: Vec<char> = Vec::new();
    let ghost line = cs@.take(end as int);
    let mut i: usize = 0;
    while i < end
        invariant
            i <= end <= cs@.len(),
            line == cs@.take(end as int),
            done@.len() == words_acc(line.take(i as int)).0.len(),
            forall|k: int| 0 <= k < done@.len() ==> #[trigger] done@[k]@ == words_acc(line.take(i as int)).0[k],
            cur@ == words_acc(line.take(i as int)).1,
        decreases end - i,
    {
        assert(line.take(i as int + 1).drop_last() =~= line.take(i as int));
        assert(line.take(i as int + 1).last() == cs@[i as int]);
        if char_is_whitespace(cs[i]) {
            if cur.len() > 0 {
                done.push(cur);
                cur = Vec::new();
            }
        } else {
            cur.push(cs[i]);
        }
        i = i + 1;
    }
    assert(line.take(i as int) =~= line);
    if cur.len() > 0 {
        done.push(cur);
    }
    if done.len() >= 2 {
        crate::strings::string_from_chars(&done[1])
    } else {
        String::new()
    }
}

proof fn lemma_first_line(s: Seq<char>, end: int)
    requires
        0 <= end <= s.len(),
        forall|k: int| 0 <= k < end ==> s[k] != '\n',
        end == s.len() || s[end] == '\n',
    ensures
        first_line(s) == s.take(end),
    decreases s.len(),
{
    if s.len() == 0 || s[0] == '\n' {
        assert(s.take(end) =~= Seq::<char>::empty());
    } else {
        lemma_first_line(s.drop_first(), end - 1);
        assert(seq![s[0]] + s.drop_first().take(end - 1) =~= s.take(end));
    }
}

/// Whether a request target is the OAuth callback (anything else, such
/// as a favicon request, is answered 404 and ignored).
pub fn is_callback_path(path: &str) -> (r: bool)
    ensures
        r == (path@.len() >= 9 && path@.take(9) == "/callback"@),
{
    let n = path.unicode_len();
    if n < 9 {
        return false;
    }
    let head = path.substring_char(0, 9);
    assert(head@ =~= path@.take(9));
    str_eq(head, "/callback")
}

/// What `url::Url` reads from the query of a URL: the decoded key/value
/// pairs in order, or the parse error.
pub uninterp spec fn callback_pairs(url: Seq<char>) -> Result<Seq<(Seq<char>, Seq<char>)>, url::ParseError>;

/// The decoded query pairs of a URL (`url::Url::parse` and
/// `query_pairs`); the contract names the result.
#[verifier::external_body]
pub(crate) fn callback_query(url: &str) -> (r: Result<Vec<(String, String)>, url::ParseError>)
    ensures
        match (r, callback_pairs(url@)) {
            (Ok(v), Ok(w)) => pairs_view(v@) == w,
            (Err(e), Err(f)) => e == f,
            _ => false,
        },
{
    let u = url::Url::parse(url)?;
    Ok(u.query_pairs().into_owned().collect())
}

/// Key/value pairs as text.
pub open spec fn pairs_view(p: Seq<(String, String)>) -> Seq<(Seq<char>, Seq<char>)> {
    p.map_values(|kv: (String, String)| (kv.0@, kv.1@))
}

/// The value of the last pair with the given key (as a map built from
/// the pairs keeps it).
pub open spec fn last_value(pairs: Seq<(Seq<char>, Seq<char>)>, key: Seq<char>) -> Option<Seq<char>>
    decreases pairs.len(),
{
    if pairs.len() == 0 {
        None
    } else if pairs.last().0 == key {
        Some(pairs.last().1)
    } else {
        last_value(pairs.drop_last(), key)
    }
}

fn find_last<'a>(pairs: &'a Vec<(String, String)>, key: &str) -> (r: Option<&'a String>)
    ensures
        match last_value(pairs_view(pairs@), key@) {
            Some(v) => r matches Some(s) && s@ == v,
            None => r is None,
        },
{
    let ghost pv = pairs_view(pairs@);
    let mut i: usize = pairs.len();
    assert(pv.take(i as int) =~= pv);
    while i > 0
        invariant
            i <= pairs@.len(),
            pv == pairs_view(pairs@),
            last_value(pv, key@) == last_value(pv.take(i as int), key@),
        decreases i,
    {
        assert(pv.take(i as int).drop_last() =~= pv.take(i - 1));
        if str_eq(pairs[i - 1].0.as_str(), key) {
            return Some(&pairs[i - 1].1);
        }
        i = i - 1;
    }
    assert(last_value(pv.take(0), key@) is None);
    None
}

/// What a callback's query pairs mean for a login that sent `state`: the
/// authorization code, or the reason there is none.
pub open spec fn spec_callback_outcome(pairs: Seq<(Seq<char>, Seq<char>)>, state: Seq<char>) -> Result<Seq<char>, Seq<char>> {
    let received = match last_value(pairs, "state"@) {
        Some(s) => s,
        None => Seq::empty(),
    };
    if received != state {
        Err("state mismatch"@)
    } else {
        match last_value(pairs, "code"@) {
            Some(code) => Ok(code),
            None => Err(
                match last_value(pairs, "error_description"@) {
                    Some(d) => d,
                    None => match last_value(pairs, "error"@) {
                        Some(e) => e,
                        None => "no code in callback"@,
                    },
                },
            ),
        }
    }
}

/// Reads the callback's query pairs: the authorization code when the
/// state matches, otherwise a token-exchange error with the reason.
pub fn callback_outcome(pairs: &Vec<(String, String)>, state: &str) -> (r: Result<String, OAuthError>)
    ensures
        match spec_callback_outcome(pairs_view(pairs@), state@) {
            Ok(code) => r matches Ok(c) && c@ == code,
            Err(why) => r matches Err(OAuthError::TokenExchange(m)) && m@ == why,
        },
{
    let received: &str = match find_last(pairs, "state") {
        Some(s) => s.as_str(),
        None => {
            proof {
                reveal_strlit("");
            }
            ""
        },
    };
    let ghost pv = pairs_view(pairs@);
    assert(received@ == match last_value(pv, "state"@) {
        Some(s) => s,
        None => Seq::<char>::empty(),
    });
    if !str_eq(received, state) {
        let m = to_owned("state mismatch");
        assert(spec_callback_outcome(pv, state@) == Err::<Seq<char>, Seq<char>>("state mismatch"@));
        return Err(OAuthError::TokenExchange(m));
    }
    match find_last(pairs, "code") {
        Some(code) => Ok(code.clone()),
        None => {
            let why = match find_last(pairs, "error_description") {
                Some(d) => d.clone(),
                None => match find_last(pairs, "error") {
                    Some(e) => e.clone(),
                    None => to_owned("no code in callback"),
                },
            };
            Err(OAuthError::TokenExchange(why))
        },
    }
}

// ── Device flow ──────────────────────────────────────────────────────

/// What to do after a device-code poll that did not yield tokens.
#[derive(Debug)]
pub enum PollDecision {
    /// Poll again after the interval grown by `extra_secs`.
    KeepPolling { extra_secs: u64 },
    /// Give up with this error.
    Stop(OAuthError),
}

/// Reads the `error` of a failed device-code poll (RFC 8628 §3.5):
/// pending keeps polling, `slow_down` adds five seconds, an expired code
/// or a denial ends the flow, any other error too.
pub fn device_poll_decision(error: &str) -> (r: PollDecision)
    ensures
        error@ == "authorization_pending"@ ==> (r matches PollDecision::KeepPolling { extra_secs } && extra_secs == 0),
        error@ == "slow_down"@ ==> (r matches PollDecision::KeepPolling { extra_secs } && extra_secs == 5),
        error@ == "expired_token"@ ==> r matches PollDecision::Stop(OAuthError::DeviceFlowExpired),
        error@ == "access_denied"@ ==> (r matches PollDecision::Stop(OAuthError::TokenExchange(m)) && m@
            == "access denied by user"@),
        !(error@ == "authorization_pending"@ || error@ == "slow_down"@ || error@ == "expired_token"@
            || error@ == "access_denied"@) ==> (r matches PollDecision::Stop(OAuthError::TokenExchange(m))
            && m@ == "device flow error: "@ + error@),
{
    proof {
        reveal_strlit("authorization_pending");
        reveal_strlit("slow_down");
        reveal_strlit("expired_token");
        reveal_strlit("access_denied");
    }
    assert("authorization_pending"@.len() == 21);
    assert("slow_down"@.len() == 9);
    assert("expired_token"@.len() == 13);
    assert("access_denied"@.len() == 13);
    assert("slow_down"@ != "authorization_pending"@);
    assert("expired_token"@ != "authorization_pending"@);
    assert("expired_token"@ != "slow_down"@);
    assert("access_denied"@ != "authorization_pending"@);
    assert("access_denied"@ != "slow_down"@);
    assert("access_denied"@[0] != "expired_token"@[0]);
    if str_eq(error, "authorization_pending") {
        PollDecision::KeepPolling { extra_secs: 0 }
    } else if str_eq(error, "slow_down") {
        PollDecision::KeepPolling { extra_secs: 5 }
    } else if str_eq(error, "expired_token") {
        PollDecision::Stop(OAuthError::DeviceFlowExpired)
    } else if str_eq(error, "access_denied") {
        PollDecision::Stop(OAuthError::TokenExchange(to_owned("access denied by user")))
    } else {
        let mut m = to_owned("device flow error: ");
        push_str(&mut m, error);
        PollDecision::Stop(OAuthError::TokenExchange(m))
    }
}

/// The error for an endpoint that answered with a failure status:
/// `"{what} {status}: {body}"`.
pub fn endpoint_failure(what: &str, status: &str, body: &str) -> (r: OAuthError)
    ensures
        r matches OAuthError::TokenExchange(m) && m@ == what@ + " "@ + status@ + ": "@ + body@,
{
    let mut m = to_owned(what);
    push_str(&mut m, " ");
    push_str(&mut m, status);
    push_str(&mut m, ": ");
    push_str(&mut m, body);
    OAuthError::TokenExchange(m)
}

/// The error when neither well-known endpoint gave metadata.
pub fn discovery_failed(server_url: &str) -> (r: OAuthError)
    ensures
        r matches OAuthError::Discovery(m) && m@ == "no OAuth metadata found at "@ + server_url@,
{
    let mut m = to_owned("no OAuth metadata found at ");
    push_str(&mut m, server_url);
    OAuthError::Discovery(m)
}

/// Reads the browser's callback request for a login that sent `state`:
/// the request target's query (a parse failure is a URL error), then the
/// authorization code or the reason there is none (see
/// `spec_callback_outcome`).
pub fn callback_code(request: &str, state: &str) -> (r: Result<String, OAuthError>)
    ensures
        match callback_pairs("http://localhost"@ + spec_request_path(request@)) {
            Err(e) => r matches Err(OAuthError::Url(f)) && f == e,
            Ok(pairs) => match spec_callback_outcome(pairs, state@) {
                Ok(code) => r matches Ok(c) && c@ == code,
                Err(why) => r matches Err(OAuthError::TokenExchange(m)) && m@ == why,
            },
        },
{
    let path = request_path(request);
    let mut url = to_owned("http://localhost");
    push_str(&mut url, path.as_str());
    match callback_query(url.as_str()) {
        Ok(pairs) => callback_outcome(&pairs, state),
        Err(e) => Err(OAuthError::Url(e)),
    }
}

} // verus!
