//! OAuth2 for Stalwart Mail Server: well-known metadata discovery
//! (RFC 8414), Authorization Code + PKCE with a loopback callback, and the
//! Device Authorization Grant (RFC 8628).
//!
//! The requests themselves are sent by the caller; this module builds
//! what is sent and decides what each answer means.

pub mod flow;
pub mod pkce;
pub mod types;

pub use types::{DeviceAuthResponse, OAuthMetadata, OAuthTokenResponse, TokenStore};

use vstd::prelude::*;

use crate::strings::{push_str, to_owned};

verus! {

#[verifier::external_type_specification]
#[verifier::external_body]
pub struct ExReqwestClient(reqwest::Client);

#[verifier::external_type_specification]
#[verifier::external_body]
pub struct ExReqwestError(reqwest::Error);

#[verifier::external_type_specification]
#[verifier::external_body]
pub struct ExIoError(std::io::Error);

#[derive(Debug)]
pub enum OAuthError {
    /// No usable metadata at the well-known endpoints.
    Discovery(String),
    /// The HTTP request failed.
    Http(reqwest::Error),
    /// An endpoint refused or the answer was unusable.
    TokenExchange(String),
    /// The device code expired or the user denied access.
    DeviceFlowExpired,
    /// Reading or writing the callback connection failed.
    Io(std::io::Error),
    /// A URL did not parse.
    Url(url::ParseError),
}

/// OAuth client for a Stalwart server.
pub struct StalwartOAuth {
    pub http: reqwest::Client,
    pub server_url: String,
    pub client_id: String,
}

/// `s` without any trailing `c` (`str::trim_end_matches` with a char).
pub open spec fn trim_end_char(s: Seq<char>, c: char) -> Seq<char>
    decreases s.len(),
{
    if s.len() > 0 && s.last() == c {
        trim_end_char(s.drop_last(), c)
    } else {
        s
    }
}

/// Drops every trailing `/`.
pub fn trim_trailing_slashes(s: &str) -> (r: String)
    ensures
        r@ == trim_end_char(s@, '/'),
{
    let n = s.unicode_len();
    let mut end: usize = n;
    assert(s@.take(n as int) =~= s@);
    while end > 0 && s.get_char(end - 1) == '/'
        invariant
            n == s@.len(),
            end <= n,
            trim_end_char(s@, '/') == trim_end_char(s@.take(end as int), '/'),
        decreases end,
    {
        assert(s@.take(end as int).drop_last() =~= s@.take(end - 1));
        end = end - 1;
    }
    assert(trim_end_char(s@.take(end as int), '/') == s@.take(end as int));
    assert(s@.take(n as int) =~= s@);
    let r = s.substring_char(0, end);
    assert(r@ =~= s@.take(end as int));
    to_owned(r)
}

/// An HTTP client with a 30 second timeout
/// (`reqwest::Client::builder().timeout(..).build()`); whether building
/// it succeeds depends on the machine's TLS setup, so nothing is stated.
#[verifier::external_body]
fn build_http_client() -> (r: Result<reqwest::Client, reqwest::Error>) {
    reqwest::Client::builder().timeout(std::time::Duration::from_secs(30)).build()
}

impl StalwartOAuth {
    /// A client for the server at `server_url` (trailing slashes dropped).
    pub fn new(server_url: &str, client_id: &str) -> (r: Result<Self, OAuthError>)
        ensures
            r matches Ok(o) ==> o.server_url@ == trim_end_char(server_url@, '/') && o.client_id@
                == client_id@,
            r is Err ==> r matches Err(OAuthError::Http(_)),
    {
        let http = match build_http_client() {
            Ok(h) => h,
            Err(e) => {
                return Err(OAuthError::Http(e));
            },
        };
        Ok(StalwartOAuth {
            http,
            server_url: trim_trailing_slashes(server_url),
            client_id: to_owned(client_id),
        })
    }

    /// The well-known metadata URLs, tried in order.
    pub fn discovery_urls(&self) -> (r: (String, String))
        ensures
            r.0@ == self.server_url@ + "/.well-known/oauth-authorization-server"@,
            r.1@ == self.server_url@ + "/.well-known/openid-configuration"@,
    {
        let mut a = self.server_url.clone();
        push_str(&mut a, "/.well-known/oauth-authorization-server");
        let mut b = self.server_url.clone();
        push_str(&mut b, "/.well-known/openid-configuration");
        (a, b)
    }
}

} // verus!
