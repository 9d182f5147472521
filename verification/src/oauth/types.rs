//! OAuth wire types (RFC 8414 metadata, token responses) and the token
//! store.

use vstd::prelude::*;

use crate::clock::now_unix_secs;

verus! {

/// OAuth server metadata (RFC 8414).
#[derive(Debug, Clone)]
pub struct OAuthMetadata {
    pub issuer: Option<String>,
    pub authorization_endpoint: String,
    pub token_endpoint: String,
    pub revocation_endpoint: Option<String>,
    pub device_authorization_endpoint: Option<String>,
}

/// Token endpoint response.
#[derive(Debug, Clone)]
pub struct OAuthTokenResponse {
    pub access_token: String,
    pub token_type: Option<String>,
    pub expires_in: Option<u64>,
    pub refresh_token: Option<String>,
    pub scope: Option<String>,
}

/// Device authorization endpoint response (RFC 8628).
#[derive(Debug, Clone)]
pub struct DeviceAuthResponse {
    pub device_code: String,
    pub user_code: String,
    pub verification_uri: String,
    pub verification_uri_complete: Option<String>,
    pub expires_in: u64,
    pub interval: u64,
}

/// Lifetime of a device code when the server gives none (seconds).
pub fn default_expires_in() -> (r: u64)
    ensures
        r == 600,
{
    600
}

/// Polling interval when the server gives none (seconds).
pub fn default_interval() -> (r: u64)
    ensures
        r == 5,
{
    5
}

/// Tokens count as expired this many seconds early, so that a token is
/// not used just before it runs out mid-request.
pub const EXPIRY_SKEW_SECS: u64 = 60;

/// Whether a token with the given expiry counts as expired at `now`: it
/// has less than `EXPIRY_SKEW_SECS` left, or no known expiry.
pub open spec fn expired_at(expires_at: Option<u64>, now: u64) -> bool {
    match expires_at {
        Some(exp) => now + EXPIRY_SKEW_SECS >= exp,
        None => true,
    }
}

/// `expired_at` computed without overflow.
pub fn expired_at_time(expires_at: Option<u64>, now: u64) -> (r: bool)
    ensures
        r == expired_at(expires_at, now),
{
    match expires_at {
        Some(exp) => exp <= EXPIRY_SKEW_SECS || now >= exp - EXPIRY_SKEW_SECS,
        None => true,
    }
}

/// Cached tokens with expiry.
#[derive(Debug, Clone)]
pub struct TokenStore {
    pub access_token: Option<String>,
    pub refresh_token: Option<String>,
    pub expires_at: Option<u64>,
}

impl Default for TokenStore {
    fn default() -> (r: Self)
        ensures
            r.access_token is None && r.refresh_token is None && r.expires_at is None,
    {
        TokenStore { access_token: None, refresh_token: None, expires_at: None }
    }
}

impl TokenStore {
    /// Whether the tokens count as expired at `now` (seconds since the
    /// epoch).
    pub fn is_expired_at(&self, now: u64) -> (r: bool)
        ensures
            r == expired_at(self.expires_at, now),
    {
        expired_at_time(self.expires_at, now)
    }

    /// Whether the tokens count as expired now, by the system clock.
    pub fn is_expired(&self) -> (r: bool)
        ensures
            exists|now: u64| r == expired_at(self.expires_at, now),
            self.expires_at is None ==> r,
    {
        let now = now_unix_secs();
        self.is_expired_at(now)
    }
}

/// A token expiring before the skew window is over counts as expired, and
/// one expiring later does not; a token without expiry always counts as
/// expired.
pub proof fn law_expiry_skew(exp: u64, now: u64)
    requires
        now + EXPIRY_SKEW_SECS <= u64::MAX,
    ensures
        exp <= now + EXPIRY_SKEW_SECS ==> expired_at(Some(exp), now),
        exp > now + EXPIRY_SKEW_SECS ==> !expired_at(Some(exp), now),
        expired_at(None, now),
{
}

} // verus!
