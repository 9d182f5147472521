//! Token caching for OAuth logins: the cached-token record, where it is
//! kept, and whether a login can use it, refresh it, or must start over.

use vstd::prelude::*;

use crate::clock::now_unix_secs;
use crate::digits::{hex, hex_char, push_hex, zero_pad};
use crate::oauth::pkce::{sha256, sha256_digest};
use crate::oauth::types::{expired_at, expired_at_time, OAuthTokenResponse};
use crate::strings::{push_char, push_str, str_eq, to_owned};
use vstd::string::StringSliceAdditionalSpecFns;

verus! {

/// Version 2 of the token store, keyed by profile and server URL.
#[derive(Debug, Clone)]
pub struct TokenStoreV2 {
    /// Schema version (always 2)
    pub version: u8,
    /// The server URL this token was issued for
    pub server_url: String,
    /// The profile name this token belongs to
    pub profile_name: String,
    /// OAuth access token
    pub access_token: Option<String>,
    /// OAuth refresh token
    pub refresh_token: Option<String>,
    /// Unix timestamp when the access token expires
    pub expires_at: Option<u64>,
}

impl TokenStoreV2 {
    /// Whether the access token counts as expired at `now`: less than a
    /// minute left, or no known expiry.
    pub fn is_expired_at(&self, now: u64) -> (r: bool)
        ensures
            r == expired_at(self.expires_at, now),
    {
        expired_at_time(self.expires_at, now)
    }

    /// Whether the access token counts as expired now, by the system clock.
    pub fn is_expired(&self) -> (r: bool)
        ensures
            exists|now: u64| r == expired_at(self.expires_at, now),
            self.expires_at is None ==> r,
    {
        self.is_expired_at(now_unix_secs())
    }
}

/// Two lowercase hex digits of a byte (`{:02x}`).
pub open spec fn hex_byte(b: u8) -> Seq<char> {
    zero_pad(hex(b as nat), 2)
}

/// Lowercase hex of bytes, two digits each.
pub open spec fn hex_bytes(bs: Seq<u8>) -> Seq<char>
    decreases bs.len(),
{
    if bs.len() == 0 {
        Seq::empty()
    } else {
        hex_bytes(bs.drop_last()) + hex_byte(bs.last())
    }
}

/// The cache file name of a profile on a server: the profile name and
/// the first eight hex digits of the SHA-256 of the server URL.
pub open spec fn spec_token_file_name(profile_name: Seq<char>, server_bytes: Seq<u8>) -> Seq<char> {
    profile_name + "-"@ + hex_bytes(sha256(server_bytes)).take(8) + ".json"@
}

fn push_hex_byte(out: &mut String, b: u8)
    ensures
        final(out)@ == old(out)@ + hex_byte(b),
{
    if b < 16 {
        push_char(out, '0');
        push_hex(out, b as u64);
        assert(hex(b as nat) =~= seq![hex_char(b as nat)]);
        assert(final(out)@ =~= old(out)@ + hex_byte(b));
    } else {
        push_hex(out, b as u64);
        assert(hex((b / 16) as nat) =~= seq![hex_char((b / 16) as nat)]);
        assert(hex(b as nat).len() == 2);
        assert(final(out)@ =~= old(out)@ + hex_byte(b));
    }
}

/// The file the tokens of `profile_name` on `server_url` are cached in.
pub fn token_file_name(profile_name: &str, server_url: &str) -> (r: String)
    ensures
        r@ == spec_token_file_name(profile_name@, server_url.spec_bytes()),
{
    let digest = sha256_digest(server_url.as_bytes());
    let mut hash = String::new();
    let mut i: usize = 0;
    while i < digest.len()
        invariant
            i <= digest@.len(),
            hash@ == hex_bytes(digest@.take(i as int)),
        decreases digest@.len() - i,
    {
        assert(digest@.take(i as int + 1).drop_last() =~= digest@.take(i as int));
        push_hex_byte(&mut hash, digest[i]);
        i = i + 1;
    }
    assert(digest@.take(i as int) =~= digest@);
    proof {
        lemma_hex_bytes_len(digest@);
    }
    let short = hash.as_str().substring_char(0, 8);
    assert(short@ =~= hash@.take(8));
    let mut r = to_owned(profile_name);
    push_str(&mut r, "-");
    push_str(&mut r, short);
    push_str(&mut r, ".json");
    r
}

proof fn lemma_hex_bytes_len(bs: Seq<u8>)
    ensures
        hex_bytes(bs).len() == 2 * bs.len(),
    decreases bs.len(),
{
    if bs.len() > 0 {
        lemma_hex_bytes_len(bs.drop_last());
        let b = bs.last();
        if b < 16 {
            assert(hex(b as nat) =~= seq![hex_char(b as nat)]);
        } else {
            assert(hex((b / 16) as nat) =~= seq![hex_char((b / 16) as nat)]);
        }
    }
}

/// A cached record read back from disk, kept only when it was written
/// for this server.
pub fn accept_token_store(store: TokenStoreV2, server_url: &str) -> (r: Option<TokenStoreV2>)
    ensures
        store.server_url@ == server_url@ ==> r == Some(store),
        store.server_url@ != server_url@ ==> r is None,
{
    if str_eq(store.server_url.as_str(), server_url) {
        Some(store)
    } else {
        None
    }
}

/// What a login does with the cached tokens.
#[derive(Debug)]
pub enum LoginStep {
    /// The cached access token is still good.
    UseCached(OAuthTokenResponse),
    /// Trade the refresh token for new tokens (start over if that fails).
    Refresh(String),
    /// Run the interactive flow.
    FullLogin,
}

fn clone_opt(o: &Option<String>) -> (r: Option<String>)
    ensures
        r == *o,
{
    match o {
        Some(s) => Some(s.clone()),
        None => None,
    }
}

/// The first step of a login, given the cached record (if any) at `now`:
/// an unexpired access token is used as is, else a refresh token is
/// tried, else the interactive flow runs.
pub fn cached_login_step(store: Option<&TokenStoreV2>, now: u64) -> (r: LoginStep)
    ensures
        match store {
            None => r is FullLogin,
            Some(s) => if !expired_at(s.expires_at, now) && s.access_token is Some {
                r matches LoginStep::UseCached(t) && Some(t.access_token) == s.access_token
                    && (t.token_type is Some && t.token_type->0@ == "Bearer"@) && t.expires_in is None
                    && t.refresh_token == s.refresh_token && t.scope is None
            } else {
                match s.refresh_token {
                    Some(rt) => r matches LoginStep::Refresh(x) && x == rt,
                    None => r is FullLogin,
                }
            },
        },
{
    match store {
        None => LoginStep::FullLogin,
        Some(s) => {
            if !s.is_expired_at(now) {
                match &s.access_token {
                    Some(token) => {
                        return LoginStep::UseCached(
                            OAuthTokenResponse {
                                access_token: token.clone(),
                                token_type: Some(to_owned("Bearer")),
                                expires_in: None,
                                refresh_token: clone_opt(&s.refresh_token),
                                scope: None,
                            },
                        );
                    },
                    None => {},
                }
            }
            match &s.refresh_token {
                Some(rt) => LoginStep::Refresh(rt.clone()),
                None => LoginStep::FullLogin,
            }
        },
    }
}

/// The record to cache after a login at `now`: the new tokens, expiring
/// `expires_in` seconds from now when the server says so.
pub fn token_store_for(profile_name: &str, server_url: &str, tokens: &OAuthTokenResponse, now: u64) -> (r: TokenStoreV2)
    requires
        tokens.expires_in matches Some(e) ==> now + e <= u64::MAX,
    ensures
        r.version == 2,
        r.server_url@ == server_url@,
        r.profile_name@ == profile_name@,
        r.access_token == Some(tokens.access_token),
        r.refresh_token == tokens.refresh_token,
        r.expires_at == match tokens.expires_in {
            Some(e) => Some((now + e) as u64),
            None => None,
        },
{
    TokenStoreV2 {
        version: 2,
        server_url: to_owned(server_url),
        profile_name: to_owned(profile_name),
        access_token: Some(tokens.access_token.clone()),
        refresh_token: clone_opt(&tokens.refresh_token),
        expires_at: match tokens.expires_in {
            Some(e) => Some(now + e),
            None => None,
        },
    }
}

/// A token just cached from a login with a known lifetime of more than a
/// minute is used as is by the next login at the same moment.
pub proof fn law_fresh_tokens_are_reused(expires_in: u64, now: u64)
    requires
        expires_in > 60,
        now + expires_in <= u64::MAX,
    ensures
        !expired_at(Some((now + expires_in) as u64), now),
{
}

} // verus!
