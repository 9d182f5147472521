//! PKCE helpers: code verifier, S256 challenge, and state generation.

use base64::Engine;
use rand::Rng;
use sha2::Digest;
use vstd::prelude::*;
use vstd::string::StringSliceAdditionalSpecFns;

verus! {

/// The URL-safe base64 alphabet (RFC 4648 §5).
pub open spec fn b64_char(v: int) -> char {
    if v < 26 {
        (('A' as u32) + v) as char
    } else if v < 52 {
        (('a' as u32) + (v - 26)) as char
    } else if v < 62 {
        (('0' as u32) + (v - 52)) as char
    } else if v == 62 {
        '-'
    } else {
        '_'
    }
}

/// URL-safe base64 without padding (RFC 4648 §5): each three bytes become
/// four characters, a final two bytes three, a final byte two.
pub open spec fn base64url(bs: Seq<u8>) -> Seq<char>
    decreases bs.len(),
{
    if bs.len() >= 3 {
        let (a, b, c) = (bs[0] as int, bs[1] as int, bs[2] as int);
        seq![
            b64_char(a / 4),
            b64_char((a % 4) * 16 + b / 16),
            b64_char((b % 16) * 4 + c / 64),
            b64_char(c % 64),
        ] + base64url(bs.skip(3))
    } else if bs.len() == 2 {
        let (a, b) = (bs[0] as int, bs[1] as int);
        seq![b64_char(a / 4), b64_char((a % 4) * 16 + b / 16), b64_char((b % 16) * 4)]
    } else if bs.len() == 1 {
        let a = bs[0] as int;
        seq![b64_char(a / 4), b64_char((a % 4) * 16)]
    } else {
        Seq::empty()
    }
}

/// A character of the URL-safe base64 alphabet.
pub open spec fn is_b64url_char(c: char) -> bool {
    ('A' <= c && c <= 'Z') || ('a' <= c && c <= 'z') || ('0' <= c && c <= '9') || c == '-' || c == '_'
}

/// Encodes bytes as URL-safe base64 without padding
/// (`base64::engine::general_purpose::URL_SAFE_NO_PAD.encode`).
#[verifier::external_body]
pub(crate) fn base64url_encode(bytes: &[u8]) -> (r: String)
    ensures
        r@ == base64url(bytes@),
{
    base64::engine::general_purpose::URL_SAFE_NO_PAD.encode(bytes)
}

/// What SHA-256 gives for a byte string.
pub uninterp spec fn sha256(bytes: Seq<u8>) -> Seq<u8>;

/// The SHA-256 digest of bytes (`sha2::Sha256::digest`); the digest is 32
/// bytes long, the contract names it otherwise.
#[verifier::external_body]
pub(crate) fn sha256_digest(bytes: &[u8]) -> (r: Vec<u8>)
    ensures
        r@ == sha256(bytes@),
        r@.len() == 32,
{
    sha2::Sha256::digest(bytes).to_vec()
}

/// `n` bytes from the thread-local random generator
/// (`rand::Rng::fill` on `rand::thread_rng()`); nothing is promised of
/// them but their number.
#[verifier::external_body]
pub(crate) fn random_bytes(n: usize) -> (r: Vec<u8>)
    ensures
        r@.len() == n,
{
    let mut v = vec![0u8; n];
    rand::thread_rng().fill(&mut v[..]);
    v
}

/// Length of the unpadded encoding of `n` bytes.
pub open spec fn b64_len(n: int) -> int {
    4 * (n / 3) + if n % 3 == 0 {
        0int
    } else if n % 3 == 1 {
        2int
    } else {
        3int
    }
}

/// Every encoding has length `b64_len` and uses only URL-safe characters.
pub proof fn law_base64url_shape(bs: Seq<u8>)
    ensures
        base64url(bs).len() == b64_len(bs.len() as int),
        forall|i: int| 0 <= i < base64url(bs).len() ==> is_b64url_char(#[trigger] base64url(bs)[i]),
    decreases bs.len(),
{
    if bs.len() >= 3 {
        law_base64url_shape(bs.skip(3));
        let (a, b, c) = (bs[0] as int, bs[1] as int, bs[2] as int);
        lemma_b64_char_ok(a / 4);
        lemma_b64_char_ok((a % 4) * 16 + b / 16);
        lemma_b64_char_ok((b % 16) * 4 + c / 64);
        lemma_b64_char_ok(c % 64);
        let head = seq![
            b64_char(a / 4),
            b64_char((a % 4) * 16 + b / 16),
            b64_char((b % 16) * 4 + c / 64),
            b64_char(c % 64),
        ];
        let tail = base64url(bs.skip(3));
        assert forall|i: int| 0 <= i < base64url(bs).len() implies is_b64url_char(#[trigger] base64url(bs)[i]) by {
            if i < 4 {
                assert(base64url(bs)[i] == head[i]);
            } else {
                assert(base64url(bs)[i] == tail[i - 4]);
            }
        }
    } else if bs.len() == 2 {
        let (a, b) = (bs[0] as int, bs[1] as int);
        lemma_b64_char_ok(a / 4);
        lemma_b64_char_ok((a % 4) * 16 + b / 16);
        lemma_b64_char_ok((b % 16) * 4);
    } else if bs.len() == 1 {
        let a = bs[0] as int;
        lemma_b64_char_ok(a / 4);
        lemma_b64_char_ok((a % 4) * 16);
    }
}

proof fn lemma_b64_char_ok(v: int)
    requires
        0 <= v < 64,
    ensures
        is_b64url_char(b64_char(v)),
{
}

/// A fresh PKCE code verifier: 32 random bytes, base64url-encoded.
pub fn generate_verifier() -> (r: String)
    ensures
        exists|bs: Seq<u8>| bs.len() == 32 && r@ == #[trigger] base64url(bs),
        r@.len() == 43,
        forall|i: int| 0 <= i < r@.len() ==> is_b64url_char(#[trigger] r@[i]),
{
    let buf = random_bytes(32);
    let r = base64url_encode(buf.as_slice());
    proof {
        law_base64url_shape(buf@);
    }
    r
}

/// The S256 challenge of a verifier: the base64url SHA-256 digest of its
/// UTF-8 bytes.
pub fn generate_challenge(verifier: &str) -> (r: String)
    ensures
        r@ == base64url(sha256(verifier.spec_bytes())),
        r@.len() == 43,
        forall|i: int| 0 <= i < r@.len() ==> is_b64url_char(#[trigger] r@[i]),
{
    let digest = sha256_digest(verifier.as_bytes());
    let r = base64url_encode(digest.as_slice());
    proof {
        law_base64url_shape(digest@);
    }
    r
}

/// A fresh OAuth state value: 16 random bytes, base64url-encoded.
pub fn generate_state() -> (r: String)
    ensures
        exists|bs: Seq<u8>| bs.len() == 16 && r@ == #[trigger] base64url(bs),
        r@.len() == 22,
        forall|i: int| 0 <= i < r@.len() ==> is_b64url_char(#[trigger] r@[i]),
{
    let buf = random_bytes(16);
    let r = base64url_encode(buf.as_slice());
    proof {
        law_base64url_shape(buf@);
    }
    r
}

} // verus!
