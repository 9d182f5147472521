//! URL scheme validation and header value injection prevention.

use vstd::prelude::*;

use crate::strings::to_owned;

verus! {

/// The host part of a parsed URL.
#[derive(Debug, Clone)]
pub enum UrlHost {
    Domain(String),
    Ipv4([u8; 4]),
    Ipv6([u16; 8]),
}

/// What validation reads of a parsed URL: its scheme and its host.
#[derive(Debug, Clone)]
pub struct UrlParts {
    pub scheme: String,
    pub host: Option<UrlHost>,
}

/// The host of a parsed URL, as plain values.
pub enum HostView {
    Domain(Seq<char>),
    Ipv4(Seq<u8>),
    Ipv6(Seq<u16>),
}

impl View for UrlParts {
    type V = (Seq<char>, Option<HostView>);

    open spec fn view(&self) -> (Seq<char>, Option<HostView>) {
        (
            self.scheme@,
            match self.host {
                Some(UrlHost::Domain(d)) => Some(HostView::Domain(d@)),
                Some(UrlHost::Ipv4(a)) => Some(HostView::Ipv4(a@)),
                Some(UrlHost::Ipv6(a)) => Some(HostView::Ipv6(a@)),
                None => None,
            },
        )
    }
}

#[verifier::external_type_specification]
#[verifier::external_body]
pub struct ExUrlParseError(url::ParseError);

/// Errors produced by input validation functions.
#[derive(Debug)]
pub enum ValidateError {
    /// The server URL does not use HTTPS and is not a loopback address.
    InsecureUrl(String),
    /// A header value contains CR/LF characters, indicating possible injection.
    HeaderInjection(String),
    /// The URL could not be parsed.
    UrlParse(url::ParseError),
}

/// What `url::Url::parse` makes of a string: its scheme and host, or the
/// parse error.
pub uninterp spec fn url_parse(s: Seq<char>) -> Result<(Seq<char>, Option<HostView>), url::ParseError>;

/// Parses a URL with `url::Url::parse` and reads its scheme and host
/// (`Url::scheme`, `Url::host`). The contract only names the outcome: it
/// is what `url_parse` gives for the input text.
#[verifier::external_body]
fn parse_url(s: &str) -> (r: Result<UrlParts, url::ParseError>)
    ensures
        match (r, url_parse(s@)) {
            (Ok(p), Ok(v)) => p@ == v,
            (Err(e), Err(f)) => e == f,
            _ => false,
        },
{
    let u = url::Url::parse(s)?;
    let host = match u.host() {
        Some(url::Host::Domain(d)) => Some(UrlHost::Domain(d.to_string())),
        Some(url::Host::Ipv4(a)) => Some(UrlHost::Ipv4(a.octets())),
        Some(url::Host::Ipv6(a)) => Some(UrlHost::Ipv6(a.segments())),
        None => None,
    };
    Ok(UrlParts { scheme: u.scheme().to_string(), host })
}

/// Loopback hosts: `localhost`, 127.0.0.0/8 and `::1`.
pub open spec fn spec_is_loopback(host: Option<HostView>) -> bool {
    match host {
        Some(HostView::Domain(d)) => d == "localhost"@,
        Some(HostView::Ipv4(a)) => a.len() == 4 && a[0] == 127,
        Some(HostView::Ipv6(a)) => a == seq![0u16, 0, 0, 0, 0, 0, 0, 1],
        None => false,
    }
}

/// Whether a parsed URL is acceptable as a server address.
pub open spec fn url_accepted(parts: (Seq<char>, Option<HostView>), allow_insecure: bool) -> bool {
    allow_insecure || parts.0 == "https"@ || (parts.0 == "http"@ && spec_is_loopback(parts.1))
}

/// Check whether a parsed URL points to a loopback address.
fn is_loopback(host: &Option<UrlHost>) -> (r: bool)
    ensures
        r == spec_is_loopback(
            match host {
                Some(UrlHost::Domain(d)) => Some(HostView::Domain(d@)),
                Some(UrlHost::Ipv4(a)) => Some(HostView::Ipv4(a@)),
                Some(UrlHost::Ipv6(a)) => Some(HostView::Ipv6(a@)),
                None => None,
            },
        ),
{
    match host {
        Some(UrlHost::Domain(d)) => crate::strings::str_eq(d.as_str(), "localhost"),
        Some(UrlHost::Ipv4(a)) => a[0] == 127,
        Some(UrlHost::Ipv6(a)) => {
            let r = a[0] == 0 && a[1] == 0 && a[2] == 0 && a[3] == 0 && a[4] == 0 && a[5] == 0
                && a[6] == 0 && a[7] == 1;
            assert(r == (a@ =~= seq![0u16, 0, 0, 0, 0, 0, 0, 1]));
            r
        },
        None => false,
    }
}

/// The verdict on a URL whose parse gave `parsed`: parse errors pass
/// through, an accepted URL gives `Ok`, any other `InsecureUrl(url)`.
pub fn check_parsed_url(url: &str, parsed: Result<UrlParts, url::ParseError>, allow_insecure: bool) -> (r: Result<(), ValidateError>)
    ensures
        match parsed {
            Err(e) => r == Err::<(), ValidateError>(ValidateError::UrlParse(e)),
            Ok(p) => if url_accepted(p@, allow_insecure) {
                r is Ok
            } else {
                r matches Err(ValidateError::InsecureUrl(u)) && u@ == url@
            },
        },
{
    match parsed {
        Err(e) => Err(ValidateError::UrlParse(e)),
        Ok(p) => {
            if allow_insecure {
                return Ok(());
            }
            if crate::strings::str_eq(p.scheme.as_str(), "https") {
                return Ok(());
            }
            if crate::strings::str_eq(p.scheme.as_str(), "http") && is_loopback(&p.host) {
                return Ok(());
            }
            Err(ValidateError::InsecureUrl(to_owned(url)))
        },
    }
}

/// Validate that a server URL uses HTTPS (or is loopback for development).
///
/// Accepts the URL if:
/// - `allow_insecure` is true (any scheme permitted), or
/// - the scheme is `https`, or
/// - the scheme is `http` AND the host is a loopback address (127.0.0.1, ::1, localhost).
///
/// All other combinations are rejected with [`ValidateError::InsecureUrl`];
/// text that does not parse as a URL with [`ValidateError::UrlParse`].
pub fn validate_server_url(url: &str, allow_insecure: bool) -> (r: Result<(), ValidateError>)
    ensures
        match url_parse(url@) {
            Err(e) => r == Err::<(), ValidateError>(ValidateError::UrlParse(e)),
            Ok(p) => if url_accepted(p, allow_insecure) {
                r is Ok
            } else {
                r matches Err(ValidateError::InsecureUrl(u)) && u@ == url@
            },
        },
{
    let parsed = parse_url(url);
    check_parsed_url(url, parsed, allow_insecure)
}

/// Whether a string holds a carriage return or a line feed.
pub open spec fn has_line_break(s: Seq<char>) -> bool {
    exists|i: int| 0 <= i < s.len() && (s[i] == '\r' || s[i] == '\n')
}

/// Validate that a header value contains no CR or LF characters.
///
/// Rejects values containing `\r` (0x0D) or `\n` (0x0A) to prevent header
/// injection attacks.
pub fn validate_header_value(name: &str, value: &str) -> (r: Result<(), ValidateError>)
    ensures
        !has_line_break(value@) <==> r is Ok,
        has_line_break(value@) ==> (r matches Err(ValidateError::HeaderInjection(n)) && n@ == name@),
{
    let n = value.unicode_len();
    let mut i: usize = 0;
    while i < n
        invariant
            n == value@.len(),
            i <= n,
            forall|j: int| 0 <= j < i ==> value@[j] != '\r' && value@[j] != '\n',
        decreases n - i,
    {
        let c = value.get_char(i);
        if c == '\r' || c == '\n' {
            return Err(ValidateError::HeaderInjection(to_owned(name)));
        }
        i = i + 1;
    }
    Ok(())
}

} // verus!
