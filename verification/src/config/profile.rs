//! Profile types: auth methods, folder mappings, per-profile settings.

use vstd::prelude::*;

use crate::secret::Secret;

verus! {

/// Authentication method for a profile.
#[derive(Clone)]
pub enum AuthMethod {
    /// HTTP Basic auth with username:password (app password)
    AppPassword { username: String, password: Secret<String> },
    /// Bearer token (API key)
    ApiKey { token: Secret<String> },
    /// OAuth2 browser flow (Authorization Code + PKCE)
    OAuthBrowser { client_id: String },
    /// OAuth2 Device Authorization Grant
    OAuthDevice { client_id: String },
}

/// A named connection profile.
#[derive(Clone)]
pub struct Profile {
    /// JMAP server URL (e.g. "https://mail.example.com")
    pub server_url: String,
    /// Authentication configuration
    pub auth: AuthMethod,
    /// Default "From" email address for this profile
    pub from_email: Option<String>,
    /// Default "From" display name
    pub from_name: Option<String>,
    /// Folder mappings for mail actions (sent, archive, spam, trash).
    /// Values are mailbox names or paths (e.g. "Archive/2026").
    pub folders: FolderMappings,
    /// Format for composing emails: "plain" (default) or "markdown".
    pub compose_format: Option<String>,
    /// Email signature appended to new messages and replies.
    pub signature: Option<String>,
    /// Allow non-HTTPS server URLs (for local development).
    pub allow_insecure: bool,
    /// Whether destructive actions (delete, archive, spam) require y/n
    /// confirmation. Defaults to `true`.
    pub confirm_actions: bool,
}

/// The value `confirm_actions` takes when the configuration omits it.
pub fn default_true() -> (r: bool)
    ensures
        r,
{
    true
}

/// Configurable folder mappings for mail actions.
#[derive(Clone)]
pub struct FolderMappings {
    /// Mailbox name/path for sent mail (default: the server's sent role, then "Sent")
    pub sent: Option<String>,
    /// Mailbox name/path for archiving (default: "Archive")
    pub archive: Option<String>,
    /// Mailbox name/path for spam/junk (default: "Junk")
    pub spam: Option<String>,
    /// Mailbox name/path for trash/deleted (default: "Trash")
    pub trash: Option<String>,
}

impl Default for FolderMappings {
    fn default() -> (r: Self)
        ensures
            r.sent is None,
            r.archive is None,
            r.spam is None,
            r.trash is None,
    {
        FolderMappings { sent: None, archive: None, spam: None, trash: None }
    }
}

} // verus!
