use vstd::prelude::*;

use crate::cache::GitCmd;

verus! {

/// Every failure the resolving core can report.  Errors carry the data the
/// embedding program needs to render an accurate message; none is retried
/// or swallowed inside the core.
#[derive(Debug, PartialEq, Eq)]
pub enum CoreError {
    /// The raw identifier matched neither the saved-alias grammar nor the
    /// direct-git grammar.  Carries the original string.
    UnrecognizedIdentifier { identifier: String },
    /// The script path does not end in the extension configured for the
    /// requested action.
    ExtensionMismatch { expected: String },
    /// A repository was given both a literal credential and an
    /// environment-variable credential.
    ConfigurationError,
    /// A username was supplied without any credential.
    UsernameRequiresCredential,
    /// A password or token was supplied for a repository whose
    /// authentication needs a username, and none was given.
    CredentialRequiresUsername,
    /// The alias named by the identifier is not in the saved repository table.
    RepoNotFound { alias: String },
    /// A git invocation exited with a nonzero status.  Carries the failing
    /// command and the captured standard-error text verbatim.
    GitCommandFailed { command: GitCmd, stderr: String },
    /// A remote API answered with a non-2xx status.  Carries the original
    /// status code and the response body.
    RemoteApiError { status: u16, body: String },
    /// A credential refers to an environment variable that is unset.
    MissingCredentialEnv { var: String },
    /// A response body could not be decoded (malformed JSON, base64 or UTF-8).
    ContentDecodeError,
    /// The checked-out script file could not be read as UTF-8 text.
    ContentReadError,
    /// A cache directory could not be created (`create` true) or removed.
    CacheDirFailed { create: bool },
    /// The repository URI could not be parsed as an absolute URL.
    UriNotRecognized,
    /// The repository URI has no host component.
    NoHostInUri,
    /// The URI's host is neither a known GitHub nor GitLab host.
    UnrecognizedProvider,
}

} // verus!
