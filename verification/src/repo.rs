use vstd::prelude::*;
use vstd::string::StringExecFns;

use crate::errors::CoreError;
use crate::git::GitRepo;
use crate::github::GithubRepo;
use crate::gitlab::GitlabRepo;
use crate::text::{starts_with_spec, str_equal, str_starts_with};
use crate::urlx::{url_parts, url_parts_of};

verus! {

/// A password or token input, as collected when a repository is registered.
/// `FromEnv` carries the variable name and the value it had at registration
/// time; only the name is persisted, the value is re-read at every use.
#[derive(Debug, PartialEq)]
pub enum Password {
    Saved(String),
    FromEnv(String, String),
    Absent,
}

impl Password {
    /// Decides the credential shape from the three mutually exclusive input
    /// sources of a registration command: a literal password, an
    /// environment-variable reference (name and current value), and a value
    /// read from standard input.  Giving both a literal and an
    /// environment-variable credential is a configuration error; it is
    /// reported, never resolved silently in favour of one of the two.
    pub fn from_options(
        literal: Option<String>,
        env_pair: Option<(String, String)>,
        stdin_value: Option<String>,
    ) -> (r: Result<Password, CoreError>)
        ensures
            literal is Some && env_pair is Some ==> r == Err::<Password, CoreError>(
                CoreError::ConfigurationError,
            ),
            literal is Some && env_pair is None ==> r == Ok::<Password, CoreError>(
                Password::Saved(literal->0),
            ),
            literal is None && env_pair is Some ==> r == Ok::<Password, CoreError>(
                Password::FromEnv((env_pair->0).0, (env_pair->0).1),
            ),
            literal is None && env_pair is None && stdin_value is Some ==> r == Ok::<
                Password,
                CoreError,
            >(Password::Saved(stdin_value->0)),
            literal is None && env_pair is None && stdin_value is None ==> r == Ok::<
                Password,
                CoreError,
            >(Password::Absent),
    {
        match (literal, env_pair) {
            (Option::Some(_), Option::Some(_)) => Err(CoreError::ConfigurationError),
            (Option::Some(pass), Option::None) => Ok(Password::Saved(pass)),
            (Option::None, Option::Some((var, value))) => Ok(Password::FromEnv(var, value)),
            (Option::None, Option::None) => match stdin_value {
                Option::Some(buf) => Ok(Password::Saved(buf)),
                Option::None => Ok(Password::Absent),
            },
        }
    }

    /// True when no credential was given.
    pub fn is_absent(&self) -> (b: bool)
        ensures
            b == (self is Absent),
    {
        match self {
            Password::Absent => true,
            _ => false,
        }
    }
}

/// One saved repository: the closed set of fetch backends.  The provider
/// set is small, fixed and known, so a tagged variant dispatched by match
/// stands in for runtime type registration.
#[derive(Debug, PartialEq, Eq)]
pub enum Repo {
    Git(GitRepo),
    Github(GithubRepo),
    Gitlab(GitlabRepo),
}

impl Repo {
    /// The provider tag that names this backend in the configuration.
    pub fn provider(&self) -> (r: &'static str)
        ensures
            match self {
                Repo::Git(_) => r@ == "git"@,
                Repo::Github(_) => r@ == "github"@,
                Repo::Gitlab(_) => r@ == "gitlab"@,
            },
    {
        match self {
            Repo::Git(g) => g.provider(),
            Repo::Github(g) => g.provider(),
            Repo::Gitlab(g) => g.provider(),
        }
    }

    /// The human-readable description shown when repositories are listed.
    pub fn readable(&self) -> (r: String)
        ensures
            match self {
                Repo::Git(g) => r@ == g.url@,
                Repo::Github(g) => r@ == "github.com/"@ + g.project_id@,
                Repo::Gitlab(g) => r@ == "gitlab.com/"@ + g.path@,
            },
    {
        match self {
            Repo::Git(g) => g.readable(),
            Repo::Github(g) => g.readable(),
            Repo::Gitlab(g) => g.readable(),
        }
    }

    /// An equal copy.
    pub fn duplicate(&self) -> (r: Repo)
        ensures
            r == *self,
    {
        match self {
            Repo::Git(g) => Repo::Git(g.duplicate()),
            Repo::Github(g) => Repo::Github(g.duplicate()),
            Repo::Gitlab(g) => Repo::Gitlab(g.duplicate()),
        }
    }
}

/// The remote platforms that can be registered by URL.
#[derive(Clone, Copy, PartialEq, Eq, Structural, Debug)]
pub enum ProviderKind {
    Github,
    Gitlab,
}

/// Selects the platform for a registration URL's host: exactly
/// `gitlab.com` and `github.com` are recognized; no host at all is its own
/// error.
pub fn provider_for_host(host: &Option<String>) -> (r: Result<ProviderKind, CoreError>)
    ensures
        match host {
            Option::None => r == Err::<ProviderKind, CoreError>(CoreError::NoHostInUri),
            Option::Some(h) => {
                if h@ == "gitlab.com"@ {
                    r == Ok::<ProviderKind, CoreError>(ProviderKind::Gitlab)
                } else if h@ == "github.com"@ {
                    r == Ok::<ProviderKind, CoreError>(ProviderKind::Github)
                } else {
                    r == Err::<ProviderKind, CoreError>(CoreError::UnrecognizedProvider)
                }
            },
        },
{
    match host {
        Option::None => Err(CoreError::NoHostInUri),
        Option::Some(h) => {
            if str_equal(h.as_str(), "gitlab.com") {
                Ok(ProviderKind::Gitlab)
            } else if str_equal(h.as_str(), "github.com") {
                Ok(ProviderKind::Github)
            } else {
                Err(CoreError::UnrecognizedProvider)
            }
        },
    }
}

/// The URI a registration actually parses: a bare `gitlab.com...` or
/// `github.com...` gets an `https://` scheme prepended, everything else is
/// taken as written.
pub open spec fn adjusted_uri(uri: Seq<char>) -> Seq<char> {
    if starts_with_spec(uri, "gitlab.com"@) || starts_with_spec(uri, "github.com"@) {
        "https://"@ + uri
    } else {
        uri
    }
}

/// Prepends the `https://` scheme to a bare platform URI.
pub fn registration_url(uri: &str) -> (r: String)
    ensures
        r@ == adjusted_uri(uri@),
{
    if str_starts_with(uri, "gitlab.com") || str_starts_with(uri, "github.com") {
        let mut out = String::from_str("https://");
        out.append(uri);
        out
    } else {
        uri.to_owned()
    }
}

/// Where a registration URL points: the platform and the URL's path
/// component, from which the platform derives its project identifier.
pub struct RegistrationTarget {
    pub kind: ProviderKind,
    pub path: String,
}

/// Resolves a registration URI to a platform and project path: a URI that
/// does not parse as an absolute hierarchical URL is refused, and the host
/// picks the platform.
pub fn registration_target(uri: &str) -> (r: Result<RegistrationTarget, CoreError>)
    ensures
        match url_parts_of(adjusted_uri(uri@)) {
            Option::None => r == Err::<RegistrationTarget, CoreError>(CoreError::UriNotRecognized),
            Option::Some((host, path, cannot_be_a_base)) => {
                if cannot_be_a_base {
                    r == Err::<RegistrationTarget, CoreError>(CoreError::UriNotRecognized)
                } else {
                    match host {
                        Option::None => r == Err::<RegistrationTarget, CoreError>(
                            CoreError::NoHostInUri,
                        ),
                        Option::Some(h) => {
                            if h == "gitlab.com"@ {
                                match r {
                                    Ok(t) => t.kind == ProviderKind::Gitlab && t.path@ == path,
                                    Err(_) => false,
                                }
                            } else if h == "github.com"@ {
                                match r {
                                    Ok(t) => t.kind == ProviderKind::Github && t.path@ == path,
                                    Err(_) => false,
                                }
                            } else {
                                r == Err::<RegistrationTarget, CoreError>(
                                    CoreError::UnrecognizedProvider,
                                )
                            }
                        },
                    }
                }
            },
        },
{
    let adjusted = registration_url(uri);
    let parts = match url_parts(adjusted.as_str()) {
        Option::Some(p) => p,
        Option::None => {
            return Err(CoreError::UriNotRecognized);
        },
    };
    if parts.cannot_be_a_base {
        return Err(CoreError::UriNotRecognized);
    }
    let kind = match provider_for_host(&parts.host) {
        Ok(k) => k,
        Err(e) => {
            return Err(e);
        },
    };
    Ok(RegistrationTarget { kind, path: parts.path })
}

} // verus!
