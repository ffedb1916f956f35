use vstd::prelude::*;
use vstd::string::StringExecFns;

use crate::errors::CoreError;
use crate::http::{basic_auth_view, check_status, is_success_status, HttpRequest};
use crate::json::{json_str_field, json_str_field_of};
use crate::repo::Password;
use crate::source::opt_view;
use crate::text::{trim_leading_slashes, trimmed_path};

verus! {

/// A password stored for a GitHub repository: the literal secret, or the
/// name of the environment variable that holds it at use time.
#[derive(Debug, PartialEq, Eq)]
pub enum GithubPassword {
    Saved(String),
    FromEnv(String),
}

/// Basic-auth material stored for a GitHub repository.
#[derive(Debug, PartialEq, Eq)]
pub struct GithubAuth {
    pub username: String,
    pub password: GithubPassword,
}

/// A repository fetched through the GitHub contents API.
#[derive(Debug, PartialEq, Eq)]
pub struct GithubRepo {
    /// The `owner/name` part of the repository's URL.
    pub project_id: String,
    pub auth: Option<GithubAuth>,
}

/// The contents-API URL for one file of one project at one ref.
pub open spec fn github_contents_url(project: Seq<char>, path: Seq<char>, rref: Seq<char>) -> Seq<
    char,
> {
    "https://api.github.com/repos/"@ + project + "/contents/"@ + path + "?ref="@ + rref
}

/// The repository-metadata URL for one project.
pub open spec fn github_repos_url(project: Seq<char>) -> Seq<char> {
    "https://api.github.com/repos/"@ + project
}

/// The environment variable a GitHub fetch must read, when the stored
/// credential defers to one.
pub open spec fn github_required_env(r: &GithubRepo) -> Option<Seq<char>> {
    match r.auth {
        Option::Some(a) => match a.password {
            GithubPassword::FromEnv(var) => Option::Some(var@),
            GithubPassword::Saved(_) => Option::None,
        },
        Option::None => Option::None,
    }
}

impl GithubRepo {
    /// The provider tag of this backend.
    pub fn provider(&self) -> (r: &'static str)
        ensures
            r@ == "github"@,
    {
        "github"
    }

    /// The human-readable description, `github.com/<project>`.
    pub fn readable(&self) -> (r: String)
        ensures
            r@ == "github.com/"@ + self.project_id@,
    {
        let mut out = String::from_str("github.com/");
        out.append(self.project_id.as_str());
        out
    }

    /// An equal copy.
    pub fn duplicate(&self) -> (r: GithubRepo)
        ensures
            r == *self,
    {
        let auth = match &self.auth {
            Option::Some(a) => Option::Some(
                GithubAuth {
                    username: a.username.clone(),
                    password: match &a.password {
                        GithubPassword::Saved(p) => GithubPassword::Saved(p.clone()),
                        GithubPassword::FromEnv(v) => GithubPassword::FromEnv(v.clone()),
                    },
                },
            ),
            Option::None => Option::None,
        };
        GithubRepo { project_id: self.project_id.clone(), auth }
    }

    /// The name of the environment variable this repository's credential
    /// reads at use time, if any.  The embedding program looks it up right
    /// before the request and reports the result to `fetch_request`.
    pub fn required_env(&self) -> (r: Option<String>)
        ensures
            opt_view(r) == github_required_env(self),
    {
        match &self.auth {
            Option::Some(a) => match &a.password {
                GithubPassword::FromEnv(var) => Option::Some(var.clone()),
                GithubPassword::Saved(_) => Option::None,
            },
            Option::None => Option::None,
        }
    }

    /// The metadata request for one script: the contents-API URL at the
    /// requested ref, the GitHub media type, and basic authentication
    /// exactly when a credential is stored.  A credential deferred to an
    /// unset environment variable (`env_val` empty although one is
    /// required) fails the whole fetch with `MissingCredentialEnv`.
    pub fn fetch_request(&self, path: &str, rref: &str, env_val: Option<String>) -> (r: Result<
        HttpRequest,
        CoreError,
    >)
        ensures
            match r {
                Ok(req) => {
                    &&& req.url@ == github_contents_url(self.project_id@, path@, rref@)
                    &&& opt_view(req.accept) == Option::Some("application/vnd.github.v3+json"@)
                    &&& opt_view(req.user_agent) == Option::Some("rem-bash"@)
                    &&& req.private_token is None
                    &&& match self.auth {
                        Option::None => req.basic_auth is None,
                        Option::Some(a) => match a.password {
                            GithubPassword::Saved(p) => basic_auth_view(req.basic_auth)
                                == Option::Some((a.username@, p@)),
                            GithubPassword::FromEnv(_) => env_val matches Option::Some(v)
                                && basic_auth_view(req.basic_auth) == Option::Some(
                                (a.username@, v@),
                            ),
                        },
                    }
                },
                Err(e) => {
                    &&& github_required_env(self) is Some
                    &&& env_val is None
                    &&& match self.auth {
                        Option::Some(a) => match a.password {
                            GithubPassword::FromEnv(var) => e == CoreError::MissingCredentialEnv {
                                var,
                            },
                            GithubPassword::Saved(_) => false,
                        },
                        Option::None => false,
                    }
                },
            },
    {
        let mut url = String::from_str("https://api.github.com/repos/");
        url.append(self.project_id.as_str());
        url.append("/contents/");
        url.append(path);
        url.append("?ref=");
        url.append(rref);
        let basic_auth = match &self.auth {
            Option::None => Option::None,
            Option::Some(a) => match &a.password {
                GithubPassword::Saved(p) => Option::Some((a.username.clone(), p.clone())),
                GithubPassword::FromEnv(var) => match env_val {
                    Option::Some(v) => Option::Some((a.username.clone(), v)),
                    Option::None => {
                        return Err(CoreError::MissingCredentialEnv { var: var.clone() });
                    },
                },
            },
        };
        Ok(
            HttpRequest {
                url,
                accept: Option::Some(String::from_str("application/vnd.github.v3+json")),
                user_agent: Option::Some(String::from_str("rem-bash")),
                private_token: Option::None,
                basic_auth,
            },
        )
    }
}

/// Reads the metadata response of the contents API: a non-2xx status is a
/// `RemoteApiError` preserving status and body; a 2xx body must carry a
/// `download_url` string field, whose value is returned for the follow-up
/// download, and yields `ContentDecodeError` exactly when it does not.
pub fn github_read_download_url(status: u16, body: &str) -> (r: Result<String, CoreError>)
    ensures
        !is_success_status(status) ==> (match r {
            Err(e) => e matches CoreError::RemoteApiError { status: st, body: b } && st == status
                && b@ == body@,
            Ok(_) => false,
        }),
        is_success_status(status) ==> match json_str_field_of(body@, "download_url"@) {
            Option::Some(u) => match r {
                Ok(ru) => ru@ == u,
                Err(_) => false,
            },
            Option::None => r == Err::<String, CoreError>(CoreError::ContentDecodeError),
        },
{
    match check_status(status, body.to_owned()) {
        Err(e) => Err(e),
        Ok(()) => {
            match json_str_field(body, "download_url") {
                Option::Some(u) => Ok(u),
                Option::None => Err(CoreError::ContentDecodeError),
            }
        },
    }
}

/// The unauthenticated follow-up request that downloads the file content
/// from the URL the metadata response yielded.
pub fn github_download_request(download_url: String) -> (r: HttpRequest)
    ensures
        r.url == download_url,
        r.accept is None,
        opt_view(r.user_agent) == Option::Some("rem-bash"@),
        r.private_token is None,
        r.basic_auth is None,
{
    HttpRequest {
        url: download_url,
        accept: Option::None,
        user_agent: Option::Some(String::from_str("rem-bash")),
        private_token: Option::None,
        basic_auth: Option::None,
    }
}

/// The registration request for a GitHub repository named by the path
/// component of its URL.  A username without any credential is refused with
/// `UsernameRequiresCredential`, a credential without the username basic
/// authentication needs with `CredentialRequiresUsername`; otherwise the
/// request carries basic authentication exactly when a credential was
/// given (for an environment-variable credential, the value captured at
/// registration time).
pub fn github_register_request(path: &str, username: &Option<String>, password: &Password) -> (r:
    Result<HttpRequest, CoreError>)
    ensures
        match r {
            Err(e) => {
                if username is Some && password is Absent {
                    e == CoreError::UsernameRequiresCredential
                } else {
                    username is None && !(password is Absent) && e
                        == CoreError::CredentialRequiresUsername
                }
            },
            Ok(req) => {
                &&& !(username is Some && password is Absent)
                &&& !(username is None && !(password is Absent))
                &&& req.url@ == github_repos_url(trimmed_path(path@))
                &&& opt_view(req.accept) == Option::Some("application/vnd.github.v3+json"@)
                &&& opt_view(req.user_agent) == Option::Some("rem-bash"@)
                &&& req.private_token is None
                &&& match *password {
                    Password::Saved(p) => basic_auth_view(req.basic_auth) == Option::Some(
                        ((username->0)@, p@),
                    ),
                    Password::FromEnv(_, val) => basic_auth_view(req.basic_auth) == Option::Some(
                        ((username->0)@, val@),
                    ),
                    Password::Absent => req.basic_auth is None,
                }
            },
        },
{
    if username.is_some() && password.is_absent() {
        return Err(CoreError::UsernameRequiresCredential);
    }
    if username.is_none() && !password.is_absent() {
        return Err(CoreError::CredentialRequiresUsername);
    }
    let trimmed = trim_leading_slashes(path);
    let mut url = String::from_str("https://api.github.com/repos/");
    url.append(trimmed.as_str());
    let basic_auth = match password {
        Password::Saved(p) => match username {
            Option::Some(u) => Option::Some((u.clone(), p.clone())),
            Option::None => Option::None,
        },
        Password::FromEnv(_, val) => match username {
            Option::Some(u) => Option::Some((u.clone(), val.clone())),
            Option::None => Option::None,
        },
        Password::Absent => Option::None,
    };
    Ok(
        HttpRequest {
            url,
            accept: Option::Some(String::from_str("application/vnd.github.v3+json")),
            user_agent: Option::Some(String::from_str("rem-bash")),
            private_token: Option::None,
            basic_auth,
        },
    )
}

/// Concludes a GitHub registration: a non-2xx response is a
/// `RemoteApiError` preserving status and body; on success the repository
/// is recorded under the trimmed path, with the credential shape reduced to
/// what is persisted (an environment-variable credential keeps only the
/// variable name).  The same username-and-credential combinations are
/// refused as at the request, with the same errors.
pub fn github_register_finish(
    status: u16,
    body: String,
    path: &str,
    username: &Option<String>,
    password: &Password,
) -> (r: Result<GithubRepo, CoreError>)
    ensures
        username is Some && password is Absent ==> r == Err::<GithubRepo, CoreError>(
            CoreError::UsernameRequiresCredential,
        ),
        username is None && !(password is Absent) ==> r == Err::<GithubRepo, CoreError>(
            CoreError::CredentialRequiresUsername,
        ),
        (username is Some <==> !(password is Absent)) ==> {
            &&& !is_success_status(status) ==> r == Err::<GithubRepo, CoreError>(
                CoreError::RemoteApiError { status, body },
            )
            &&& is_success_status(status) ==> match r {
                Ok(repo) => {
                    &&& repo.project_id@ == trimmed_path(path@)
                    &&& match *username {
                        Option::None => repo.auth is None,
                        Option::Some(u) => match repo.auth {
                            Option::Some(a) => a.username == u && match *password {
                                Password::Saved(p) => a.password == GithubPassword::Saved(p),
                                Password::FromEnv(var, _) => a.password
                                    == GithubPassword::FromEnv(var),
                                Password::Absent => false,
                            },
                            Option::None => *password is Absent,
                        },
                    }
                },
                Err(_) => false,
            }
        },
{
    if username.is_some() && password.is_absent() {
        return Err(CoreError::UsernameRequiresCredential);
    }
    if username.is_none() && !password.is_absent() {
        return Err(CoreError::CredentialRequiresUsername);
    }
    match check_status(status, body) {
        Err(e) => Err(e),
        Ok(()) => {
            let auth = match username {
                Option::Some(u) => match password {
                    Password::Saved(p) => Option::Some(
                        GithubAuth {
                            username: u.clone(),
                            password: GithubPassword::Saved(p.clone()),
                        },
                    ),
                    Password::FromEnv(var, _) => Option::Some(
                        GithubAuth {
                            username: u.clone(),
                            password: GithubPassword::FromEnv(var.clone()),
                        },
                    ),
                    Password::Absent => Option::None,
                },
                Option::None => Option::None,
            };
            Ok(GithubRepo { project_id: trim_leading_slashes(path), auth })
        },
    }
}

} // verus!
