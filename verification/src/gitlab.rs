use vstd::prelude::*;
use vstd::string::StringExecFns;
use vstd::string::StringSliceAdditionalSpecFns;
use vstd::utf8::{decode_utf8, encode_utf8, valid_utf8};

use crate::errors::CoreError;
use crate::http::{check_status, is_success_status, HttpRequest};
use crate::json::{json_str_field, json_str_field_of, json_u64_field, json_u64_field_of};
use crate::repo::Password;
use crate::source::opt_view;
use crate::text::{dec_str, digit_char, trim_leading_slashes, trimmed_path, u64_to_string};

verus! {

/// A token stored for a GitLab repository: the literal secret, or the name
/// of the environment variable that holds it at use time.
#[derive(Debug, PartialEq, Eq)]
pub enum GitlabToken {
    Saved(String),
    FromEnv(String),
}

/// A repository fetched through the GitLab repository-files API.
#[derive(Debug, PartialEq, Eq)]
pub struct GitlabRepo {
    /// The numeric project id, in decimal.
    pub project_id: String,
    /// The project's URL path, kept for display.
    pub path: String,
    pub token: Option<GitlabToken>,
}

// ---------------------------------------------------------------------------
// Percent-encoding, as the GitLab API asks for path components.
// ---------------------------------------------------------------------------
/// A byte that percent-encoding leaves as it is: an ASCII alphanumeric or
/// one of `-`, `.`, `_`, `~`.
pub open spec fn is_unreserved_byte(b: u8) -> bool {
    ||| 48 <= b <= 57  // '0' through '9'
    ||| 65 <= b <= 90  // 'A' through 'Z'
    ||| 97 <= b <= 122  // 'a' through 'z'
    ||| b == 45  // '-'
    ||| b == 46  // '.'
    ||| b == 95  // '_'
    ||| b == 126  // '~'

}

/// The uppercase hexadecimal digit character for `d`.
pub open spec fn hex_upper(d: int) -> char
    recommends
        0 <= d < 16,
{
    if d < 10 {
        digit_char(d)
    } else if d == 10 {
        'A'
    } else if d == 11 {
        'B'
    } else if d == 12 {
        'C'
    } else if d == 13 {
        'D'
    } else if d == 14 {
        'E'
    } else {
        'F'
    }
}

/// How one byte is percent-encoded: unreserved bytes stand for themselves,
/// every other byte becomes `%` and two uppercase hex digits.
pub open spec fn encode_byte(b: u8) -> Seq<char> {
    if is_unreserved_byte(b) {
        seq![b as char]
    } else {
        seq!['%', hex_upper(b as int / 16), hex_upper(b as int % 16)]
    }
}

/// The percent-encoding of a byte sequence.
pub open spec fn percent_encode(bs: Seq<u8>) -> Seq<char>
    decreases bs.len(),
{
    if bs.len() == 0 {
        Seq::empty()
    } else {
        encode_byte(bs[0]) + percent_encode(bs.drop_first())
    }
}

/// Relies on urlencoding::encode: percent-encodes every byte of the UTF-8
/// form of `s` except ASCII alphanumerics and `-`, `.`, `_`, `~`, with
/// uppercase hexadecimal digits.
#[verifier::external_body]
pub(crate) fn url_encode(s: &str) -> (r: String)
    ensures
        r@ == percent_encode(s.spec_bytes()),
{
    urlencoding::encode(s).into_owned()
}

// ---------------------------------------------------------------------------
// Content decoding.
// ---------------------------------------------------------------------------
/// What base64's standard-alphabet decode returns: the decoded bytes, or
/// nothing for input that is not valid base64.  The result is a function of
/// the input alone.
pub uninterp spec fn b64_decode_of(s: Seq<char>) -> Option<Seq<u8>>;

/// Relies on the base64 STANDARD engine's decode: deterministic in its
/// input, succeeding exactly on valid standard-alphabet base64.
#[verifier::external_body]
fn b64_decode(s: &str) -> (r: Option<Vec<u8>>)
    ensures
        match r {
            Option::Some(v) => b64_decode_of(s@) == Option::Some(v@),
            Option::None => b64_decode_of(s@) is None,
        },
{
    base64::Engine::decode(&base64::engine::general_purpose::STANDARD, s).ok()
}

/// Relies on String::from_utf8: succeeds exactly on valid UTF-8, decoding
/// the bytes to the characters they encode.
#[verifier::external_body]
fn utf8_to_string(bytes: Vec<u8>) -> (r: Option<String>)
    ensures
        match r {
            Option::Some(s) => valid_utf8(bytes@) && s@ == decode_utf8(bytes@),
            Option::None => !valid_utf8(bytes@),
        },
{
    match String::from_utf8(bytes) {
        core::result::Result::Ok(s) => core::option::Option::Some(s),
        core::result::Result::Err(_) => core::option::Option::None,
    }
}

/// Decodes the `content` field of a file response: base64, then UTF-8.
/// Either failure is a `ContentDecodeError`; on success the returned text
/// is exactly the decoded content.
pub fn decode_content(content: &str) -> (r: Result<String, CoreError>)
    ensures
        match b64_decode_of(content@) {
            Option::Some(bytes) => {
                if valid_utf8(bytes) {
                    match r {
                        Ok(s) => s@ == decode_utf8(bytes),
                        Err(_) => false,
                    }
                } else {
                    r == Err::<String, CoreError>(CoreError::ContentDecodeError)
                }
            },
            Option::None => r == Err::<String, CoreError>(CoreError::ContentDecodeError),
        },
{
    match b64_decode(content) {
        Option::Some(bytes) => match utf8_to_string(bytes) {
            Option::Some(s) => Ok(s),
            Option::None => Err(CoreError::ContentDecodeError),
        },
        Option::None => Err(CoreError::ContentDecodeError),
    }
}

// ---------------------------------------------------------------------------
// The repository-files protocol.
// ---------------------------------------------------------------------------
/// The repository-files URL for one file (already percent-encoded) of one
/// project at one ref.
pub open spec fn gitlab_file_url(project: Seq<char>, encoded_path: Seq<char>, rref: Seq<char>) -> Seq<
    char,
> {
    "https://gitlab.com/api/v4/projects/"@ + project + "/repository/files/"@ + encoded_path
        + "?ref="@ + rref
}

/// The projects-API URL for one project named by its percent-encoded path.
pub open spec fn gitlab_projects_url(encoded_path: Seq<char>) -> Seq<char> {
    "https://gitlab.com/api/v4/projects/"@ + encoded_path
}

/// The environment variable a GitLab fetch must read, when the stored
/// token defers to one.
pub open spec fn gitlab_required_env(r: &GitlabRepo) -> Option<Seq<char>> {
    match r.token {
        Option::Some(t) => match t {
            GitlabToken::FromEnv(var) => Option::Some(var@),
            GitlabToken::Saved(_) => Option::None,
        },
        Option::None => Option::None,
    }
}

impl GitlabRepo {
    /// The provider tag of this backend.
    pub fn provider(&self) -> (r: &'static str)
        ensures
            r@ == "gitlab"@,
    {
        "gitlab"
    }

    /// The human-readable description, `gitlab.com/<path>`.
    pub fn readable(&self) -> (r: String)
        ensures
            r@ == "gitlab.com/"@ + self.path@,
    {
        let mut out = String::from_str("gitlab.com/");
        out.append(self.path.as_str());
        out
    }

    /// An equal copy.
    pub fn duplicate(&self) -> (r: GitlabRepo)
        ensures
            r == *self,
    {
        let token = match &self.token {
            Option::Some(t) => Option::Some(
                match t {
                    GitlabToken::Saved(s) => GitlabToken::Saved(s.clone()),
                    GitlabToken::FromEnv(v) => GitlabToken::FromEnv(v.clone()),
                },
            ),
            Option::None => Option::None,
        };
        GitlabRepo { project_id: self.project_id.clone(), path: self.path.clone(), token }
    }

    /// The name of the environment variable this repository's token reads
    /// at use time, if any.
    pub fn required_env(&self) -> (r: Option<String>)
        ensures
            opt_view(r) == gitlab_required_env(self),
    {
        match &self.token {
            Option::Some(t) => match t {
                GitlabToken::FromEnv(var) => Option::Some(var.clone()),
                GitlabToken::Saved(_) => Option::None,
            },
            Option::None => Option::None,
        }
    }

    /// The single request for one script: the repository-files URL with the
    /// script path percent-encoded and the ref as a query parameter, and the
    /// private token exactly when one is stored.  A token deferred to an
    /// unset environment variable fails the whole fetch with
    /// `MissingCredentialEnv`.
    pub fn fetch_request(&self, path: &str, rref: &str, env_val: Option<String>) -> (r: Result<
        HttpRequest,
        CoreError,
    >)
        ensures
            match r {
                Ok(req) => {
                    &&& req.url@ == gitlab_file_url(
                        self.project_id@,
                        percent_encode(path.spec_bytes()),
                        rref@,
                    )
                    &&& req.accept is None
                    &&& req.user_agent is None
                    &&& req.basic_auth is None
                    &&& match self.token {
                        Option::None => req.private_token is None,
                        Option::Some(t) => match t {
                            GitlabToken::Saved(tok) => opt_view(req.private_token)
                                == Option::Some(tok@),
                            GitlabToken::FromEnv(_) => env_val matches Option::Some(v)
                                && opt_view(req.private_token) == Option::Some(v@),
                        },
                    }
                },
                Err(e) => {
                    &&& gitlab_required_env(self) is Some
                    &&& env_val is None
                    &&& match self.token {
                        Option::Some(t) => match t {
                            GitlabToken::FromEnv(var) => e == CoreError::MissingCredentialEnv {
                                var,
                            },
                            GitlabToken::Saved(_) => false,
                        },
                        Option::None => false,
                    }
                },
            },
    {
        let private_token = match &self.token {
            Option::None => Option::None,
            Option::Some(t) => match t {
                GitlabToken::Saved(tok) => Option::Some(tok.clone()),
                GitlabToken::FromEnv(var) => match env_val {
                    Option::Some(v) => Option::Some(v),
                    Option::None => {
                        return Err(CoreError::MissingCredentialEnv { var: var.clone() });
                    },
                },
            },
        };
        let encoded = url_encode(path);
        let mut url = String::from_str("https://gitlab.com/api/v4/projects/");
        url.append(self.project_id.as_str());
        url.append("/repository/files/");
        url.append(encoded.as_str());
        url.append("?ref=");
        url.append(rref);
        Ok(
            HttpRequest {
                url,
                accept: Option::None,
                user_agent: Option::None,
                private_token,
                basic_auth: Option::None,
            },
        )
    }
}

/// Reads the file response: a non-2xx status is a `RemoteApiError`
/// preserving status and body; a 2xx body must carry a base64 `content`
/// string field, which is decoded (base64, then UTF-8) to exactly the
/// script text, and yields `ContentDecodeError` exactly when the field is
/// missing or either decoding fails.
pub fn gitlab_read_content(status: u16, body: &str) -> (r: Result<String, CoreError>)
    ensures
        !is_success_status(status) ==> (match r {
            Err(e) => e matches CoreError::RemoteApiError { status: st, body: b } && st == status
                && b@ == body@,
            Ok(_) => false,
        }),
        is_success_status(status) ==> match json_str_field_of(body@, "content"@) {
            Option::Some(content) => match b64_decode_of(content) {
                Option::Some(bytes) => {
                    if valid_utf8(bytes) {
                        match r {
                            Ok(s) => s@ == decode_utf8(bytes),
                            Err(_) => false,
                        }
                    } else {
                        r == Err::<String, CoreError>(CoreError::ContentDecodeError)
                    }
                },
                Option::None => r == Err::<String, CoreError>(CoreError::ContentDecodeError),
            },
            Option::None => r == Err::<String, CoreError>(CoreError::ContentDecodeError),
        },
{
    match check_status(status, body.to_owned()) {
        Err(e) => Err(e),
        Ok(()) => {
            match json_str_field(body, "content") {
                Option::Some(content) => decode_content(content.as_str()),
                Option::None => Err(CoreError::ContentDecodeError),
            }
        },
    }
}

/// The registration request for a GitLab repository named by the path
/// component of its URL: the projects API for the percent-encoded path,
/// with the private token exactly when a credential was given (for an
/// environment-variable credential, the value captured at registration
/// time).
pub fn gitlab_register_request(path: &str, token: &Password) -> (r: HttpRequest)
    ensures
        r.url@ == gitlab_projects_url(percent_encode(encode_utf8(trimmed_path(path@)))),
        r.accept is None,
        r.user_agent is None,
        r.basic_auth is None,
        match *token {
            Password::Saved(t) => opt_view(r.private_token) == Option::Some(t@),
            Password::FromEnv(_, val) => opt_view(r.private_token) == Option::Some(val@),
            Password::Absent => r.private_token is None,
        },
{
    let trimmed = trim_leading_slashes(path);
    let encoded = url_encode(trimmed.as_str());
    let mut url = String::from_str("https://gitlab.com/api/v4/projects/");
    url.append(encoded.as_str());
    let private_token = match token {
        Password::Saved(t) => Option::Some(t.clone()),
        Password::FromEnv(_, val) => Option::Some(val.clone()),
        Password::Absent => Option::None,
    };
    HttpRequest {
        url,
        accept: Option::None,
        user_agent: Option::None,
        private_token,
        basic_auth: Option::None,
    }
}

/// Concludes a GitLab registration: a non-2xx response is a
/// `RemoteApiError` preserving status and body; a 2xx body must carry a
/// numeric `id` field fitting 32 bits, and the repository is recorded
/// under exactly that id in decimal, with the trimmed path for display and
/// the credential shape reduced to what is persisted; a missing or
/// oversized id is a `ContentDecodeError`, and nothing else is.
pub fn gitlab_register_finish(status: u16, body: &str, path: &str, token: &Password) -> (r: Result<
    GitlabRepo,
    CoreError,
>)
    ensures
        !is_success_status(status) ==> (match r {
            Err(e) => e matches CoreError::RemoteApiError { status: st, body: b } && st == status
                && b@ == body@,
            Ok(_) => false,
        }),
        is_success_status(status) ==> match json_u64_field_of(body@, "id"@) {
            Option::Some(n) => {
                if n <= 0xffff_ffff {
                    match r {
                        Ok(repo) => {
                            &&& repo.project_id@ == dec_str(n as nat)
                            &&& repo.path@ == trimmed_path(path@)
                            &&& match *token {
                                Password::Saved(t) => repo.token == Option::Some(
                                    GitlabToken::Saved(t),
                                ),
                                Password::FromEnv(var, _) => repo.token == Option::Some(
                                    GitlabToken::FromEnv(var),
                                ),
                                Password::Absent => repo.token is None,
                            }
                        },
                        Err(_) => false,
                    }
                } else {
                    // the project id is a 32-bit quantity
                    r == Err::<GitlabRepo, CoreError>(CoreError::ContentDecodeError)
                }
            },
            Option::None => r == Err::<GitlabRepo, CoreError>(CoreError::ContentDecodeError),
        },
{
    match check_status(status, body.to_owned()) {
        Err(e) => Err(e),
        Ok(()) => {
            let id = match json_u64_field(body, "id") {
                Option::Some(n) => {
                    if n > 0xffff_ffff {
                        return Err(CoreError::ContentDecodeError);
                    }
                    n
                },
                Option::None => {
                    return Err(CoreError::ContentDecodeError);
                },
            };
            let stored = match token {
                Password::Saved(t) => Option::Some(GitlabToken::Saved(t.clone())),
                Password::FromEnv(var, _) => Option::Some(GitlabToken::FromEnv(var.clone())),
                Password::Absent => Option::None,
            };
            Ok(
                GitlabRepo {
                    project_id: u64_to_string(id),
                    path: trim_leading_slashes(path),
                    token: stored,
                },
            )
        },
    }
}

} // verus!
