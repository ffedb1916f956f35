use vstd::prelude::*;

use crate::errors::CoreError;

verus! {

/// One HTTP GET, as the core hands it to the embedding program: the URL and
/// exactly the headers and credentials the provider protocol asks for.
pub struct HttpRequest {
    pub url: String,
    /// Value of the `Accept` header, when one is sent.
    pub accept: Option<String>,
    /// Value of the `User-Agent` header, when one is sent.
    pub user_agent: Option<String>,
    /// Value of the `PRIVATE-TOKEN` header, when one is sent.
    pub private_token: Option<String>,
    /// Username and password for HTTP basic authentication, when sent.
    pub basic_auth: Option<(String, String)>,
}

/// View of an optional basic-auth pair.
pub open spec fn basic_auth_view(o: Option<(String, String)>) -> Option<(Seq<char>, Seq<char>)> {
    match o {
        Option::Some((u, p)) => Option::Some((u@, p@)),
        Option::None => Option::None,
    }
}

/// A 2xx status.
pub open spec fn is_success_status(status: u16) -> bool {
    200 <= status < 300
}

/// Accepts a 2xx response and rejects every other status as
/// `RemoteApiError`, preserving the original status code and response body.
pub fn check_status(status: u16, body: String) -> (r: Result<(), CoreError>)
    ensures
        is_success_status(status) ==> r == Ok::<(), CoreError>(()),
        !is_success_status(status) ==> r == Err::<(), CoreError>(
            CoreError::RemoteApiError { status, body },
        ),
{
    if status >= 200 && status < 300 {
        Ok(())
    } else {
        Err(CoreError::RemoteApiError { status, body })
    }
}

} // verus!
