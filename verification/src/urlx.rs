use vstd::prelude::*;

use crate::source::opt_view;

verus! {

/// The components of a parsed absolute URL that provider selection reads:
/// the host, the path, and whether the URL lacks a hierarchical base (as a
/// `mailto:` URL does).
pub struct UrlParts {
    pub host: Option<String>,
    pub path: String,
    pub cannot_be_a_base: bool,
}

/// What URL parsing yields for a string: the host, path and
/// cannot-be-a-base flag of the parsed URL, or nothing when the string is
/// no absolute URL.  A function of the string alone.
pub uninterp spec fn url_parts_of(s: Seq<char>) -> Option<(Option<Seq<char>>, Seq<char>, bool)>;

/// Relies on url::Url::parse, with Url::host_str, Url::path and
/// Url::cannot_be_a_base reading the parsed value: parses an absolute URL
/// and hands its components out as plain values.  Deterministic in the
/// input string.
#[verifier::external_body]
pub(crate) fn url_parts(s: &str) -> (r: Option<UrlParts>)
    ensures
        match r {
            Option::Some(p) => url_parts_of(s@) == Option::Some(
                (opt_view(p.host), p.path@, p.cannot_be_a_base),
            ),
            Option::None => url_parts_of(s@) is None,
        },
{
    match url::Url::parse(s) {
        core::result::Result::Ok(u) => core::option::Option::Some(
            UrlParts {
                host: u.host_str().map(|h| h.to_owned()),
                path: u.path().to_owned(),
                cannot_be_a_base: u.cannot_be_a_base(),
            },
        ),
        core::result::Result::Err(_) => core::option::Option::None,
    }
}

} // verus!
