use vstd::prelude::*;

use crate::cache::{CacheFetch, CacheState};
use crate::repo::Repo;
use crate::source::ScriptSource;

verus! {

/// A repository fetched through the generic git backend: scripts come from
/// a shallow checkout of the literal URL, managed by the local cache.
#[derive(Debug, PartialEq, Eq)]
pub struct GitRepo {
    pub url: String,
}

impl GitRepo {
    /// The provider tag of this backend.
    pub fn provider(&self) -> (r: &'static str)
        ensures
            r@ == "git"@,
    {
        "git"
    }

    /// The human-readable description: the URL itself.
    pub fn readable(&self) -> (r: String)
        ensures
            r@ == self.url@,
    {
        self.url.clone()
    }

    /// An equal copy.
    pub fn duplicate(&self) -> (r: GitRepo)
        ensures
            r == *self,
    {
        GitRepo { url: self.url.clone() }
    }

    /// The git fetcher for a parsed direct-git source: the identifier's
    /// repository locator is used verbatim as the remote URL.
    pub fn from_src(src: &ScriptSource) -> (r: Repo)
        ensures
            r == Repo::Git(GitRepo { url: src.repo }),
    {
        Repo::Git(GitRepo { url: src.repo.clone() })
    }

    /// Opens the cache fetch dialogue for one script at `rref`.
    pub fn begin_fetch(&self, rref: &str, force_fresh: bool) -> (m: CacheFetch)
        ensures
            m.repo == self.url,
            m.rref@ == rref@,
            m.force_fresh == force_fresh,
            m.state is Start,
    {
        CacheFetch::new(self.url.clone(), rref.to_owned(), force_fresh)
    }
}

} // verus!
