use vstd::prelude::*;
use vstd::string::StringExecFns;

use crate::errors::CoreError;
use crate::text::push_char;

verus! {

// ---------------------------------------------------------------------------
// Cache entry naming.
//
// Every (repository URL, ref) pair owns one directory under the cache root,
// named deterministically: the URL is made filesystem-safe, then `@` and
// the ref are appended.  Two URLs whose safe forms coincide share one
// entry; that is a documented consequence of the scheme, not an accident.
// ---------------------------------------------------------------------------
/// What `sanitize_filename::sanitize_with_options` returns for a name and
/// the given options.  The result is a function of the arguments alone.
pub uninterp spec fn sanitize_of(
    name: Seq<char>,
    windows: bool,
    truncate: bool,
    replacement: Seq<char>,
) -> Seq<char>;

/// Relies on sanitize_filename::sanitize_with_options: strips or replaces
/// characters that are unsafe in a file name and truncates the result to a
/// safe length; deterministic in its arguments.
#[verifier::external_body]
fn sanitize_path(name: &str, windows: bool, truncate: bool, replacement: &str) -> (r: String)
    ensures
        r@ == sanitize_of(name@, windows, truncate, replacement@),
{
    sanitize_filename::sanitize_with_options(
        name,
        sanitize_filename::Options { windows, truncate, replacement },
    )
}

/// The filesystem-safe form of a repository URL, as used for cache entry
/// names: non-path characters replaced by `:`, no platform-specific
/// restriction, truncated to a safe length.
pub open spec fn sanitized_repo(url: Seq<char>) -> Seq<char> {
    sanitize_of(url, false, true, seq![':'])
}

/// The cache entry directory name for a (repository URL, ref) pair:
/// `<sanitized URL>@<ref>`.
pub open spec fn entry_name_spec(url: Seq<char>, rref: Seq<char>) -> Seq<char> {
    sanitized_repo(url).push('@') + rref
}

/// Derives the cache entry directory name for `(repo, rref)`.  The result
/// is pinned to `entry_name_spec`, a function of the pair alone: repeated
/// calls with the same pair always name the same directory.
pub fn cache_entry_name(repo: &str, rref: &str) -> (r: String)
    ensures
        r@ == entry_name_spec(repo@, rref@),
{
    proof {
        reveal_strlit(":");
        assert(":"@ =~= seq![':']);
    }
    let mut out = sanitize_path(repo, false, true, ":");
    push_char(&mut out, '@');
    out.append(rref);
    out
}

/// Law: two distinct repository URLs whose filesystem-safe forms collide
/// map to the same cache entry for every ref; they are deliberately treated
/// as one entry rather than distinguished.
pub proof fn lemma_colliding_urls_share_entry(u1: Seq<char>, u2: Seq<char>, rref: Seq<char>)
    requires
        sanitized_repo(u1) == sanitized_repo(u2),
    ensures
        entry_name_spec(u1, rref) == entry_name_spec(u2, rref),
{
}

// ---------------------------------------------------------------------------
// The fetch protocol.
//
// Fetching a script through the git cache is a fixed dialogue between the
// decision procedure below and the embedding program, which owns the file
// system and the git subprocesses.  The machine names the next action; the
// program performs it against the cache entry directory and reports the
// outcome; the machine decides again.  The dialogue mirrors the steps of
// the cache algorithm: optional forced removal, reuse check (a directory
// that exists and shows no uncommitted changes is reused as it stands),
// otherwise create / init / add remote / shallow fetch / checkout, each of
// which must succeed, and finally one read of the script file.
// ---------------------------------------------------------------------------
/// One git invocation inside the cache entry directory.
#[derive(Debug, PartialEq, Eq)]
pub enum GitCmd {
    /// `git diff --quiet`: succeeds exactly when the working tree is clean.
    DiffQuiet,
    /// `git init`.
    Init,
    /// `git remote add origin <url>`.
    RemoteAddOrigin(String),
    /// `git fetch --depth 1 origin <ref>`.
    FetchDepth1(String),
    /// `git checkout FETCH_HEAD`.
    CheckoutFetchHead,
}

/// What the embedding program is asked to do next, always relative to the
/// cache entry directory.
#[derive(Debug, PartialEq, Eq)]
pub enum CacheAction {
    /// Report whether the entry directory exists.
    QueryIsDir,
    /// Remove the entry directory recursively.
    RemoveDir,
    /// Run a git command inside the entry directory.
    RunGit(GitCmd),
    /// Create the entry directory and its parents.
    CreateDir,
    /// Read the script file under the entry directory as UTF-8 text.
    ReadScript,
}

/// The reported outcome of the last action.
#[derive(Debug, PartialEq, Eq)]
pub enum CacheEvent {
    /// Whether the entry directory exists.
    IsDir(bool),
    /// Whether the removal succeeded.
    RemoveDone(bool),
    /// Whether the git command exited successfully, and its captured
    /// standard-error text.
    GitDone(bool, String),
    /// Whether the directory creation succeeded.
    CreateDone(bool),
    /// The script contents, or nothing if the file could not be read as
    /// UTF-8 text.
    ReadDone(Option<String>),
}

/// The machine's answer: another action to perform, the fetched script, or
/// a failure that ends the fetch.
#[derive(Debug, PartialEq, Eq)]
pub enum CacheStep {
    Do(CacheAction),
    Done(String),
    Fail(CoreError),
}

/// Which action the machine is waiting on.
#[derive(Clone, Copy, PartialEq, Eq, Structural, Debug)]
pub enum CacheState {
    /// Nothing issued yet.
    Start,
    /// Asked whether the directory exists, to decide the forced removal.
    AwaitFreshProbe,
    /// Asked to remove the directory.
    AwaitRemove,
    /// Asked whether the directory exists, to decide reuse.
    AwaitReuseProbe,
    /// Asked for the clean check (`git diff --quiet`).
    AwaitCleanCheck,
    /// Asked to create the directory.
    AwaitCreateDir,
    /// Asked to run `git init`.
    AwaitInit,
    /// Asked to add the remote.
    AwaitRemoteAdd,
    /// Asked for the shallow fetch.
    AwaitFetch,
    /// Asked for the checkout.
    AwaitCheckout,
    /// Asked to read the script file.
    AwaitRead,
    /// The fetch ended, successfully or not.
    Finished,
}

/// One fetch of one script through the git cache.
pub struct CacheFetch {
    /// The repository URL, used verbatim as the remote.
    pub repo: String,
    /// The git ref to fetch.
    pub rref: String,
    /// Whether the caller demanded a fresh entry: an existing directory is
    /// removed before any reuse check.
    pub force_fresh: bool,
    pub state: CacheState,
}

/// True when `e` is the kind of outcome the machine awaits in state `st`.
pub open spec fn event_matches(st: CacheState, e: CacheEvent) -> bool {
    match st {
        CacheState::AwaitFreshProbe => e is IsDir,
        CacheState::AwaitReuseProbe => e is IsDir,
        CacheState::AwaitRemove => e is RemoveDone,
        CacheState::AwaitCleanCheck => e is GitDone,
        CacheState::AwaitInit => e is GitDone,
        CacheState::AwaitRemoteAdd => e is GitDone,
        CacheState::AwaitFetch => e is GitDone,
        CacheState::AwaitCheckout => e is GitDone,
        CacheState::AwaitCreateDir => e is CreateDone,
        CacheState::AwaitRead => e is ReadDone,
        CacheState::Start => false,
        CacheState::Finished => false,
    }
}

/// The machine's first move: probe the directory, either to decide the
/// forced removal or to decide reuse.
pub open spec fn begin_spec(m: CacheFetch) -> (CacheFetch, CacheAction) {
    (
        CacheFetch {
            state: if m.force_fresh {
                CacheState::AwaitFreshProbe
            } else {
                CacheState::AwaitReuseProbe
            },
            ..m
        },
        CacheAction::QueryIsDir,
    )
}

/// The transition relation of the fetch dialogue.
pub open spec fn step_spec(m: CacheFetch, e: CacheEvent) -> (CacheFetch, CacheStep)
    recommends
        event_matches(m.state, e),
{
    match (m.state, e) {
        (CacheState::AwaitFreshProbe, CacheEvent::IsDir(true)) => (
            CacheFetch { state: CacheState::AwaitRemove, ..m },
            CacheStep::Do(CacheAction::RemoveDir),
        ),
        (CacheState::AwaitFreshProbe, CacheEvent::IsDir(false)) => (
            CacheFetch { state: CacheState::AwaitReuseProbe, ..m },
            CacheStep::Do(CacheAction::QueryIsDir),
        ),
        (CacheState::AwaitRemove, CacheEvent::RemoveDone(true)) => (
            CacheFetch { state: CacheState::AwaitReuseProbe, ..m },
            CacheStep::Do(CacheAction::QueryIsDir),
        ),
        (CacheState::AwaitRemove, CacheEvent::RemoveDone(false)) => (
            CacheFetch { state: CacheState::Finished, ..m },
            CacheStep::Fail(CoreError::CacheDirFailed { create: false }),
        ),
        (CacheState::AwaitReuseProbe, CacheEvent::IsDir(true)) => (
            CacheFetch { state: CacheState::AwaitCleanCheck, ..m },
            CacheStep::Do(CacheAction::RunGit(GitCmd::DiffQuiet)),
        ),
        (CacheState::AwaitReuseProbe, CacheEvent::IsDir(false)) => (
            CacheFetch { state: CacheState::AwaitCreateDir, ..m },
            CacheStep::Do(CacheAction::CreateDir),
        ),
        (CacheState::AwaitCleanCheck, CacheEvent::GitDone(true, _)) => (
            CacheFetch { state: CacheState::AwaitRead, ..m },
            CacheStep::Do(CacheAction::ReadScript),
        ),
        (CacheState::AwaitCleanCheck, CacheEvent::GitDone(false, _)) => (
            CacheFetch { state: CacheState::AwaitCreateDir, ..m },
            CacheStep::Do(CacheAction::CreateDir),
        ),
        (CacheState::AwaitCreateDir, CacheEvent::CreateDone(true)) => (
            CacheFetch { state: CacheState::AwaitInit, ..m },
            CacheStep::Do(CacheAction::RunGit(GitCmd::Init)),
        ),
        (CacheState::AwaitCreateDir, CacheEvent::CreateDone(false)) => (
            CacheFetch { state: CacheState::Finished, ..m },
            CacheStep::Fail(CoreError::CacheDirFailed { create: true }),
        ),
        (CacheState::AwaitInit, CacheEvent::GitDone(true, _)) => (
            CacheFetch { state: CacheState::AwaitRemoteAdd, ..m },
            CacheStep::Do(CacheAction::RunGit(GitCmd::RemoteAddOrigin(m.repo))),
        ),
        (CacheState::AwaitInit, CacheEvent::GitDone(false, stderr)) => (
            CacheFetch { state: CacheState::Finished, ..m },
            CacheStep::Fail(CoreError::GitCommandFailed { command: GitCmd::Init, stderr }),
        ),
        (CacheState::AwaitRemoteAdd, CacheEvent::GitDone(true, _)) => (
            CacheFetch { state: CacheState::AwaitFetch, ..m },
            CacheStep::Do(CacheAction::RunGit(GitCmd::FetchDepth1(m.rref))),
        ),
        (CacheState::AwaitRemoteAdd, CacheEvent::GitDone(false, stderr)) => (
            CacheFetch { state: CacheState::Finished, ..m },
            CacheStep::Fail(
                CoreError::GitCommandFailed {
                    command: GitCmd::RemoteAddOrigin(m.repo),
                    stderr,
                },
            ),
        ),
        (CacheState::AwaitFetch, CacheEvent::GitDone(true, _)) => (
            CacheFetch { state: CacheState::AwaitCheckout, ..m },
            CacheStep::Do(CacheAction::RunGit(GitCmd::CheckoutFetchHead)),
        ),
        (CacheState::AwaitFetch, CacheEvent::GitDone(false, stderr)) => (
            CacheFetch { state: CacheState::Finished, ..m },
            CacheStep::Fail(
                CoreError::GitCommandFailed { command: GitCmd::FetchDepth1(m.rref), stderr },
            ),
        ),
        (CacheState::AwaitCheckout, CacheEvent::GitDone(true, _)) => (
            CacheFetch { state: CacheState::AwaitRead, ..m },
            CacheStep::Do(CacheAction::ReadScript),
        ),
        (CacheState::AwaitCheckout, CacheEvent::GitDone(false, stderr)) => (
            CacheFetch { state: CacheState::Finished, ..m },
            CacheStep::Fail(
                CoreError::GitCommandFailed { command: GitCmd::CheckoutFetchHead, stderr },
            ),
        ),
        (CacheState::AwaitRead, CacheEvent::ReadDone(Option::Some(content))) => (
            CacheFetch { state: CacheState::Finished, ..m },
            CacheStep::Done(content),
        ),
        (CacheState::AwaitRead, CacheEvent::ReadDone(Option::None)) => (
            CacheFetch { state: CacheState::Finished, ..m },
            CacheStep::Fail(CoreError::ContentReadError),
        ),
        _ => (m, CacheStep::Fail(CoreError::ContentReadError)),
    }
}

impl CacheFetch {
    /// A fetch of `rref` from `repo`, not yet begun.
    pub fn new(repo: String, rref: String, force_fresh: bool) -> (m: CacheFetch)
        ensures
            m == (CacheFetch { repo, rref, force_fresh, state: CacheState::Start }),
    {
        CacheFetch { repo, rref, force_fresh, state: CacheState::Start }
    }

    /// Issues the first action of the dialogue.
    pub fn begin(self) -> (r: (CacheFetch, CacheAction))
        requires
            self.state is Start,
        ensures
            r == begin_spec(self),
    {
        let fresh = self.force_fresh;
        (
            CacheFetch {
                state: if fresh {
                    CacheState::AwaitFreshProbe
                } else {
                    CacheState::AwaitReuseProbe
                },
                ..self
            },
            CacheAction::QueryIsDir,
        )
    }

    /// Feeds the outcome of the last action to the machine and yields its
    /// next move.
    pub fn step(self, event: CacheEvent) -> (r: (CacheFetch, CacheStep))
        requires
            event_matches(self.state, event),
        ensures
            r == step_spec(self, event),
    {
        let CacheFetch { repo, rref, force_fresh, state } = self;
        match (state, event) {
            (CacheState::AwaitFreshProbe, CacheEvent::IsDir(exists)) => {
                if exists {
                    (
                        CacheFetch { repo, rref, force_fresh, state: CacheState::AwaitRemove },
                        CacheStep::Do(CacheAction::RemoveDir),
                    )
                } else {
                    (
                        CacheFetch {
                            repo,
                            rref,
                            force_fresh,
                            state: CacheState::AwaitReuseProbe,
                        },
                        CacheStep::Do(CacheAction::QueryIsDir),
                    )
                }
            },
            (CacheState::AwaitRemove, CacheEvent::RemoveDone(ok)) => {
                if ok {
                    (
                        CacheFetch {
                            repo,
                            rref,
                            force_fresh,
                            state: CacheState::AwaitReuseProbe,
                        },
                        CacheStep::Do(CacheAction::QueryIsDir),
                    )
                } else {
                    (
                        CacheFetch { repo, rref, force_fresh, state: CacheState::Finished },
                        CacheStep::Fail(CoreError::CacheDirFailed { create: false }),
                    )
                }
            },
            (CacheState::AwaitReuseProbe, CacheEvent::IsDir(exists)) => {
                if exists {
                    (
                        CacheFetch {
                            repo,
                            rref,
                            force_fresh,
                            state: CacheState::AwaitCleanCheck,
                        },
                        CacheStep::Do(CacheAction::RunGit(GitCmd::DiffQuiet)),
                    )
                } else {
                    (
                        CacheFetch { repo, rref, force_fresh, state: CacheState::AwaitCreateDir },
                        CacheStep::Do(CacheAction::CreateDir),
                    )
                }
            },
            (CacheState::AwaitCleanCheck, CacheEvent::GitDone(ok, _stderr)) => {
                if ok {
                    (
                        CacheFetch { repo, rref, force_fresh, state: CacheState::AwaitRead },
                        CacheStep::Do(CacheAction::ReadScript),
                    )
                } else {
                    (
                        CacheFetch { repo, rref, force_fresh, state: CacheState::AwaitCreateDir },
                        CacheStep::Do(CacheAction::CreateDir),
                    )
                }
            },
            (CacheState::AwaitCreateDir, CacheEvent::CreateDone(ok)) => {
                if ok {
                    (
                        CacheFetch { repo, rref, force_fresh, state: CacheState::AwaitInit },
                        CacheStep::Do(CacheAction::RunGit(GitCmd::Init)),
                    )
                } else {
                    (
                        CacheFetch { repo, rref, force_fresh, state: CacheState::Finished },
                        CacheStep::Fail(CoreError::CacheDirFailed { create: true }),
                    )
                }
            },
            (CacheState::AwaitInit, CacheEvent::GitDone(ok, stderr)) => {
                if ok {
                    let url = repo.clone();
                    (
                        CacheFetch { repo, rref, force_fresh, state: CacheState::AwaitRemoteAdd },
                        CacheStep::Do(CacheAction::RunGit(GitCmd::RemoteAddOrigin(url))),
                    )
                } else {
                    (
                        CacheFetch { repo, rref, force_fresh, state: CacheState::Finished },
                        CacheStep::Fail(
                            CoreError::GitCommandFailed { command: GitCmd::Init, stderr },
                        ),
                    )
                }
            },
            (CacheState::AwaitRemoteAdd, CacheEvent::GitDone(ok, stderr)) => {
                if ok {
                    let fetch_ref = rref.clone();
                    (
                        CacheFetch { repo, rref, force_fresh, state: CacheState::AwaitFetch },
                        CacheStep::Do(CacheAction::RunGit(GitCmd::FetchDepth1(fetch_ref))),
                    )
                } else {
                    let url = repo.clone();
                    (
                        CacheFetch { repo, rref, force_fresh, state: CacheState::Finished },
                        CacheStep::Fail(
                            CoreError::GitCommandFailed {
                                command: GitCmd::RemoteAddOrigin(url),
                                stderr,
                            },
                        ),
                    )
                }
            },
            (CacheState::AwaitFetch, CacheEvent::GitDone(ok, stderr)) => {
                if ok {
                    (
                        CacheFetch { repo, rref, force_fresh, state: CacheState::AwaitCheckout },
                        CacheStep::Do(CacheAction::RunGit(GitCmd::CheckoutFetchHead)),
                    )
                } else {
                    let fetch_ref = rref.clone();
                    (
                        CacheFetch { repo, rref, force_fresh, state: CacheState::Finished },
                        CacheStep::Fail(
                            CoreError::GitCommandFailed {
                                command: GitCmd::FetchDepth1(fetch_ref),
                                stderr,
                            },
                        ),
                    )
                }
            },
            (CacheState::AwaitCheckout, CacheEvent::GitDone(ok, stderr)) => {
                if ok {
                    (
                        CacheFetch { repo, rref, force_fresh, state: CacheState::AwaitRead },
                        CacheStep::Do(CacheAction::ReadScript),
                    )
                } else {
                    (
                        CacheFetch { repo, rref, force_fresh, state: CacheState::Finished },
                        CacheStep::Fail(
                            CoreError::GitCommandFailed {
                                command: GitCmd::CheckoutFetchHead,
                                stderr,
                            },
                        ),
                    )
                }
            },
            (CacheState::AwaitRead, CacheEvent::ReadDone(content)) => {
                match content {
                    Option::Some(text) => (
                        CacheFetch { repo, rref, force_fresh, state: CacheState::Finished },
                        CacheStep::Done(text),
                    ),
                    Option::None => (
                        CacheFetch { repo, rref, force_fresh, state: CacheState::Finished },
                        CacheStep::Fail(CoreError::ContentReadError),
                    ),
                }
            },
            _ => (
                CacheFetch { repo, rref, force_fresh, state },
                CacheStep::Fail(CoreError::ContentReadError),
            ),
        }
    }
}

/// Law: a second fetch of a pair whose cache entry exists and is clean,
/// without a forced refresh, asks for no git command beyond the clean check
/// and no directory change: the dialogue goes probe, clean check, one read,
/// done, and the entire clone sequence is skipped.
pub proof fn lemma_clean_entry_is_reused(m: CacheFetch, stderr: String, content: String)
    requires
        m.state is Start,
        !m.force_fresh,
    ensures
        ({
            let (m1, a1) = begin_spec(m);
            let (m2, s2) = step_spec(m1, CacheEvent::IsDir(true));
            let (m3, s3) = step_spec(m2, CacheEvent::GitDone(true, stderr));
            let (m4, s4) = step_spec(m3, CacheEvent::ReadDone(Option::Some(content)));
            &&& a1 == CacheAction::QueryIsDir
            &&& s2 == CacheStep::Do(CacheAction::RunGit(GitCmd::DiffQuiet))
            &&& s3 == CacheStep::Do(CacheAction::ReadScript)
            &&& s4 == CacheStep::Done(content)
            &&& m4.state is Finished
        }),
{
}

/// Law: a forced-fresh fetch of a pair whose entry exists removes the entry
/// before anything else and then runs the full clone sequence, even though
/// the entry might have been clean: the clean check is never consulted.
pub proof fn lemma_force_fresh_recreates(m: CacheFetch, stderr: String)
    requires
        m.state is Start,
        m.force_fresh,
    ensures
        ({
            let (m1, a1) = begin_spec(m);
            let (m2, s2) = step_spec(m1, CacheEvent::IsDir(true));
            let (m3, s3) = step_spec(m2, CacheEvent::RemoveDone(true));
            let (m4, s4) = step_spec(m3, CacheEvent::IsDir(false));
            let (m5, s5) = step_spec(m4, CacheEvent::CreateDone(true));
            let (m6, s6) = step_spec(m5, CacheEvent::GitDone(true, stderr));
            let (m7, s7) = step_spec(m6, CacheEvent::GitDone(true, stderr));
            let (m8, s8) = step_spec(m7, CacheEvent::GitDone(true, stderr));
            let (m9, s9) = step_spec(m8, CacheEvent::GitDone(true, stderr));
            &&& a1 == CacheAction::QueryIsDir
            &&& s2 == CacheStep::Do(CacheAction::RemoveDir)
            &&& s3 == CacheStep::Do(CacheAction::QueryIsDir)
            &&& s4 == CacheStep::Do(CacheAction::CreateDir)
            &&& s5 == CacheStep::Do(CacheAction::RunGit(GitCmd::Init))
            &&& s6 == CacheStep::Do(CacheAction::RunGit(GitCmd::RemoteAddOrigin(m.repo)))
            &&& s7 == CacheStep::Do(CacheAction::RunGit(GitCmd::FetchDepth1(m.rref)))
            &&& s8 == CacheStep::Do(CacheAction::RunGit(GitCmd::CheckoutFetchHead))
            &&& s9 == CacheStep::Do(CacheAction::ReadScript)
        }),
{
}

} // verus!
