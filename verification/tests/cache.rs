use rem::cache::{
    cache_entry_name, CacheAction, CacheEvent, CacheFetch, CacheStep, GitCmd,
};
use rem::errors::CoreError;

#[test]
fn entry_name_is_deterministic() {
    let a = cache_entry_name("https://example.com/user/repo", "main");
    let b = cache_entry_name("https://example.com/user/repo", "main");
    assert_eq!(a, b);
}

#[test]
fn entry_name_exact_value() {
    // `/` and `:` are unsafe in a file name and become `:`; `@` and the
    // ref are appended.
    let name = cache_entry_name("git@github.com:user/repo", "main");
    assert_eq!(name, "git@github.com:user:repo@main");
}

#[test]
fn colliding_urls_share_an_entry() {
    // distinct URLs with the same filesystem-safe form: one cache entry
    let a = cache_entry_name("repo/x", "main");
    let b = cache_entry_name("repo:x", "main");
    assert_eq!(a, b);
}

#[test]
fn distinct_refs_get_distinct_entries() {
    let a = cache_entry_name("https://example.com/r", "main");
    let b = cache_entry_name("https://example.com/r", "dev");
    assert_ne!(a, b);
}

fn count_git(steps: &[CacheStep]) -> usize {
    steps
        .iter()
        .filter(|s| matches!(s, CacheStep::Do(CacheAction::RunGit(_))))
        .count()
}

#[test]
fn clean_entry_is_reused_without_cloning() {
    // second fetch of a pair whose entry exists and is clean: the only git
    // command is the clean check, then one read
    let m = CacheFetch::new("https://example.com/r".to_string(), "main".to_string(), false);
    let (m, first) = m.begin();
    assert_eq!(first, CacheAction::QueryIsDir);
    let mut steps = Vec::new();
    let (m, s) = m.step(CacheEvent::IsDir(true));
    assert_eq!(s, CacheStep::Do(CacheAction::RunGit(GitCmd::DiffQuiet)));
    steps.push(s);
    let (m, s) = m.step(CacheEvent::GitDone(true, String::new()));
    assert_eq!(s, CacheStep::Do(CacheAction::ReadScript));
    steps.push(s);
    let (_m, s) = m.step(CacheEvent::ReadDone(Some("echo hi".to_string())));
    assert_eq!(s, CacheStep::Done("echo hi".to_string()));
    steps.push(s);
    assert_eq!(count_git(&steps), 1);
}

#[test]
fn missing_entry_runs_full_clone_sequence() {
    let m = CacheFetch::new("https://example.com/r".to_string(), "main".to_string(), false);
    let (m, first) = m.begin();
    assert_eq!(first, CacheAction::QueryIsDir);
    let (m, s) = m.step(CacheEvent::IsDir(false));
    assert_eq!(s, CacheStep::Do(CacheAction::CreateDir));
    let (m, s) = m.step(CacheEvent::CreateDone(true));
    assert_eq!(s, CacheStep::Do(CacheAction::RunGit(GitCmd::Init)));
    let (m, s) = m.step(CacheEvent::GitDone(true, String::new()));
    assert_eq!(
        s,
        CacheStep::Do(CacheAction::RunGit(GitCmd::RemoteAddOrigin(
            "https://example.com/r".to_string()
        )))
    );
    let (m, s) = m.step(CacheEvent::GitDone(true, String::new()));
    assert_eq!(
        s,
        CacheStep::Do(CacheAction::RunGit(GitCmd::FetchDepth1("main".to_string())))
    );
    let (m, s) = m.step(CacheEvent::GitDone(true, String::new()));
    assert_eq!(s, CacheStep::Do(CacheAction::RunGit(GitCmd::CheckoutFetchHead)));
    let (m, s) = m.step(CacheEvent::GitDone(true, String::new()));
    assert_eq!(s, CacheStep::Do(CacheAction::ReadScript));
    let (_m, s) = m.step(CacheEvent::ReadDone(Some("body".to_string())));
    assert_eq!(s, CacheStep::Done("body".to_string()));
}

#[test]
fn dirty_entry_is_recreated() {
    // the clean check fails: fail open into the clone sequence
    let m = CacheFetch::new("u".to_string(), "r".to_string(), false);
    let (m, _) = m.begin();
    let (m, s) = m.step(CacheEvent::IsDir(true));
    assert_eq!(s, CacheStep::Do(CacheAction::RunGit(GitCmd::DiffQuiet)));
    let (_m, s) = m.step(CacheEvent::GitDone(false, "dirty".to_string()));
    assert_eq!(s, CacheStep::Do(CacheAction::CreateDir));
}

#[test]
fn force_fresh_deletes_before_any_reuse_check() {
    // even a clean entry is removed and recreated under force_fresh; the
    // clean check never runs
    let m = CacheFetch::new("https://example.com/r".to_string(), "v1".to_string(), true);
    let (m, first) = m.begin();
    assert_eq!(first, CacheAction::QueryIsDir);
    let (m, s) = m.step(CacheEvent::IsDir(true));
    assert_eq!(s, CacheStep::Do(CacheAction::RemoveDir));
    let (m, s) = m.step(CacheEvent::RemoveDone(true));
    assert_eq!(s, CacheStep::Do(CacheAction::QueryIsDir));
    let (m, s) = m.step(CacheEvent::IsDir(false));
    assert_eq!(s, CacheStep::Do(CacheAction::CreateDir));
    let (m, s) = m.step(CacheEvent::CreateDone(true));
    assert_eq!(s, CacheStep::Do(CacheAction::RunGit(GitCmd::Init)));
    let (m, s) = m.step(CacheEvent::GitDone(true, String::new()));
    assert_eq!(
        s,
        CacheStep::Do(CacheAction::RunGit(GitCmd::RemoteAddOrigin(
            "https://example.com/r".to_string()
        )))
    );
    let (m, s) = m.step(CacheEvent::GitDone(true, String::new()));
    assert_eq!(s, CacheStep::Do(CacheAction::RunGit(GitCmd::FetchDepth1("v1".to_string()))));
    let (m, s) = m.step(CacheEvent::GitDone(true, String::new()));
    assert_eq!(s, CacheStep::Do(CacheAction::RunGit(GitCmd::CheckoutFetchHead)));
    let (_m, s) = m.step(CacheEvent::GitDone(true, String::new()));
    assert_eq!(s, CacheStep::Do(CacheAction::ReadScript));
}

#[test]
fn force_fresh_on_missing_entry_skips_removal() {
    let m = CacheFetch::new("u".to_string(), "r".to_string(), true);
    let (m, _) = m.begin();
    let (m, s) = m.step(CacheEvent::IsDir(false));
    assert_eq!(s, CacheStep::Do(CacheAction::QueryIsDir));
    let (_m, s) = m.step(CacheEvent::IsDir(false));
    assert_eq!(s, CacheStep::Do(CacheAction::CreateDir));
}

#[test]
fn failed_git_command_surfaces_command_and_stderr() {
    let m = CacheFetch::new("u".to_string(), "r".to_string(), false);
    let (m, _) = m.begin();
    let (m, _) = m.step(CacheEvent::IsDir(false));
    let (m, _) = m.step(CacheEvent::CreateDone(true));
    let (m, _) = m.step(CacheEvent::GitDone(true, String::new()));
    let (m, _) = m.step(CacheEvent::GitDone(true, String::new()));
    // the shallow fetch fails
    let (_m, s) = m.step(CacheEvent::GitDone(false, "fatal: could not read".to_string()));
    match s {
        CacheStep::Fail(CoreError::GitCommandFailed { command, stderr }) => {
            assert_eq!(command, GitCmd::FetchDepth1("r".to_string()));
            assert_eq!(stderr, "fatal: could not read");
        }
        other => panic!("expected GitCommandFailed, got {:?}", other),
    }
}

#[test]
fn unreadable_script_is_a_content_read_error() {
    let m = CacheFetch::new("u".to_string(), "r".to_string(), false);
    let (m, _) = m.begin();
    let (m, _) = m.step(CacheEvent::IsDir(true));
    let (m, _) = m.step(CacheEvent::GitDone(true, String::new()));
    let (_m, s) = m.step(CacheEvent::ReadDone(None));
    assert_eq!(s, CacheStep::Fail(CoreError::ContentReadError));
}

#[test]
fn failed_directory_creation_aborts_the_fetch() {
    let m = CacheFetch::new("u".to_string(), "r".to_string(), false);
    let (m, _) = m.begin();
    let (m, _) = m.step(CacheEvent::IsDir(false));
    let (_m, s) = m.step(CacheEvent::CreateDone(false));
    assert_eq!(s, CacheStep::Fail(CoreError::CacheDirFailed { create: true }));
}

#[test]
fn failed_removal_aborts_the_fetch() {
    let m = CacheFetch::new("u".to_string(), "r".to_string(), true);
    let (m, _) = m.begin();
    let (m, s) = m.step(CacheEvent::IsDir(true));
    assert_eq!(s, CacheStep::Do(CacheAction::RemoveDir));
    let (_m, s) = m.step(CacheEvent::RemoveDone(false));
    assert_eq!(s, CacheStep::Fail(CoreError::CacheDirFailed { create: false }));
}
