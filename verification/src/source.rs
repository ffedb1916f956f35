use vstd::prelude::*;
use vstd::string::StringExecFns;

use crate::config::{lookup, Config};
use crate::errors::CoreError;
use crate::git::GitRepo;
use crate::repo::Repo;
use crate::text::{ends_with_spec, str_ends_with};

verus! {

// ---------------------------------------------------------------------------
// The identifier grammars.
//
// A raw identifier addresses one script in one repository and must match
// exactly one of two grammars, tried in a fixed order:
//
//   saved-alias:  <alias>[@<ref>]:<path>
//   direct-git:   <repo-url>[@<ref>]:<path>
//
// where <alias> is a nonempty run of word characters, <ref> is a nonempty
// run of ref characters (word characters, dots and hyphens, as git branch
// and tag names have), <repo-url> starts with a git transport prefix
// (`git:`, `ssh:`, `http:`, `https:` or the SCP-like `git@<host>:`)
// followed by a nonempty run of URL body characters, and <path> is the
// nonempty remainder, free of line breaks.
//
// The alias grammar is tried first: alias names are syntactically a subset
// of repository URLs, and the tie is broken deliberately in their favour.
// One exception keeps a git URL containing a colon from being read as an
// alias: because a ref may contain dots, an SCP-like URL such as
// `git@github.com:user/repo@main:hello.bash` would also read as the alias
// `git` with ref `github.com`; an identifier that the direct-git grammar
// accepts is therefore never taken as an alias-with-ref.
// ---------------------------------------------------------------------------
/// Character classes of the two grammars.
#[derive(Clone, Copy, PartialEq, Eq, Structural, Debug)]
pub enum CharClass {
    /// A word character: ASCII letter, digit or underscore.
    Word,
    /// A host-name character: word character or dot.
    Host,
    /// A ref-name character: word character, dot or hyphen.
    RefName,
    /// A repository-URL body character: word character, dot, slash,
    /// hyphen or tilde.
    RepoBody,
}

pub open spec fn is_word_char(c: char) -> bool {
    ||| 'a' as u32 <= c as u32 && c as u32 <= 'z' as u32
    ||| 'A' as u32 <= c as u32 && c as u32 <= 'Z' as u32
    ||| '0' as u32 <= c as u32 && c as u32 <= '9' as u32
    ||| c == '_'
}

pub open spec fn in_class(k: CharClass, c: char) -> bool {
    match k {
        CharClass::Word => is_word_char(c),
        CharClass::Host => is_word_char(c) || c == '.',
        CharClass::RefName => is_word_char(c) || c == '.' || c == '-',
        CharClass::RepoBody => is_word_char(c) || c == '.' || c == '/' || c == '-' || c == '~',
    }
}

/// Length of the maximal run of class-`k` characters of `s` starting at `i`.
pub open spec fn run_len(k: CharClass, s: Seq<char>, i: int) -> int
    decreases s.len() - i,
{
    if i < 0 || i >= s.len() || !in_class(k, s[i]) {
        0
    } else {
        1 + run_len(k, s, i + 1)
    }
}

/// A script path: nonempty, no line breaks.  (A line break can never be part
/// of an identifier; everything else after the separating colon is taken
/// verbatim.)
pub open spec fn path_ok(p: Seq<char>) -> bool {
    p.len() > 0 && (forall|i: int| 0 <= i < p.len() ==> p[i] != '\n')
}

/// Both grammars end alike: at position `j` the identifier must continue
/// with `@<ref>:<path>` or with `:<path>`.  Yields the optional ref and the
/// path.
pub open spec fn tail_split(s: Seq<char>, j: int) -> Option<(Option<Seq<char>>, Seq<char>)>
    recommends
        0 <= j <= s.len(),
{
    if j < s.len() && s[j] == '@' {
        let r = run_len(CharClass::RefName, s, j + 1);
        if r > 0 && j + 1 + r < s.len() && s[j + 1 + r] == ':' {
            let p = s.subrange(j + 2 + r, s.len() as int);
            if path_ok(p) {
                Option::Some((Option::Some(s.subrange(j + 1, j + 1 + r)), p))
            } else {
                Option::None
            }
        } else {
            Option::None
        }
    } else if j < s.len() && s[j] == ':' {
        let p = s.subrange(j + 1, s.len() as int);
        if path_ok(p) {
            Option::Some((Option::None, p))
        } else {
            Option::None
        }
    } else {
        Option::None
    }
}

/// The saved-alias grammar: `<alias>[@<ref>]:<path>`.  Yields
/// (alias, optional ref, path) when `s` matches.  The alias-with-ref form
/// stands back when the identifier is a well-formed git URL: a ref may
/// contain dots, so an SCP-like URL would otherwise read as a one-word
/// alias with the host as its ref.
pub open spec fn alias_split(s: Seq<char>) -> Option<(Seq<char>, Option<Seq<char>>, Seq<char>)> {
    let a = run_len(CharClass::Word, s, 0);
    if a > 0 {
        match tail_split(s, a) {
            Option::Some((rr, p)) => {
                if rr is Some && git_split(s) is Some {
                    Option::None
                } else {
                    Option::Some((s.subrange(0, a), rr, p))
                }
            },
            Option::None => Option::None,
        }
    } else {
        Option::None
    }
}

/// The git transport prefix of the direct-git grammar.  Yields the index of
/// the colon that ends the prefix: `git:`, `ssh:`, `https:`, `http:`, or
/// `git@<host>:` with a nonempty host of word characters and dots.
pub open spec fn git_prefix_end(s: Seq<char>) -> Option<int> {
    if s.len() >= 4 && s[0] == 'g' && s[1] == 'i' && s[2] == 't' && s[3] == ':' {
        Option::Some(3)
    } else if s.len() >= 4 && s[0] == 's' && s[1] == 's' && s[2] == 'h' && s[3] == ':' {
        Option::Some(3)
    } else if s.len() >= 6 && s[0] == 'h' && s[1] == 't' && s[2] == 't' && s[3] == 'p' && s[4]
        == 's' && s[5] == ':' {
        Option::Some(5)
    } else if s.len() >= 5 && s[0] == 'h' && s[1] == 't' && s[2] == 't' && s[3] == 'p' && s[4]
        == ':' {
        Option::Some(4)
    } else if s.len() >= 4 && s[0] == 'g' && s[1] == 'i' && s[2] == 't' && s[3] == '@' {
        let h = run_len(CharClass::Host, s, 4);
        if h > 0 && 4 + h < s.len() && s[4 + h] == ':' {
            Option::Some(4 + h)
        } else {
            Option::None
        }
    } else {
        Option::None
    }
}

/// The direct-git grammar: `<repo-url>[@<ref>]:<path>`.  The repository URL
/// runs from the start through the transport prefix and the maximal run of
/// body characters after it.  Yields (repo URL, optional ref, path).
pub open spec fn git_split(s: Seq<char>) -> Option<(Seq<char>, Option<Seq<char>>, Seq<char>)> {
    match git_prefix_end(s) {
        Option::Some(pe) => {
            let b = run_len(CharClass::RepoBody, s, pe + 1);
            if b > 0 {
                match tail_split(s, pe + 1 + b) {
                    Option::Some((rr, p)) => Option::Some((s.subrange(0, pe + 1 + b), rr, p)),
                    Option::None => Option::None,
                }
            } else {
                Option::None
            }
        },
        Option::None => Option::None,
    }
}

/// View of an optional owned string.
pub open spec fn opt_view(o: Option<String>) -> Option<Seq<char>> {
    match o {
        Option::Some(s) => Option::Some(s@),
        Option::None => Option::None,
    }
}

// ---------------------------------------------------------------------------
// Executable scanning helpers.
// ---------------------------------------------------------------------------
fn class_check(k: CharClass, c: char) -> (b: bool)
    ensures
        b == in_class(k, c),
{
    let word = (c as u32 >= 'a' as u32 && c as u32 <= 'z' as u32) || (c as u32 >= 'A' as u32 && c
        as u32 <= 'Z' as u32) || (c as u32 >= '0' as u32 && c as u32 <= '9' as u32) || c == '_';
    match k {
        CharClass::Word => word,
        CharClass::Host => word || c == '.',
        CharClass::RefName => word || c == '.' || c == '-',
        CharClass::RepoBody => word || c == '.' || c == '/' || c == '-' || c == '~',
    }
}

/// The characters of `s`, one per element.
fn char_vec(s: &str) -> (v: Vec<char>)
    ensures
        v@ == s@,
{
    let n = s.unicode_len();
    let mut v: Vec<char> = Vec::new();
    let mut i: usize = 0;
    while i < n
        invariant
            i <= n,
            n == s@.len(),
            v@ == s@.take(i as int),
        decreases n - i,
    {
        let c = s.get_char(i);
        v.push(c);
        proof {
            assert(v@ =~= s@.take(i + 1));
        }
        i += 1;
    }
    proof {
        assert(v@ =~= s@);
    }
    v
}

/// Scans the maximal run of class-`k` characters starting at `from`;
/// returns the index one past the run.
fn scan(k: CharClass, v: &Vec<char>, from: usize) -> (end: usize)
    requires
        from <= v@.len(),
    ensures
        end == from + run_len(k, v@, from as int),
        end <= v@.len(),
{
    let n = v.len();
    let mut i = from;
    while i < n
        invariant_except_break
            from <= i <= n,
            n == v@.len(),
            run_len(k, v@, from as int) == i - from + run_len(k, v@, i as int),
        ensures
            from <= i <= n,
            i == from + run_len(k, v@, from as int),
        decreases n - i,
    {
        if !class_check(k, v[i]) {
            proof {
                assert(run_len(k, v@, i as int) == 0);
            }
            break ;
        }
        proof {
            assert(run_len(k, v@, i as int) == 1 + run_len(k, v@, i + 1));
        }
        i += 1;
    }
    i
}

/// True when the characters of `v` from `from` to the end form a valid
/// script path.
fn path_check(v: &Vec<char>, from: usize) -> (b: bool)
    requires
        from <= v@.len(),
    ensures
        b == path_ok(v@.subrange(from as int, v@.len() as int)),
{
    let n = v.len();
    if from == n {
        return false;
    }
    let mut i = from;
    while i < n
        invariant
            from <= i <= n,
            n == v@.len(),
            forall|j: int| from <= j < i ==> v@[j] != '\n',
        decreases n - i,
    {
        if v[i] == '\n' {
            proof {
                assert(v@.subrange(from as int, n as int)[i - from] == '\n');
            }
            return false;
        }
        i += 1;
    }
    proof {
        let p = v@.subrange(from as int, n as int);
        assert(forall|j: int| 0 <= j < p.len() ==> p[j] == v@[from + j] && v@[from + j] != '\n');
    }
    true
}

// ---------------------------------------------------------------------------
// The parsed source.
// ---------------------------------------------------------------------------
/// What the caller intends to do with the fetched script.  It affects only
/// which filename extension is demanded, never how the script is fetched.
#[derive(Clone, Copy, PartialEq, Eq, Structural, Debug)]
pub enum ScriptAction {
    Run,
    Import,
}

/// Which grammar the identifier matched: a saved alias resolved through the
/// configuration (`Api`), or a raw git URL fetched through the local git
/// cache (`Git`).
#[derive(Clone, Copy, PartialEq, Eq, Structural, Debug)]
pub enum SourceType {
    Git,
    Api,
}

/// The parsed intent of one invocation.
#[derive(Debug)]
pub struct ScriptSource {
    /// Saved alias name (`Api`) or raw git URL (`Git`).
    pub repo: String,
    pub source_type: SourceType,
    /// Path of the script within the repository.
    pub script_name: String,
    /// Requested git ref; `None` falls back to the provider's notion of the
    /// latest revision.
    pub rref: Option<String>,
    pub action: ScriptAction,
}

/// Executable form of `tail_split`: parses `[@<ref>]:<path>` at `j`.
fn tail_parse(s: &str, v: &Vec<char>, j: usize) -> (r: Option<(Option<String>, String)>)
    requires
        v@ == s@,
        j <= v@.len(),
    ensures
        match tail_split(s@, j as int) {
            Option::Some((rr, p)) => match r {
                Option::Some((r_rr, r_p)) => opt_view(r_rr) == rr && r_p@ == p,
                Option::None => false,
            },
            Option::None => r is None,
        },
{
    let n = v.len();
    if j < n && v[j] == '@' {
        let r_end = scan(CharClass::RefName, v, j + 1);
        if r_end > j + 1 && r_end < n && v[r_end] == ':' {
            if path_check(v, r_end + 1) {
                let rref = s.substring_char(j + 1, r_end).to_owned();
                let path = s.substring_char(r_end + 1, n).to_owned();
                return Option::Some((Option::Some(rref), path));
            }
        }
        Option::None
    } else if j < n && v[j] == ':' {
        if path_check(v, j + 1) {
            let path = s.substring_char(j + 1, n).to_owned();
            Option::Some((Option::None, path))
        } else {
            Option::None
        }
    } else {
        Option::None
    }
}

/// Executable form of `git_prefix_end`.
fn git_prefix_parse(v: &Vec<char>) -> (r: Option<usize>)
    ensures
        match git_prefix_end(v@) {
            Option::Some(pe) => 0 <= pe < v@.len() && r == Option::Some(pe as usize),
            Option::None => r is None,
        },
{
    let n = v.len();
    if n >= 4 && v[0] == 'g' && v[1] == 'i' && v[2] == 't' && v[3] == ':' {
        Option::Some(3)
    } else if n >= 4 && v[0] == 's' && v[1] == 's' && v[2] == 'h' && v[3] == ':' {
        Option::Some(3)
    } else if n >= 6 && v[0] == 'h' && v[1] == 't' && v[2] == 't' && v[3] == 'p' && v[4] == 's'
        && v[5] == ':' {
        Option::Some(5)
    } else if n >= 5 && v[0] == 'h' && v[1] == 't' && v[2] == 't' && v[3] == 'p' && v[4] == ':' {
        Option::Some(4)
    } else if n >= 4 && v[0] == 'g' && v[1] == 'i' && v[2] == 't' && v[3] == '@' {
        let h_end = scan(CharClass::Host, v, 4);
        if h_end > 4 && h_end < n && v[h_end] == ':' {
            Option::Some(h_end)
        } else {
            Option::None
        }
    } else {
        Option::None
    }
}

/// Executable form of `git_split`: the whole direct-git grammar.
fn git_parse(s: &str, v: &Vec<char>) -> (r: Option<(String, Option<String>, String)>)
    requires
        v@ == s@,
    ensures
        match git_split(s@) {
            Option::Some((rep, rr, p)) => match r {
                Option::Some((r_rep, r_rr, r_p)) => r_rep@ == rep && opt_view(r_rr) == rr && r_p@
                    == p,
                Option::None => false,
            },
            Option::None => r is None,
        },
{
    let n = v.len();
    match git_prefix_parse(v) {
        Option::Some(pe) => {
            let b_end = scan(CharClass::RepoBody, v, pe + 1);
            if b_end > pe + 1 {
                match tail_parse(s, v, b_end) {
                    Option::Some((rref, path)) => {
                        let repo = s.substring_char(0, b_end).to_owned();
                        Option::Some((repo, rref, path))
                    },
                    Option::None => Option::None,
                }
            } else {
                Option::None
            }
        },
        Option::None => Option::None,
    }
}

impl ScriptSource {
    /// Parses a raw identifier against the two grammars, the saved-alias
    /// grammar first.  An identifier that matches neither is rejected with
    /// `UnrecognizedIdentifier` carrying the original string; parsing never
    /// falls back silently from one grammar to the other.
    pub fn parse(script: &str, action: ScriptAction) -> (r: Result<ScriptSource, CoreError>)
        ensures
            match r {
                Ok(src) => {
                    &&& src.action == action
                    &&& match alias_split(script@) {
                        Option::Some((al, rr, p)) => {
                            &&& src.source_type == SourceType::Api
                            &&& src.repo@ == al
                            &&& opt_view(src.rref) == rr
                            &&& src.script_name@ == p
                        },
                        Option::None => match git_split(script@) {
                            Option::Some((rep, rr, p)) => {
                                &&& src.source_type == SourceType::Git
                                &&& src.repo@ == rep
                                &&& opt_view(src.rref) == rr
                                &&& src.script_name@ == p
                            },
                            Option::None => false,
                        },
                    }
                },
                Err(e) => {
                    &&& alias_split(script@) is None
                    &&& git_split(script@) is None
                    &&& match e {
                        CoreError::UnrecognizedIdentifier { identifier } => identifier@
                            == script@,
                        _ => false,
                    }
                },
            },
    {
        let v = char_vec(script);
        let git_cand = git_parse(script, &v);
        let a_end = scan(CharClass::Word, &v, 0);
        if a_end > 0 {
            match tail_parse(script, &v, a_end) {
                Option::Some((rref, path)) => {
                    if rref.is_none() || git_cand.is_none() {
                        let repo = script.substring_char(0, a_end).to_owned();
                        return Ok(
                            ScriptSource {
                                repo,
                                source_type: SourceType::Api,
                                script_name: path,
                                rref,
                                action,
                            },
                        );
                    }
                },
                Option::None => {},
            }
        }
        match git_cand {
            Option::Some((repo, rref, path)) => Ok(
                ScriptSource {
                    repo,
                    source_type: SourceType::Git,
                    script_name: path,
                    rref,
                    action,
                },
            ),
            Option::None => Err(
                CoreError::UnrecognizedIdentifier { identifier: script.to_owned() },
            ),
        }
    }

    /// The ref to fetch: the one the identifier named, or `HEAD` as the
    /// provider-independent latest-revision sentinel.
    pub fn ref_or_head(&self) -> (r: String)
        ensures
            r@ == default_ref(self.rref),
    {
        match &self.rref {
            Option::Some(s) => s.clone(),
            Option::None => String::from_str("HEAD"),
        }
    }

    /// Checks the script path's extension against what the configuration
    /// demands for this source's action; nothing is demanded when no
    /// extension is configured for the action.
    pub fn validate_script_name(&self, config: &Config) -> (r: Result<(), CoreError>)
        ensures
            match expected_extension(self.action, config) {
                Option::Some(ext) => {
                    if ends_with_spec(self.script_name@, ext) {
                        r == Ok::<(), CoreError>(())
                    } else {
                        match r {
                            Err(e) => match e {
                                CoreError::ExtensionMismatch { expected } => expected@ == ext,
                                _ => false,
                            },
                            Ok(_) => false,
                        }
                    }
                },
                Option::None => r == Ok::<(), CoreError>(()),
            },
    {
        let expected = match self.action {
            ScriptAction::Run => &config.require_bash_extension,
            ScriptAction::Import => &config.require_lib_extension,
        };
        match expected {
            Option::Some(ext) => {
                if str_ends_with(self.script_name.as_str(), ext.as_str()) {
                    Ok(())
                } else {
                    Err(CoreError::ExtensionMismatch { expected: ext.clone() })
                }
            },
            Option::None => Ok(()),
        }
    }

    /// Selects the fetcher for this source: a saved-alias source resolves
    /// through the configuration table and fails with `RepoNotFound` for an
    /// unknown alias; a direct-git source always fetches through the git
    /// cache with the literal URL.  Also yields the effective ref.
    pub fn select_fetcher(&self, config: &Config) -> (r: Result<(Repo, String), CoreError>)
        ensures
            match self.source_type {
                SourceType::Api => match lookup(config.repo.entries_seq(), self.repo@) {
                    Option::Some(rp) => match r {
                        Ok((repo, rref)) => repo == rp && rref@ == default_ref(self.rref),
                        Err(_) => false,
                    },
                    Option::None => match r {
                        Err(e) => match e {
                            CoreError::RepoNotFound { alias } => alias@ == self.repo@,
                            _ => false,
                        },
                        Ok(_) => false,
                    },
                },
                SourceType::Git => match r {
                    Ok((repo, rref)) => repo == Repo::Git(GitRepo { url: self.repo }) && rref@
                        == default_ref(self.rref),
                    Err(_) => false,
                },
            },
    {
        match self.source_type {
            SourceType::Api => {
                match config.repo.get(self.repo.as_str()) {
                    Option::Some(rp) => Ok((rp.duplicate(), self.ref_or_head())),
                    Option::None => Err(
                        CoreError::RepoNotFound { alias: self.repo.clone() },
                    ),
                }
            },
            SourceType::Git => Ok((GitRepo::from_src(self), self.ref_or_head())),
        }
    }
}

/// The effective ref of a parsed source: the named one, or `HEAD`.
pub open spec fn default_ref(o: Option<String>) -> Seq<char> {
    match o {
        Option::Some(s) => s@,
        Option::None => "HEAD"@,
    }
}

/// The extension the configuration demands for an action, if any.
pub open spec fn expected_extension(action: ScriptAction, config: &Config) -> Option<Seq<char>> {
    match action {
        ScriptAction::Run => opt_view(config.require_bash_extension),
        ScriptAction::Import => opt_view(config.require_lib_extension),
    }
}

} // verus!
