use vstd::prelude::*;

use crate::repo::Repo;
use crate::text::str_equal;

verus! {

/// The first repository bound to `name` in an association list of saved
/// repositories.
pub open spec fn lookup(s: Seq<(String, Repo)>, name: Seq<char>) -> Option<Repo>
    decreases s.len(),
{
    if s.len() == 0 {
        Option::None
    } else if s[0].0@ == name {
        Option::Some(s[0].1)
    } else {
        lookup(s.drop_first(), name)
    }
}

proof fn lemma_lookup_skip(s: Seq<(String, Repo)>, name: Seq<char>, i: int)
    requires
        0 <= i <= s.len(),
        forall|j: int| 0 <= j < i ==> s[j].0@ != name,
    ensures
        lookup(s, name) == lookup(s.skip(i), name),
    decreases i,
{
    if i > 0 {
        assert(s.drop_first() =~= s.skip(1));
        lemma_lookup_skip(s.skip(1), name, i - 1);
        assert(s.skip(1).skip(i - 1) =~= s.skip(i));
    } else {
        assert(s.skip(0) =~= s);
    }
}

proof fn lemma_lookup_absent_iff(s: Seq<(String, Repo)>, name: Seq<char>)
    ensures
        (lookup(s, name) is None) <==> (forall|j: int| 0 <= j < s.len() ==> s[j].0@ != name),
    decreases s.len(),
{
    if s.len() > 0 {
        lemma_lookup_absent_iff(s.drop_first(), name);
        if lookup(s, name) is None {
            assert forall|j: int| 0 <= j < s.len() implies s[j].0@ != name by {
                if j >= 1 {
                    assert(s.drop_first()[j - 1] == s[j]);
                }
            }
        }
        if forall|j: int| 0 <= j < s.len() ==> s[j].0@ != name {
            assert forall|j: int| 0 <= j < s.drop_first().len() implies s.drop_first()[j].0@
                != name by {
                assert(s.drop_first()[j] == s[j + 1]);
            }
        }
    }
}

proof fn lemma_lookup_push(s: Seq<(String, Repo)>, entry: (String, Repo), name: Seq<char>)
    ensures
        lookup(s.push(entry), name) == {
            if lookup(s, name) is Some {
                lookup(s, name)
            } else if entry.0@ == name {
                Option::Some(entry.1)
            } else {
                Option::<Repo>::None
            }
        },
    decreases s.len(),
{
    let t = s.push(entry);
    assert(t.len() == s.len() + 1);
    if s.len() == 0 {
        assert(t[0] == entry);
        assert(t.drop_first() =~= Seq::<(String, Repo)>::empty());
        assert(lookup(t.drop_first(), name) is None);
        assert(lookup(s, name) is None);
        if entry.0@ == name {
            assert(lookup(t, name) == Option::Some(entry.1));
        } else {
            assert(lookup(t, name) == lookup(t.drop_first(), name));
        }
    } else {
        assert(t[0] == s[0]);
        assert(t.drop_first() =~= s.drop_first().push(entry));
        lemma_lookup_push(s.drop_first(), entry, name);
        if s[0].0@ == name {
            assert(lookup(t, name) == Option::Some(s[0].1));
            assert(lookup(s, name) == Option::Some(s[0].1));
        } else {
            assert(lookup(t, name) == lookup(s.drop_first().push(entry), name));
            assert(lookup(s, name) == lookup(s.drop_first(), name));
        }
    }
}

/// Saved repositories, keyed by their alias names; no alias occurs twice
/// (`wf`), which every operation preserves.
pub struct RepoTable {
    pub entries: Vec<(String, Repo)>,
}

impl RepoTable {
    /// The underlying association list.
    pub open spec fn entries_seq(&self) -> Seq<(String, Repo)> {
        self.entries@
    }

    /// Alias names are unique.
    pub open spec fn wf(&self) -> bool {
        forall|p: int, q: int|
            0 <= p < q < self.entries@.len() ==> self.entries@[p].0@ != self.entries@[q].0@
    }

    /// The repository saved under `name`, if any.
    pub open spec fn spec_lookup(&self, name: Seq<char>) -> Option<Repo> {
        lookup(self.entries@, name)
    }

    /// An empty table.
    pub fn new() -> (t: RepoTable)
        ensures
            t.wf(),
            t.entries_seq().len() == 0,
    {
        RepoTable { entries: Vec::new() }
    }

    /// The number of saved repositories.
    pub fn len(&self) -> (n: usize)
        ensures
            n == self.entries_seq().len(),
    {
        self.entries.len()
    }

    /// True when no repository is saved.
    pub fn is_empty(&self) -> (b: bool)
        ensures
            b == (self.entries_seq().len() == 0),
    {
        self.entries.len() == 0
    }

    /// The entries, for listing.
    pub fn pairs(&self) -> (r: &Vec<(String, Repo)>)
        ensures
            r@ == self.entries_seq(),
    {
        &self.entries
    }

    fn find_index(&self, name: &str) -> (r: Option<usize>)
        ensures
            match r {
                Option::Some(i) => i < self.entries@.len() && self.entries@[i as int].0@ == name@
                    && (forall|j: int| 0 <= j < i ==> self.entries@[j].0@ != name@),
                Option::None => forall|j: int|
                    0 <= j < self.entries@.len() ==> self.entries@[j].0@ != name@,
            },
    {
        let n = self.entries.len();
        let mut i: usize = 0;
        while i < n
            invariant
                i <= n,
                n == self.entries@.len(),
                forall|j: int| 0 <= j < i ==> self.entries@[j].0@ != name@,
            decreases n - i,
        {
            if str_equal(self.entries[i].0.as_str(), name) {
                return Option::Some(i);
            }
            i += 1;
        }
        Option::None
    }

    /// The repository saved under `name`.
    pub fn get(&self, name: &str) -> (r: Option<&Repo>)
        ensures
            match r {
                Option::Some(rp) => self.spec_lookup(name@) == Option::Some(*rp),
                Option::None => self.spec_lookup(name@) is None,
            },
    {
        match self.find_index(name) {
            Option::Some(i) => {
                proof {
                    lemma_lookup_skip(self.entries@, name@, i as int);
                    assert(self.entries@.skip(i as int)[0] == self.entries@[i as int]);
                }
                Option::Some(&self.entries[i].1)
            },
            Option::None => {
                proof {
                    lemma_lookup_absent_iff(self.entries@, name@);
                }
                Option::None
            },
        }
    }

    /// True when an alias `name` is saved.
    pub fn contains_key(&self, name: &str) -> (b: bool)
        ensures
            b == (self.spec_lookup(name@) is Some),
    {
        match self.get(name) {
            Option::Some(_) => true,
            Option::None => false,
        }
    }

    /// Saves `repo` under the fresh alias `name`.
    pub fn insert(&mut self, name: String, repo: Repo)
        requires
            old(self).wf(),
            old(self).spec_lookup(name@) is None,
        ensures
            final(self).wf(),
            final(self).entries_seq() == old(self).entries_seq().push((name, repo)),
            final(self).spec_lookup(name@) == Option::Some(repo),
            forall|n: Seq<char>|
                n != name@ ==> final(self).spec_lookup(n) == old(self).spec_lookup(n),
    {
        proof {
            lemma_lookup_absent_iff(self.entries@, name@);
        }
        let ghost old_entries = self.entries@;
        let ghost entry = (name, repo);
        self.entries.push((name, repo));
        proof {
            assert(self.entries@ == old_entries.push(entry));
            lemma_lookup_push(old_entries, entry, name@);
            assert forall|n: Seq<char>| n != name@ implies lookup(self.entries@, n) == lookup(
                old_entries,
                n,
            ) by {
                lemma_lookup_push(old_entries, entry, n);
            }
            assert forall|p: int, q: int|
                0 <= p < q < self.entries@.len() implies self.entries@[p].0@
                != self.entries@[q].0@ by {
                if q < old_entries.len() {
                } else {
                    assert(self.entries@[q] == entry);
                    assert(self.entries@[p] == old_entries[p]);
                }
            }
        }
    }

    /// Removes the repository saved under `name`, if any; reports whether
    /// one was removed.
    pub fn remove(&mut self, name: &str) -> (removed: bool)
        requires
            old(self).wf(),
        ensures
            final(self).wf(),
            final(self).spec_lookup(name@) is None,
            forall|n: Seq<char>|
                n != name@ ==> final(self).spec_lookup(n) == old(self).spec_lookup(n),
            removed == (old(self).spec_lookup(name@) is Some),
    {
        match self.find_index(name) {
            Option::Some(i) => {
                proof {
                    lemma_lookup_skip(self.entries@, name@, i as int);
                    assert(self.entries@.skip(i as int)[0] == self.entries@[i as int]);
                }
                let ghost old_entries = self.entries@;
                self.entries.remove(i);
                proof {
                    assert(self.entries@ == old_entries.remove(i as int));
                    assert forall|p: int, q: int|
                        0 <= p < q < self.entries@.len() implies self.entries@[p].0@
                        != self.entries@[q].0@ by {
                        let p0 = if p < i { p } else { p + 1 };
                        let q0 = if q < i { q } else { q + 1 };
                        assert(self.entries@[p] == old_entries[p0]);
                        assert(self.entries@[q] == old_entries[q0]);
                    }
                    lemma_lookup_absent_iff(self.entries@, name@);
                    assert forall|j: int|
                        0 <= j < self.entries@.len() implies self.entries@[j].0@ != name@ by {
                        let j0 = if j < i { j } else { j + 1 };
                        assert(self.entries@[j] == old_entries[j0]);
                    }
                    assert forall|n: Seq<char>| n != name@ implies lookup(self.entries@, n)
                        == lookup(old_entries, n) by {
                        lemma_lookup_remove_other(old_entries, i as int, n);
                    }
                }
                true
            },
            Option::None => {
                proof {
                    lemma_lookup_absent_iff(self.entries@, name@);
                }
                false
            },
        }
    }
}

proof fn lemma_lookup_remove_other(s: Seq<(String, Repo)>, i: int, n: Seq<char>)
    requires
        0 <= i < s.len(),
        s[i].0@ != n,
    ensures
        lookup(s.remove(i), n) == lookup(s, n),
    decreases s.len(),
{
    if i == 0 {
        assert(s.remove(0) =~= s.drop_first());
    } else {
        assert(s.remove(i)[0] == s[0]);
        if s[0].0@ == n {
        } else {
            assert(s.remove(i).drop_first() =~= s.drop_first().remove(i - 1));
            lemma_lookup_remove_other(s.drop_first(), i - 1, n);
        }
    }
}

/// The configuration the embedding program loads at startup: the optional
/// extension requirements and the saved repository table.
pub struct Config {
    /// Extension a script run through the shell must carry, when set.
    pub require_bash_extension: Option<String>,
    /// Extension an imported script must carry, when set.
    pub require_lib_extension: Option<String>,
    pub repo: RepoTable,
}

impl Default for Config {
    /// An empty configuration: no extension requirements, no saved
    /// repositories.
    fn default() -> (c: Config)
        ensures
            c.require_bash_extension is None,
            c.require_lib_extension is None,
            c.repo.wf(),
            c.repo.entries_seq().len() == 0,
    {
        Config {
            require_bash_extension: Option::None,
            require_lib_extension: Option::None,
            repo: RepoTable::new(),
        }
    }
}

} // verus!
