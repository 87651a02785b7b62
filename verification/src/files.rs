//! A model of the two physical locations an installed artifact lives in.
//! Transactions mutate the model; the caller mirrors each mutation onto the
//! real filesystem.

use vstd::prelude::*;

verus! {

/// Whether the directory listing `dir` holds a file named `name`.
pub open spec fn dir_has(dir: Seq<String>, name: Seq<char>) -> bool {
    exists|i: int| 0 <= i < dir.len() && (#[trigger] dir[i])@ == name
}

/// The listing `dir` with every file named `name` taken out.
pub open spec fn without_name(dir: Seq<String>, name: Seq<char>) -> Seq<String>
    decreases dir.len(),
{
    if dir.len() == 0 {
        Seq::empty()
    } else {
        let rest = without_name(dir.drop_last(), name);
        if dir.last()@ == name {
            rest
        } else {
            rest.push(dir.last())
        }
    }
}

/// After the deletion, no file named `name` is listed.
pub proof fn lemma_without_name_absent(dir: Seq<String>, name: Seq<char>)
    ensures
        !dir_has(without_name(dir, name), name),
    decreases dir.len(),
{
    if dir.len() > 0 {
        lemma_without_name_absent(dir.drop_last(), name);
        let rest = without_name(dir.drop_last(), name);
        if dir.last()@ != name {
            assert forall|i: int|
                0 <= i < rest.push(dir.last()).len() implies (#[trigger] rest.push(dir.last())[i])@
                != name by {
                if i < rest.len() {
                    assert(rest.push(dir.last())[i] == rest[i]);
                    assert(!dir_has(rest, name));
                }
            }
        }
    }
}

/// The deletion touches no file with another name.
pub proof fn lemma_without_name_other(dir: Seq<String>, name: Seq<char>, m: Seq<char>)
    requires
        m != name,
    ensures
        dir_has(without_name(dir, name), m) == dir_has(dir, m),
    decreases dir.len(),
{
    if dir.len() > 0 {
        let prefix = dir.drop_last();
        lemma_without_name_other(prefix, name, m);
        let rest = without_name(prefix, name);
        assert(dir_has(prefix, m) ==> dir_has(dir, m)) by {
            if dir_has(prefix, m) {
                let i = choose|i: int| 0 <= i < prefix.len() && (#[trigger] prefix[i])@ == m;
                assert(dir[i]@ == m);
            }
        }
        assert(dir_has(dir, m) == (dir_has(prefix, m) || dir.last()@ == m)) by {
            if dir_has(dir, m) {
                let i = choose|i: int| 0 <= i < dir.len() && (#[trigger] dir[i])@ == m;
                if i < prefix.len() {
                    assert(prefix[i]@ == m);
                }
            }
        }
        if dir.last()@ == name {
        } else {
            let t = rest.push(dir.last());
            assert(dir_has(t, m) == (dir_has(rest, m) || dir.last()@ == m)) by {
                if dir_has(t, m) {
                    let i = choose|i: int| 0 <= i < t.len() && (#[trigger] t[i])@ == m;
                    if i < rest.len() {
                        assert(rest[i]@ == m);
                    }
                }
                if dir_has(rest, m) {
                    let i = choose|i: int| 0 <= i < rest.len() && (#[trigger] rest[i])@ == m;
                    assert(t[i]@ == m);
                }
                if dir.last()@ == m {
                    assert(t[t.len() - 1]@ == m);
                }
            }
        }
    }
}

/// Rebuild `v` without any element reading `name`.
fn remove_name(v: &mut Vec<String>, name: &String)
    ensures
        final(v)@ == without_name(old(v)@, name@),
{
    let mut out: Vec<String> = Vec::new();
    let mut i: usize = 0;
    while i < v.len()
        invariant
            i <= v@.len(),
            *v == *old(v),
            out@ == without_name(v@.take(i as int), name@),
        decreases v@.len() - i,
    {
        if !(v[i] == *name) {
            out.push(v[i].clone());
        }
        proof {
            let t = v@.take(i + 1 as int);
            assert(t.drop_last() =~= v@.take(i as int));
            assert(t.last() == v@[i as int]);
        }
        i += 1;
    }
    proof {
        assert(v@.take(v@.len() as int) =~= v@);
    }
    *v = out;
}

/// The model of the two physical locations a profile's artifacts live in: the
/// profile-scoped directory holding the canonical copies, and the shared
/// game-mods directory the host game loads from. The caller driving a
/// transaction mirrors every mutation of this model onto the real filesystem.
#[derive(Debug)]
pub struct ModDirs {
    pub profile_dir: Vec<String>,
    pub shared_dir: Vec<String>,
}

impl ModDirs {
    /// A model in which no file is known yet.
    pub fn new() -> (r: Self)
        ensures
            r.profile_dir@ == Seq::<String>::empty(),
            r.shared_dir@ == Seq::<String>::empty(),
    {
        ModDirs { profile_dir: Vec::new(), shared_dir: Vec::new() }
    }

    /// Record that a file named `name` is present in the profile-scoped
    /// directory, as after a completed download.
    pub fn note_profile_file(&mut self, name: String)
        ensures
            final(self).profile_dir@ == old(self).profile_dir@.push(name),
            final(self).shared_dir == old(self).shared_dir,
    {
        self.profile_dir.push(name);
    }

    /// Record that a file named `name` is present in the shared game-mods
    /// directory.
    pub fn note_shared_file(&mut self, name: String)
        ensures
            final(self).shared_dir@ == old(self).shared_dir@.push(name),
            final(self).profile_dir == old(self).profile_dir,
    {
        self.shared_dir.push(name);
    }

    /// Whether a file named `name` is listed in the profile-scoped directory.
    pub fn has_profile_file(&self, name: &String) -> (r: bool)
        ensures
            r == dir_has(self.profile_dir@, name@),
    {
        has_name(&self.profile_dir, name)
    }

    /// Whether a file named `name` is listed in the shared directory.
    pub fn has_shared_file(&self, name: &String) -> (r: bool)
        ensures
            r == dir_has(self.shared_dir@, name@),
    {
        has_name(&self.shared_dir, name)
    }

    /// Delete the file named `name` from the profile-scoped directory only.
    pub fn delete_profile_file(&mut self, name: &String)
        ensures
            final(self).profile_dir@ == without_name(old(self).profile_dir@, name@),
            !dir_has(final(self).profile_dir@, name@),
            forall|m: Seq<char>|
                m != name@ ==> dir_has(final(self).profile_dir@, m) == dir_has(
                    old(self).profile_dir@,
                    m,
                ),
            final(self).shared_dir == old(self).shared_dir,
    {
        remove_name(&mut self.profile_dir, name);
        proof {
            lemma_without_name_absent(old(self).profile_dir@, name@);
            assert forall|m: Seq<char>| m != name@ implies dir_has(self.profile_dir@, m)
                == dir_has(old(self).profile_dir@, m) by {
                lemma_without_name_other(old(self).profile_dir@, name@, m);
            }
        }
    }

    /// Delete the file named `name` from both physical locations, as a
    /// committed removal must.
    pub fn delete_everywhere(&mut self, name: &String)
        ensures
            final(self).profile_dir@ == without_name(old(self).profile_dir@, name@),
            final(self).shared_dir@ == without_name(old(self).shared_dir@, name@),
            !dir_has(final(self).profile_dir@, name@),
            !dir_has(final(self).shared_dir@, name@),
            forall|m: Seq<char>|
                m != name@ ==> dir_has(final(self).profile_dir@, m) == dir_has(
                    old(self).profile_dir@,
                    m,
                ),
            forall|m: Seq<char>|
                m != name@ ==> dir_has(final(self).shared_dir@, m) == dir_has(
                    old(self).shared_dir@,
                    m,
                ),
    {
        remove_name(&mut self.profile_dir, name);
        remove_name(&mut self.shared_dir, name);
        proof {
            lemma_without_name_absent(old(self).profile_dir@, name@);
            lemma_without_name_absent(old(self).shared_dir@, name@);
            assert forall|m: Seq<char>| m != name@ implies dir_has(self.profile_dir@, m)
                == dir_has(old(self).profile_dir@, m) by {
                lemma_without_name_other(old(self).profile_dir@, name@, m);
            }
            assert forall|m: Seq<char>| m != name@ implies dir_has(self.shared_dir@, m) == dir_has(
                old(self).shared_dir@,
                m,
            ) by {
                lemma_without_name_other(old(self).shared_dir@, name@, m);
            }
        }
    }
}

/// Whether some element of `v` reads `name`.
fn has_name(v: &Vec<String>, name: &String) -> (r: bool)
    ensures
        r == dir_has(v@, name@),
{
    let mut i: usize = 0;
    while i < v.len()
        invariant
            i <= v@.len(),
            forall|j: int| 0 <= j < i ==> (#[trigger] v@[j])@ != name@,
        decreases v@.len() - i,
    {
        if v[i] == *name {
            return true;
        }
        i += 1;
    }
    false
}

} // verus!
