//! The executable index: the set of program names the launcher knows about.
//!
//! Built once at startup from whatever scan the host performs, then
//! read-only. Held as a vector of names with a no-duplicates invariant, so
//! it behaves as a set; the ranker treats its order as meaningless.
use vstd::prelude::*;

verus! {

/// A set of executable names, stored without duplicates.
///
/// Invariant (`wf`): no two stored names have the same character sequence.
pub struct ExecutableIndex {
    pub names: Vec<String>,
}

impl ExecutableIndex {
    /// The character sequence of the name stored at position `j`.
    pub open spec fn name_at(self, j: int) -> Seq<char> {
        self.names@[j]@
    }

    /// How many distinct names the index holds.
    pub open spec fn len(self) -> nat {
        self.names@.len()
    }

    /// The index holds a name with character sequence `s`.
    pub open spec fn contains_name(self, s: Seq<char>) -> bool {
        exists|j: int| 0 <= j < self.len() && self.name_at(j) == s
    }

    /// No two stored names are equal: the vector denotes a set.
    pub open spec fn wf(self) -> bool {
        forall|j1: int, j2: int|
            0 <= j1 < j2 < self.len() ==> self.name_at(j1) != self.name_at(j2)
    }

    /// A fresh, empty index.
    pub fn new() -> (r: ExecutableIndex)
        ensures
            r.wf(),
            r.len() == 0,
    {
        ExecutableIndex { names: Vec::new() }
    }

    /// Whether a name with the same characters as `name` is already stored.
    pub fn contains(&self, name: &String) -> (r: bool)
        ensures
            r == self.contains_name(name@),
    {
        let mut j: usize = 0;
        while j < self.names.len()
            invariant
                j <= self.names@.len(),
                forall|k: int| 0 <= k < j ==> self.name_at(k) != name@,
            decreases self.names@.len() - j,
        {
            if self.names[j] == *name {
                assert(self.name_at(j as int) == name@);
                return true;
            }
            j = j + 1;
        }
        false
    }

    /// Record `name`, unless an equal name is already present. Keeps the
    /// no-duplicates invariant; afterwards the index contains exactly the
    /// old names plus `name`.
    pub fn insert(&mut self, name: String)
        requires
            old(self).wf(),
        ensures
            final(self).wf(),
            forall|s: Seq<char>|
                #[trigger] final(self).contains_name(s) <==> (old(self).contains_name(s) || s
                    == name@),
    {
        if !self.contains(&name) {
            let ghost n: int = self.names@.len() as int;
            self.names.push(name);
            proof {
                assert forall|s: Seq<char>|
                    #[trigger] self.contains_name(s) <==> (old(self).contains_name(s) || s
                        == name@) by {
                    if self.contains_name(s) {
                        let j = choose|j: int| 0 <= j < self.len() && self.name_at(j) == s;
                        if j < n {
                            assert(old(self).name_at(j) == s);
                        } else {
                            assert(s == name@);
                        }
                    }
                    if old(self).contains_name(s) {
                        let j = choose|j: int|
                            0 <= j < old(self).len() && old(self).name_at(j) == s;
                        assert(self.name_at(j) == s);
                    }
                    if s == name@ {
                        assert(self.name_at(n) == s);
                    }
                }
                assert forall|j1: int, j2: int|
                    0 <= j1 < j2 < self.len() implies self.name_at(j1) != self.name_at(j2) by {
                    if j2 < n {
                        assert(old(self).name_at(j1) != old(self).name_at(j2));
                    } else {
                        assert(self.name_at(j2) == name@);
                        assert(old(self).name_at(j1) == self.name_at(j1));
                        assert(!old(self).contains_name(name@));
                    }
                }
            }
        }
    }

    /// Build an index from an arbitrary list of names, dropping duplicates.
    pub fn from_names(names: Vec<String>) -> (r: ExecutableIndex)
        ensures
            r.wf(),
            forall|s: Seq<char>|
                #[trigger] r.contains_name(s) <==> (exists|j: int|
                    0 <= j < names@.len() && names@[j]@ == s),
    {
        let mut r = ExecutableIndex::new();
        let mut i: usize = 0;
        while i < names.len()
            invariant
                i <= names@.len(),
                r.wf(),
                forall|s: Seq<char>|
                    #[trigger] r.contains_name(s) <==> (exists|j: int|
                        0 <= j < i && names@[j]@ == s),
            decreases names@.len() - i,
        {
            let name = names[i].clone();
            assert(name@ == names@[i as int]@);
            r.insert(name);
            i = i + 1;
        }
        r
    }
}

} // verus!
