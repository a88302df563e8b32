//! The shader module registry: at most one live GPU module handle per
//! logical shader name.

use vstd::prelude::*;

verus! {

/// The handle stored under `name` in `entries`, searching from the end.
pub open spec fn lookup(entries: Seq<(String, u64)>, name: Seq<char>) -> Option<u64>
    decreases entries.len(),
{
    if entries.len() == 0 {
        None
    } else if entries.last().0@ == name {
        Some(entries.last().1)
    } else {
        lookup(entries.drop_last(), name)
    }
}

/// No two entries share a name.
pub open spec fn names_unique(entries: Seq<(String, u64)>) -> bool {
    forall|i: int, j: int|
        0 <= i < entries.len() && 0 <= j < entries.len() && i != j ==> entries[i].0@
            != entries[j].0@
}

proof fn lemma_lookup_found(entries: Seq<(String, u64)>, j: int)
    requires
        names_unique(entries),
        0 <= j < entries.len(),
    ensures
        lookup(entries, entries[j].0@) == Some(entries[j].1),
    decreases entries.len(),
{
    if j != entries.len() - 1 {
        assert(entries[entries.len() - 1].0@ != entries[j].0@);
        assert(entries.drop_last()[j] == entries[j]);
        lemma_lookup_found(entries.drop_last(), j);
    }
}

proof fn lemma_lookup_absent(entries: Seq<(String, u64)>, name: Seq<char>)
    requires
        forall|i: int| 0 <= i < entries.len() ==> entries[i].0@ != name,
    ensures
        lookup(entries, name) is None,
    decreases entries.len(),
{
    if entries.len() > 0 {
        assert(entries.last() == entries[entries.len() - 1]);
        lemma_lookup_absent(entries.drop_last(), name);
    }
}

/// Maps each logical shader name to the GPU handle of its module.
#[derive(Debug)]
pub struct ShaderModuleRegistry {
    pub entries: Vec<(String, u64)>,
}

impl ShaderModuleRegistry {
    /// The registry's invariant: one entry per name.
    pub open spec fn wf(&self) -> bool {
        names_unique(self.entries@)
    }

    /// The handle registered under `name`, if any.
    pub open spec fn module_of(&self, name: Seq<char>) -> Option<u64> {
        lookup(self.entries@, name)
    }

    /// An empty registry.
    pub fn new() -> (r: ShaderModuleRegistry)
        ensures
            r.wf(),
            forall|n: Seq<char>| r.module_of(n) is None,
    {
        ShaderModuleRegistry { entries: Vec::new() }
    }

    /// The handle registered under `name`.
    pub fn get(&self, name: &String) -> (r: Option<u64>)
        requires
            self.wf(),
        ensures
            r == self.module_of(name@),
    {
        let mut i: usize = 0;
        while i < self.entries.len()
            invariant
                i <= self.entries.len(),
                names_unique(self.entries@),
                forall|k: int| 0 <= k < i ==> self.entries@[k].0@ != name@,
            decreases self.entries.len() - i,
        {
            if self.entries[i].0 == *name {
                proof {
                    lemma_lookup_found(self.entries@, i as int);
                }
                return Some(self.entries[i].1);
            }
            i += 1;
        }
        proof {
            lemma_lookup_absent(self.entries@, name@);
        }
        None
    }

    /// Registers `handle` under `name`, replacing the entry there. Returns the
    /// handle it replaces, which the caller destroys once no pipeline in use
    /// refers to it.
    pub fn insert(&mut self, name: String, handle: u64) -> (replaced: Option<u64>)
        requires
            old(self).wf(),
        ensures
            final(self).wf(),
            replaced == old(self).module_of(name@),
            final(self).module_of(name@) == Some(handle),
            forall|n: Seq<char>| n != name@ ==> final(self).module_of(n) == old(self).module_of(n),
    {
        let ghost before = self.entries@;
        let mut i: usize = 0;
        while i < self.entries.len()
            invariant
                i <= self.entries.len(),
                self.entries@ == before,
                before == old(self).entries@,
                names_unique(before),
                forall|k: int| 0 <= k < i ==> self.entries@[k].0@ != name@,
            decreases self.entries.len() - i,
        {
            if self.entries[i].0 == name {
                assert(before[i as int].0@ == name@);
                proof {
                    lemma_lookup_found(before, i as int);
                }
                let old_handle = self.entries[i].1;
                self.entries.set(i, (name, handle));
                proof {
                    let after = self.entries@;
                    assert(after[i as int].0@ == before[i as int].0@);
                    assert(names_unique(after)) by {
                        assert forall|a: int, b: int|
                            0 <= a < after.len() && 0 <= b < after.len() && a != b implies
                            after[a].0@ != after[b].0@ by {
                            if a != i && b != i {
                                assert(after[a] == before[a] && after[b] == before[b]);
                            } else if a == i {
                                assert(after[b] == before[b]);
                            } else {
                                assert(after[a] == before[a]);
                            }
                        }
                    }
                    lemma_lookup_found(after, i as int);
                    assert forall|n: Seq<char>| n != after[i as int].0@ implies lookup(after, n)
                        == lookup(before, n) by {
                        if exists|k: int| 0 <= k < after.len() && after[k].0@ == n {
                            let k = choose|k: int| 0 <= k < after.len() && after[k].0@ == n;
                            assert(k != i);
                            assert(after[k] == before[k]);
                            lemma_lookup_found(after, k);
                            lemma_lookup_found(before, k);
                        } else {
                            lemma_lookup_absent(after, n);
                            assert forall|k: int| 0 <= k < before.len() implies before[k].0@
                                != n by {
                                if k != i {
                                    assert(after[k] == before[k]);
                                }
                            }
                            lemma_lookup_absent(before, n);
                        }
                    }
                }
                return Some(old_handle);
            }
            i += 1;
        }
        proof {
            lemma_lookup_absent(before, name@);
        }
        self.entries.push((name, handle));
        proof {
            let after = self.entries@;
            assert(after.drop_last() =~= before);
            assert forall|a: int, b: int|
                0 <= a < after.len() && 0 <= b < after.len() && a != b implies after[a].0@
                != after[b].0@ by {
                if a < before.len() && b < before.len() {
                    assert(after[a] == before[a] && after[b] == before[b]);
                } else if a < before.len() {
                    assert(after[a] == before[a]);
                } else {
                    assert(after[b] == before[b]);
                }
            }
        }
        None
    }
}

} // verus!
