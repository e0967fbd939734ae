//! The mappings that a device handle knows to be active.

use crate::text::same_text;
use vstd::prelude::*;

verus! {

/// One active mapping: its name, and whether its I/O is frozen.
#[derive(Debug)]
struct Mapping {
    name: String,
    suspended: bool,
}

/// The active mappings of a handle, by name. No name is held twice.
#[derive(Debug)]
pub struct MappingTable {
    entries: Vec<Mapping>,
}

impl View for MappingTable {
    type V = Map<Seq<char>, bool>;

    /// Each active name, with whether the mapping is suspended.
    closed spec fn view(&self) -> Map<Seq<char>, bool> {
        Map::new(
            |name: Seq<char>| self.holds(name),
            |name: Seq<char>| self.entries@[self.place(name)].suspended,
        )
    }
}

impl MappingTable {
    #[verifier::type_invariant]
    spec fn names_differ(&self) -> bool {
        forall|i: int, j: int|
            0 <= i < j < self.entries@.len() ==> self.entries@[i].name@ != self.entries@[j].name@
    }

    spec fn holds(&self, name: Seq<char>) -> bool {
        exists|i: int| 0 <= i < self.entries@.len() && self.entries@[i].name@ == name
    }

    spec fn place(&self, name: Seq<char>) -> int {
        choose|i: int| 0 <= i < self.entries@.len() && self.entries@[i].name@ == name
    }

    /// A table without mappings.
    pub fn new() -> (table: MappingTable)
        ensures
            table@ == Map::<Seq<char>, bool>::empty(),
    {
        let table = MappingTable { entries: Vec::new() };
        assert(table@ =~= Map::<Seq<char>, bool>::empty());
        table
    }

    fn position(&self, name: &str) -> (at: Option<usize>)
        ensures
            at is Some <==> self.holds(name@),
            at matches Some(i) ==> i < self.entries@.len() && self.entries@[i as int].name@ == name@
                && self.place(name@) == i,
    {
        proof {
            use_type_invariant(self);
        }
        let n: usize = self.entries.len();
        let mut i: usize = 0;
        while i < n
            invariant
                i <= n,
                n == self.entries@.len(),
                self.names_differ(),
                forall|j: int| 0 <= j < i ==> self.entries@[j].name@ != name@,
            decreases n - i,
        {
            if same_text(self.entries[i].name.as_str(), name) {
                return Some(i);
            }
            i += 1;
        }
        None
    }

    /// Whether `name` is active, and if so whether it is suspended.
    pub fn lookup(&self, name: &str) -> (found: Option<bool>)
        ensures
            found == (if self@.contains_key(name@) {
                Some(self@[name@])
            } else {
                None
            }),
    {
        match self.position(name) {
            Some(i) => Some(self.entries[i].suspended),
            None => None,
        }
    }

    /// Records `name` as active, suspended or not. What was known of `name`
    /// before is replaced.
    pub fn insert(&mut self, name: &str, suspended: bool)
        ensures
            final(self)@ == old(self)@.insert(name@, suspended),
    {
        proof {
            use_type_invariant(&*self);
        }
        match self.position(name) {
            Some(i) => {
                // The entries leave the table while they change, so that the
                // table never holds a list that is half built.
                let mut entries: Vec<Mapping> = Vec::new();
                core::mem::swap(&mut entries, &mut self.entries);
                entries[i].suspended = suspended;
                core::mem::swap(&mut entries, &mut self.entries);
                assert(forall|n: Seq<char>| self.holds(n) <==> old(self).holds(n)) by {
                    assert forall|n: Seq<char>| self.holds(n) <==> old(self).holds(n) by {
                        if self.holds(n) {
                            let k = self.place(n);
                            assert(old(self).entries@[k].name@ == n);
                        }
                        if old(self).holds(n) {
                            let k = old(self).place(n);
                            assert(self.entries@[k].name@ == n);
                        }
                    }
                }
                assert(self@ =~= old(self)@.insert(name@, suspended)) by {
                    assert forall|n: Seq<char>| self@.contains_key(n) implies self@[n] == old(
                        self,
                    )@.insert(name@, suspended)[n] by {
                        let k = self.place(n);
                        assert(old(self).entries@[k].name@ == n);
                        assert(old(self).place(n) == k);
                    }
                }
            },
            None => {
                let mut entries: Vec<Mapping> = Vec::new();
                core::mem::swap(&mut entries, &mut self.entries);
                entries.push(Mapping { name: name.to_owned(), suspended });
                core::mem::swap(&mut entries, &mut self.entries);
                let ghost last = old(self).entries@.len() as int;
                assert(self.entries@[last].name@ == name@);
                assert(forall|n: Seq<char>| self.holds(n) <==> (old(self).holds(n) || n == name@))
                    by {
                    assert forall|n: Seq<char>| self.holds(n) <==> (old(self).holds(n) || n
                        == name@) by {
                        if self.holds(n) {
                            let k = self.place(n);
                            if k < last {
                                assert(old(self).entries@[k].name@ == n);
                            }
                        }
                        if old(self).holds(n) {
                            let k = old(self).place(n);
                            assert(self.entries@[k].name@ == n);
                        }
                    }
                }
                assert(self@ =~= old(self)@.insert(name@, suspended)) by {
                    assert forall|n: Seq<char>| self@.contains_key(n) implies self@[n] == old(
                        self,
                    )@.insert(name@, suspended)[n] by {
                        let k = self.place(n);
                        if n != name@ {
                            assert(old(self).entries@[k].name@ == n);
                            assert(old(self).place(n) == k);
                        }
                    }
                }
            },
        }
    }

    /// Forgets `name`. A name that is not active leaves the table as it is.
    pub fn remove(&mut self, name: &str)
        ensures
            final(self)@ == old(self)@.remove(name@),
    {
        proof {
            use_type_invariant(&*self);
        }
        match self.position(name) {
            Some(i) => {
                let mut entries: Vec<Mapping> = Vec::new();
                core::mem::swap(&mut entries, &mut self.entries);
                entries.remove(i);
                core::mem::swap(&mut entries, &mut self.entries);
                assert(forall|n: Seq<char>| self.holds(n) <==> (old(self).holds(n) && n != name@))
                    by {
                    assert forall|n: Seq<char>| self.holds(n) <==> (old(self).holds(n) && n
                        != name@) by {
                        if self.holds(n) {
                            let k = self.place(n);
                            if k < i {
                                assert(old(self).entries@[k].name@ == n);
                            } else {
                                assert(old(self).entries@[k + 1].name@ == n);
                            }
                        }
                        if old(self).holds(n) && n != name@ {
                            let k = old(self).place(n);
                            if k < i {
                                assert(self.entries@[k].name@ == n);
                            } else {
                                assert(self.entries@[k - 1].name@ == n);
                            }
                        }
                    }
                }
                assert(self@ =~= old(self)@.remove(name@)) by {
                    assert forall|n: Seq<char>| self@.contains_key(n) implies self@[n] == old(
                        self,
                    )@[n] by {
                        let k = self.place(n);
                        if k < i {
                            assert(old(self).entries@[k].name@ == n);
                            assert(old(self).place(n) == k);
                        } else {
                            assert(old(self).entries@[k + 1].name@ == n);
                            assert(old(self).place(n) == k + 1);
                        }
                    }
                }
            },
            None => {
                assert(self@ =~= old(self)@.remove(name@));
            },
        }
    }

    /// How many mappings are active.
    pub fn len(&self) -> (count: usize)
        ensures
            count == self@.len(),
            self@.dom().finite(),
    {
        proof {
            use_type_invariant(self);
            self.counted();
        }
        self.entries.len()
    }

    proof fn counted(&self)
        requires
            self.names_differ(),
        ensures
            self@.dom().finite(),
            self@.len() == self.entries@.len(),
    {
        let names = self.entries@.map_values(|m: Mapping| m.name@);
        assert(names.no_duplicates());
        names.unique_seq_to_set();
        assert(names.to_set() =~= self@.dom()) by {
            assert forall|n: Seq<char>| names.to_set().contains(n) <==> self@.dom().contains(
                n,
            ) by {
                if names.to_set().contains(n) {
                    let k = choose|k: int| 0 <= k < names.len() && names[k] == n;
                    assert(self.entries@[k].name@ == n);
                }
                if self@.dom().contains(n) {
                    let k = self.place(n);
                    assert(names[k] == n);
                }
            }
        }
    }
}

} // verus!
