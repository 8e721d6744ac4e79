//! The failures of each backend that were counted of late.
use crate::basic::text::str_eq;
use vstd::prelude::*;
use vstd::string::*;

verus! {

/// The failures that were counted for one backend, and the second at which
/// the count runs out.
pub struct Window {
    pub times: nat,
    pub expire: int,
}

struct ServerErr {
    name: String,
    times: u16,
    expire: i64,
}

/// For each backend that has failed, how often it did and until when that
/// counts. Nothing is kept across a restart.
pub struct ServerErrors {
    entries: Vec<ServerErr>,
}

impl ServerErrors {
    spec fn holds(&self, name: Seq<char>, i: int) -> bool {
        0 <= i < self.entries.len() && self.entries[i].name@ == name
    }

    /// The count of each backend by its name.
    pub closed spec fn view(&self) -> Map<Seq<char>, Window> {
        Map::new(
            |name: Seq<char>| exists|i: int| self.holds(name, i),
            |name: Seq<char>|
                {
                    let i = choose|i: int| self.holds(name, i);
                    Window {
                        times: self.entries[i].times as nat,
                        expire: self.entries[i].expire as int,
                    }
                },
        )
    }

    /// No backend is counted twice.
    pub closed spec fn wf(&self) -> bool {
        self.distinct()
    }

    spec fn distinct(&self) -> bool {
        forall|i: int, j: int|
            0 <= i < self.entries.len() && 0 <= j < self.entries.len() && i != j
                ==> self.entries[i].name@ != self.entries[j].name@
    }

    /// No backend has failed yet.
    pub fn new() -> (errors: ServerErrors)
        ensures
            errors.wf(),
            errors@ == Map::<Seq<char>, Window>::empty(),
    {
        let errors = ServerErrors { entries: Vec::new() };
        assert(errors@ =~= Map::<Seq<char>, Window>::empty());
        errors
    }

    fn find(&self, name: &str) -> (at: Option<usize>)
        ensures
            at matches Some(i) ==> self.holds(name@, i as int),
            at is None ==> forall|i: int| !self.holds(name@, i),
    {
        let mut i: usize = 0;
        while i < self.entries.len()
            invariant
                i <= self.entries.len(),
                forall|j: int| 0 <= j < i ==> !self.holds(name@, j),
            decreases self.entries.len() - i,
        {
            if str_eq(self.entries[i].name.as_str(), name) {
                return Some(i);
            }
            i += 1;
        }
        None
    }

    /// The count of the backend `name`, where it has one.
    pub fn get(&self, name: &str) -> (count: Option<(u16, i64)>)
        requires
            self.wf(),
        ensures
            count is Some <==> self@.contains_key(name@),
            count matches Some((times, expire)) ==> self@[name@] == (Window {
                times: times as nat,
                expire: expire as int,
            }),
    {
        match self.find(name) {
            Some(i) => {
                proof {
                    self.lemma_view_at(name@, i as int);
                }
                let entry = &self.entries[i];
                Some((entry.times, entry.expire))
            },
            None => None,
        }
    }

    proof fn lemma_view_at(&self, name: Seq<char>, i: int)
        requires
            self.distinct(),
            self.holds(name, i),
        ensures
            self@.contains_key(name),
            self@[name] == (Window {
                times: self.entries[i].times as nat,
                expire: self.entries[i].expire as int,
            }),
    {
        let j = choose|j: int| self.holds(name, j);
        assert(j == i);
    }

    /// Sets the count of the backend `name`, whatever it was.
    pub fn insert(&mut self, name: &str, times: u16, expire: i64)
        requires
            old(self).wf(),
        ensures
            final(self).wf(),
            final(self)@ == old(self)@.insert(
                name@,
                Window { times: times as nat, expire: expire as int },
            ),
    {
        let ghost before = *self;
        let ghost window = Window { times: times as nat, expire: expire as int };
        let entry = ServerErr { name: String::from_str(name), times, expire };
        match self.find(name) {
            Some(i) => {
                self.entries.set(i, entry);
                assert forall|n: Seq<char>, j: int| self.holds(n, j) == before.holds(n, j) by {
                    if 0 <= j < self.entries.len() && j != i {
                        assert(self.entries[j] == before.entries[j]);
                    }
                }
                assert(self.holds(name@, i as int));
            },
            None => {
                self.entries.push(entry);
                assert forall|n: Seq<char>, j: int|
                    self.holds(n, j) == (before.holds(n, j) || (j == before.entries.len() && n
                        == name@)) by {
                    if 0 <= j < before.entries.len() {
                        assert(self.entries[j] == before.entries[j]);
                    }
                }
                assert(self.holds(name@, before.entries.len() as int));
            },
        }
        proof {
            assert(self.distinct()) by {
                assert forall|i: int, j: int|
                    0 <= i < self.entries.len() && 0 <= j < self.entries.len() && i != j implies self.entries[i].name@
                    != self.entries[j].name@ by {
                    let n = self.entries[i].name@;
                    if n == self.entries[j].name@ {
                        assert(self.holds(n, i));
                        assert(self.holds(n, j));
                        if i < before.entries.len() && j < before.entries.len() {
                            assert(before.holds(n, i));
                            assert(before.holds(n, j));
                        } else if i < before.entries.len() {
                            assert(before.holds(name@, i));
                        } else {
                            assert(before.holds(name@, j));
                        }
                    }
                }
            }
            let target = before@.insert(name@, window);
            assert forall|n: Seq<char>| #[trigger] self@.contains_key(n) implies target.contains_key(n)
                && self@[n] == target[n] by {
                let j = choose|j: int| self.holds(n, j);
                self.lemma_view_at(n, j);
                if n != name@ {
                    assert(before.holds(n, j));
                    before.lemma_view_at(n, j);
                    assert(self.entries[j] == before.entries[j]);
                } else {
                    let k = choose|k: int| self.holds(name@, k);
                    self.lemma_view_at(name@, k);
                }
            }
            assert forall|n: Seq<char>| #[trigger] target.contains_key(n) implies self@.contains_key(n) by {
                if n != name@ {
                    let j = choose|j: int| before.holds(n, j);
                    assert(self.holds(n, j));
                }
            }
            assert(self@ =~= target);
        }
    }
}

} // verus!
