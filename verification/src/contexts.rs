//! The set of button instances that currently show the action.

use vstd::prelude::*;

use crate::maps::{lists_each_once, same_text};
use crate::names::{lemma_listed_count, listed};

verus! {

/// A set of button contexts. Each context is held once, in the order in which
/// it was first registered.
#[derive(Debug)]
pub struct ContextSet {
    names: Vec<String>,
}

impl View for ContextSet {
    type V = Set<Seq<char>>;

    closed spec fn view(&self) -> Set<Seq<char>> {
        listed(self.names@, self.names@.len() as int)
    }
}

impl ContextSet {
    #[verifier::type_invariant]
    spec fn held_once(self) -> bool {
        forall|i: int, j: int|
            0 <= i < j < self.names@.len() ==> #[trigger] self.names@[i]@ != #[trigger] self.names@[j]@
    }

    /// An empty set.
    pub fn new() -> (set: ContextSet)
        ensures
            set@ == Set::<Seq<char>>::empty(),
    {
        let set = ContextSet { names: Vec::new() };
        assert(set@ =~= Set::<Seq<char>>::empty());
        set
    }

    /// Whether `context` is registered.
    pub fn contains(&self, context: &str) -> (found: bool)
        ensures
            found == self@.contains(context@),
    {
        self.position(context).is_some()
    }

    fn position(&self, context: &str) -> (at: Option<usize>)
        ensures
            at is Some == self@.contains(context@),
            at matches Some(i) ==> i < self.names@.len() && self.names@[i as int]@ == context@,
    {
        let mut i: usize = 0;
        while i < self.names.len()
            invariant
                i <= self.names.len(),
                !listed(self.names@, i as int).contains(context@),
            decreases self.names.len() - i,
        {
            if same_text(self.names[i].as_str(), context) {
                assert(self.names@[i as int]@ == context@);
                return Some(i);
            }
            assert forall|j: int| 0 <= j < i + 1 implies #[trigger] self.names@[j]@ != context@ by {
                if j < i {
                    if self.names@[j]@ == context@ {
                        assert(listed(self.names@, i as int).contains(context@));
                    }
                }
            }
            i += 1;
        }
        None
    }

    /// Moves the list out, leaving the set empty.
    fn take_names(&mut self) -> (names: Vec<String>)
        ensures
            names@ == old(self).names@,
    {
        let mut taken = ContextSet { names: Vec::new() };
        core::mem::swap(self, &mut taken);
        taken.names
    }

    /// Registers `context`; a context that is registered already stays as it is.
    pub fn insert(&mut self, context: &str)
        ensures
            final(self)@ == old(self)@.insert(context@),
    {
        proof {
            use_type_invariant(&*self);
        }
        if self.position(context).is_none() {
            let ghost before = self.names@;
            let mut names = self.take_names();
            names.push(context.to_owned());
            *self = ContextSet { names };
            proof {
                assert(self.names@.drop_last() =~= before);
                assert forall|i: int, j: int| 0 <= i < j < self.names@.len() implies #[trigger] self.names@[i]@
                    != #[trigger] self.names@[j]@ by {
                    if j == before.len() {
                        assert(self.names@[i] == before[i]);
                        if before[i]@ == context@ {
                            assert(listed(before, before.len() as int).contains(context@));
                        }
                    } else {
                        assert(self.names@[i] == before[i]);
                        assert(self.names@[j] == before[j]);
                    }
                }
                assert forall|k: Seq<char>| listed(self.names@, self.names@.len() as int).contains(k)
                    == listed(before, before.len() as int).insert(context@).contains(k) by {
                    if listed(self.names@, self.names@.len() as int).contains(k) {
                        let j = choose|j: int| 0 <= j < self.names@.len() && #[trigger] self.names@[j]@ == k;
                        if j < before.len() {
                            assert(before[j]@ == k);
                        }
                    }
                    if listed(before, before.len() as int).contains(k) {
                        let j = choose|j: int| 0 <= j < before.len() && #[trigger] before[j]@ == k;
                        assert(self.names@[j]@ == k);
                    }
                    if k == context@ {
                        assert(self.names@[before.len() as int]@ == k);
                    }
                }
                assert(self@ =~= old(self)@.insert(context@));
            }
        } else {
            assert(self@ =~= old(self)@.insert(context@));
        }
    }

    /// Removes `context`; nothing changes where it is not registered.
    pub fn remove(&mut self, context: &str)
        ensures
            final(self)@ == old(self)@.remove(context@),
            !old(self)@.contains(context@) ==> final(self)@ == old(self)@,
    {
        proof {
            use_type_invariant(&*self);
        }
        match self.position(context) {
            Some(at) => {
                let ghost before = self.names@;
                let mut names = self.take_names();
                names.remove(at);
                *self = ContextSet { names };
                proof {
                    assert(self.names@ =~= before.remove(at as int));
                    assert forall|i: int, j: int| 0 <= i < j < self.names@.len() implies #[trigger] self.names@[i]@
                        != #[trigger] self.names@[j]@ by {
                        let bi = if i < at { i } else { i + 1 };
                        let bj = if j < at { j } else { j + 1 };
                        assert(self.names@[i] == before[bi]);
                        assert(self.names@[j] == before[bj]);
                    }
                    assert forall|k: Seq<char>| listed(self.names@, self.names@.len() as int).contains(k)
                        == listed(before, before.len() as int).remove(context@).contains(k) by {
                        if listed(self.names@, self.names@.len() as int).contains(k) {
                            let j = choose|j: int| 0 <= j < self.names@.len() && #[trigger] self.names@[j]@ == k;
                            let bj = if j < at { j } else { j + 1 };
                            assert(self.names@[j] == before[bj]);
                            assert(before[bj]@ == k);
                            if k == context@ {
                                if bj < at {
                                    assert(before[bj]@ != before[at as int]@);
                                } else {
                                    assert(before[at as int]@ != before[bj]@);
                                }
                            }
                        }
                        if listed(before, before.len() as int).contains(k) && k != context@ {
                            let j = choose|j: int| 0 <= j < before.len() && #[trigger] before[j]@ == k;
                            let nj = if j < at { j } else { j - 1 };
                            assert(self.names@[nj] == before[j]);
                            assert(self.names@[nj]@ == k);
                        }
                    }
                    assert(self@ =~= old(self)@.remove(context@));
                }
            },
            None => {
                assert(self@ =~= old(self)@.remove(context@));
            },
        }
    }

    /// The registered contexts, each once.
    pub fn names(&self) -> (names: &Vec<String>)
        ensures
            lists_each_once(names@, self@),
    {
        proof {
            use_type_invariant(self);
            assert forall|k: Seq<char>| #[trigger] self@.contains(k) implies exists|i: int|
                0 <= i < self.names@.len() && #[trigger] self.names@[i]@ == k by {
                let j = choose|j: int| 0 <= j < self.names@.len() && #[trigger] self.names@[j]@ == k;
                assert(self.names@[j]@ == k);
            }
        }
        &self.names
    }

    /// The number of registered contexts.
    pub fn len(&self) -> (n: usize)
        ensures
            n == self@.len(),
            self@.finite(),
    {
        proof {
            use_type_invariant(self);
            lemma_listed_count(self.names@, self.names@.len() as int);
        }
        self.names.len()
    }
}

} // verus!
