use vstd::prelude::*;
use crate::text::{str_eq, views_of};

verus! {

/// A table of values keyed by name, in which no name occurs twice.
///
/// Entries keep the position at which their name was first inserted.
pub struct NamedTable<T> {
    entries: Vec<(String, T)>,
}

impl<T> NamedTable<T> {
    /// The names in the table, in entry order.
    pub closed spec fn key_seq(&self) -> Seq<Seq<char>> {
        self.entries@.map_values(|e: (String, T)| e.0@)
    }

    /// Well-formedness: no name occurs twice.
    pub closed spec fn wf(&self) -> bool {
        forall|i: int, j: int|
            0 <= i < self.entries@.len() && 0 <= j < self.entries@.len() && i != j
                ==> #[trigger] self.entries@[i].0@ != #[trigger] self.entries@[j].0@
    }

    /// Whether the table holds an entry named `k`.
    pub closed spec fn has(&self, k: Seq<char>) -> bool {
        exists|i: int| 0 <= i < self.entries@.len() && #[trigger] self.entries@[i].0@ == k
    }

    closed spec fn index_of(&self, k: Seq<char>) -> int {
        choose|i: int| 0 <= i < self.entries@.len() && #[trigger] self.entries@[i].0@ == k
    }

    /// The table as a map from names to values.
    pub closed spec fn map(&self) -> Map<Seq<char>, T> {
        Map::new(|k: Seq<char>| self.has(k), |k: Seq<char>| self.entries@[self.index_of(k)].1)
    }

    proof fn lemma_index_of(&self, i: int)
        requires
            self.wf(),
            0 <= i < self.entries@.len(),
        ensures
            self.has(self.entries@[i].0@),
            self.index_of(self.entries@[i].0@) == i,
            self.map().dom().contains(self.entries@[i].0@),
            self.map()[self.entries@[i].0@] == self.entries@[i].1,
    {
        let k = self.entries@[i].0@;
        assert(self.has(k));
        let j = self.index_of(k);
        assert(self.entries@[j].0@ == k);
    }

    /// An empty table.
    pub fn new() -> (r: Self)
        ensures
            r.wf(),
            r.map() == Map::<Seq<char>, T>::empty(),
            r.key_seq() == Seq::<Seq<char>>::empty(),
    {
        let r = NamedTable { entries: Vec::new() };
        assert(r.map() =~= Map::<Seq<char>, T>::empty());
        assert(r.key_seq() =~= Seq::<Seq<char>>::empty());
        r
    }

    /// Number of entries.
    pub fn len(&self) -> (r: usize)
        requires
            self.wf(),
        ensures
            r == self.map().dom().len(),
            r == self.key_seq().len(),
    {
        proof { self.lemma_dom_len(); }
        self.entries.len()
    }

    proof fn lemma_dom_len(&self)
        requires
            self.wf(),
        ensures
            self.map().dom() == self.key_seq().to_set(),
            self.key_seq().no_duplicates(),
            self.map().dom().len() == self.entries@.len(),
            self.key_seq().len() == self.entries@.len(),
    {
        let ks = self.key_seq();
        assert forall|k: Seq<char>| self.map().dom().contains(k) <==> ks.to_set().contains(k) by {
            if self.has(k) {
                let i = self.index_of(k);
                assert(ks[i] == k);
            }
            if ks.to_set().contains(k) {
                let i = choose|i: int| 0 <= i < ks.len() && ks[i] == k;
                assert(self.entries@[i].0@ == k);
            }
        }
        assert(self.map().dom() =~= ks.to_set());
        assert(ks.no_duplicates()) by {
            assert forall|i: int, j: int| 0 <= i < ks.len() && 0 <= j < ks.len() && i != j
                implies ks[i] != ks[j] by {
                assert(ks[i] == self.entries@[i].0@);
                assert(ks[j] == self.entries@[j].0@);
            }
        }
        ks.unique_seq_to_set();
    }

    /// The values in the table, in entry order.
    pub closed spec fn val_seq(&self) -> Seq<T> {
        self.entries@.map_values(|e: (String, T)| e.1)
    }

    /// Entry order agrees with the map: the `i`-th name maps to the `i`-th value,
    /// and a name is in the map exactly when it is one of the entry names.
    pub proof fn lemma_entries(&self)
        requires
            self.wf(),
        ensures
            self.key_seq().len() == self.val_seq().len(),
            self.key_seq().no_duplicates(),
            self.map().dom() == self.key_seq().to_set(),
            forall|i: int| 0 <= i < self.key_seq().len() ==>
                #[trigger] self.map()[self.key_seq()[i]] == self.val_seq()[i],
    {
        self.lemma_dom_len();
        assert forall|i: int| 0 <= i < self.key_seq().len() implies
            #[trigger] self.map()[self.key_seq()[i]] == self.val_seq()[i] by {
            self.lemma_index_of(i);
        }
    }

    /// The names in the table, in entry order.
    pub fn names(&self) -> (r: Vec<String>)
        requires
            self.wf(),
        ensures
            views_of(r@) == self.key_seq(),
    {
        let mut r: Vec<String> = Vec::new();
        let mut i: usize = 0;
        while i < self.entries.len()
            invariant
                i <= self.entries@.len(),
                r@.len() == i,
                views_of(r@) == self.key_seq().take(i as int),
            decreases self.entries@.len() - i,
        {
            let s = self.entries[i].0.clone();
            let ghost old_r = r@;
            proof {
                assert(s@ == self.key_seq()[i as int]);
            }
            r.push(s);
            proof {
                assert(r@ == old_r.push(s));
                assert(views_of(r@) =~= self.key_seq().take(i + 1)) by {
                    assert forall|j: int| 0 <= j < i + 1 implies
                        #[trigger] views_of(r@)[j] == self.key_seq().take(i + 1)[j] by {
                        if j < i {
                            assert(r@[j] == old_r[j]);
                            assert(views_of(old_r)[j] == self.key_seq().take(i as int)[j]);
                        }
                    }
                }
            }
            i = i + 1;
        }
        proof {
            assert(self.key_seq().take(i as int) =~= self.key_seq());
        }
        r
    }

    /// The value of the `i`-th entry.
    pub fn value_at(&self, i: usize) -> (r: &T)
        requires
            i < self.val_seq().len(),
        ensures
            *r == self.val_seq()[i as int],
    {
        &self.entries[i].1
    }

    /// Position of the entry named `name`, if any.
    pub fn find(&self, name: &str) -> (r: Option<usize>)
        requires
            self.wf(),
        ensures
            match r {
                Some(i) => i < self.key_seq().len() && self.key_seq()[i as int] == name@,
                None => !self.has(name@),
            },
            r is Some <==> self.has(name@),
    {
        let mut i: usize = 0;
        while i < self.entries.len()
            invariant
                i <= self.entries@.len(),
                forall|j: int| 0 <= j < i ==> self.entries@[j].0@ != name@,
            decreases self.entries@.len() - i,
        {
            if str_eq(self.entries[i].0.as_str(), name) {
                return Some(i);
            }
            i = i + 1;
        }
        None
    }

    /// Whether an entry named `name` exists.
    pub fn contains(&self, name: &str) -> (r: bool)
        requires
            self.wf(),
        ensures
            r == self.map().dom().contains(name@),
    {
        self.find(name).is_some()
    }

    /// The value stored under `name`.
    pub fn get(&self, name: &str) -> (r: Option<&T>)
        requires
            self.wf(),
        ensures
            r == (if self.map().dom().contains(name@) { Some(&self.map()[name@]) } else { None }),
    {
        match self.find(name) {
            Some(i) => {
                proof { self.lemma_index_of(i as int); }
                Some(&self.entries[i].1)
            }
            None => None,
        }
    }

    /// Stores `value` under `name`, replacing any earlier value of that name.
    pub fn insert(&mut self, name: &str, value: T)
        requires
            old(self).wf(),
        ensures
            final(self).wf(),
            final(self).map() == old(self).map().insert(name@, value),
    {
        let ghost old_t = *self;
        match self.find(name) {
            Some(i) => {
                let ghost v = value;
                self.entries.set(i, (name.to_string(), value));
                proof {
                    assert(self.entries@ == old_t.entries@.update(i as int, (self.entries@[i as int].0, v)));
                    assert(self.wf());
                    assert forall|k: Seq<char>| #![trigger self.map().dom().contains(k)]
                        self.map().dom().contains(k) == old_t.map().insert(name@, v).dom().contains(k)
                        && (self.map().dom().contains(k) ==> self.map()[k] == old_t.map().insert(name@, v)[k]) by {
                        if self.has(k) {
                            let j = self.index_of(k);
                            self.lemma_index_of(j);
                            if j != i {
                                old_t.lemma_index_of(j);
                            }
                        }
                        if old_t.has(k) {
                            let j = old_t.index_of(k);
                            old_t.lemma_index_of(j);
                            if j != i {
                                self.lemma_index_of(j);
                            }
                        }
                        if k == name@ {
                            self.lemma_index_of(i as int);
                        }
                    }
                    assert(self.map() =~= old_t.map().insert(name@, v));
                }
            }
            None => {
                let ghost v = value;
                self.entries.push((name.to_string(), value));
                proof {
                    let n = old_t.entries@.len() as int;
                    assert(self.entries@ == old_t.entries@.push(self.entries@[n]));
                    assert(self.wf());
                    assert forall|k: Seq<char>| #![trigger self.map().dom().contains(k)]
                        self.map().dom().contains(k) == old_t.map().insert(name@, v).dom().contains(k)
                        && (self.map().dom().contains(k) ==> self.map()[k] == old_t.map().insert(name@, v)[k]) by {
                        if self.has(k) {
                            let j = self.index_of(k);
                            self.lemma_index_of(j);
                            if j != n {
                                old_t.lemma_index_of(j);
                            }
                        }
                        if old_t.has(k) {
                            let j = old_t.index_of(k);
                            old_t.lemma_index_of(j);
                            self.lemma_index_of(j);
                        }
                        if k == name@ {
                            self.lemma_index_of(n);
                        }
                    }
                    assert(self.map() =~= old_t.map().insert(name@, v));
                }
            }
        }
    }

    /// Removes the entry named `name`, if there is one.
    pub fn remove(&mut self, name: &str)
        requires
            old(self).wf(),
        ensures
            final(self).wf(),
            final(self).map() == old(self).map().remove(name@),
    {
        let ghost old_t = *self;
        match self.find(name) {
            Some(i) => {
                self.entries.remove(i);
                proof {
                    assert(self.entries@ == old_t.entries@.remove(i as int));
                    assert(self.wf()) by {
                        assert forall|a: int, b: int|
                            0 <= a < self.entries@.len() && 0 <= b < self.entries@.len() && a != b
                            implies self.entries@[a].0@ != self.entries@[b].0@ by {
                            let oa = if a < i { a } else { a + 1 };
                            let ob = if b < i { b } else { b + 1 };
                            assert(self.entries@[a] == old_t.entries@[oa]);
                            assert(self.entries@[b] == old_t.entries@[ob]);
                        }
                    }
                    assert forall|k: Seq<char>| #![trigger self.map().dom().contains(k)]
                        self.map().dom().contains(k) == old_t.map().remove(name@).dom().contains(k)
                        && (self.map().dom().contains(k) ==> self.map()[k] == old_t.map().remove(name@)[k]) by {
                        if self.has(k) {
                            let j = self.index_of(k);
                            self.lemma_index_of(j);
                            let oj = if j < i { j } else { j + 1 };
                            assert(self.entries@[j] == old_t.entries@[oj]);
                            old_t.lemma_index_of(oj);
                            old_t.lemma_index_of(i as int);
                        }
                        if old_t.has(k) && k != name@ {
                            let oj = old_t.index_of(k);
                            old_t.lemma_index_of(oj);
                            let j = if oj < i { oj } else { oj - 1 };
                            assert(self.entries@[j] == old_t.entries@[oj]);
                            self.lemma_index_of(j);
                        }
                    }
                    assert(self.map() =~= old_t.map().remove(name@));
                }
            }
            None => {
                proof {
                    assert(self.map() =~= old_t.map().remove(name@));
                }
            }
        }
    }
}

} // verus!
