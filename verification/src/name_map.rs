//! A small map from names to values that keeps the order in which the names
//! were added.

use vstd::prelude::*;
use crate::text::str_eq;

verus! {

/// Names with one value each. No name occurs twice.
pub struct NameMap<V> {
    pub names: Vec<String>,
    pub values: Vec<V>,
}

impl<V> NameMap<V> {
    /// The names, in the order in which they were added.
    pub open spec fn keys(&self) -> Seq<Seq<char>> {
        self.names@.map_values(|s: String| s@)
    }

    /// Every name has its value, and no name occurs twice.
    pub open spec fn wf(&self) -> bool {
        &&& self.names@.len() == self.values@.len()
        &&& self.keys().no_duplicates()
    }

    pub open spec fn contains(&self, name: Seq<char>) -> bool {
        self.keys().contains(name)
    }

    /// The value that stands under `name`.
    pub open spec fn value_of(&self, name: Seq<char>) -> V
        recommends
            self.contains(name),
    {
        self.values@[self.keys().index_of(name)]
    }

    /// The names with their values as a map.
    pub open spec fn to_map(&self) -> Map<Seq<char>, V> {
        Map::new(|name: Seq<char>| self.contains(name), |name: Seq<char>| self.value_of(name))
    }

    /// A name stands at one place only, so the place where it is found is
    /// the place that `value_of` reads.
    pub proof fn lemma_place(&self, i: int)
        requires
            self.wf(),
            0 <= i < self.keys().len(),
        ensures
            self.contains(self.keys()[i]),
            self.keys().index_of(self.keys()[i]) == i,
            self.value_of(self.keys()[i]) == self.values@[i],
    {
        let name = self.keys()[i];
        let j = self.keys().index_of(name);
        assert(self.keys()[i] == name);
    }

    pub fn new() -> (m: NameMap<V>)
        ensures
            m.wf(),
            m.keys() == Seq::<Seq<char>>::empty(),
            m.to_map() == Map::<Seq<char>, V>::empty(),
    {
        let m = NameMap { names: Vec::new(), values: Vec::new() };
        assert(m.keys() =~= Seq::<Seq<char>>::empty());
        assert(m.to_map() =~= Map::<Seq<char>, V>::empty());
        m
    }

    pub fn len(&self) -> (n: usize)
        requires
            self.wf(),
        ensures
            n == self.keys().len(),
    {
        self.names.len()
    }

    /// The place of `name`, if it is there.
    pub fn find(&self, name: &str) -> (r: Option<usize>)
        requires
            self.wf(),
        ensures
            match r {
                Some(i) => i < self.keys().len() && self.keys()[i as int] == name@
                    && self.contains(name@) && self.value_of(name@) == self.values@[i as int],
                None => !self.contains(name@),
            },
    {
        let mut i: usize = 0;
        while i < self.names.len()
            invariant
                self.wf(),
                i <= self.names@.len(),
                forall|j: int| 0 <= j < i ==> self.keys()[j] != name@,
            decreases self.names@.len() - i,
        {
            if str_eq(self.names[i].as_str(), name) {
                proof {
                    self.lemma_place(i as int);
                }
                return Some(i);
            }
            i = i + 1;
        }
        None
    }

    pub fn name_at(&self, i: usize) -> (name: &String)
        requires
            self.wf(),
            i < self.keys().len(),
        ensures
            name@ == self.keys()[i as int],
    {
        &self.names[i]
    }

    pub fn value_at(&self, i: usize) -> (value: &V)
        requires
            self.wf(),
            i < self.keys().len(),
        ensures
            *value == self.values@[i as int],
    {
        &self.values[i]
    }

    /// Adds a name that is not there yet.
    pub fn add(&mut self, name: String, value: V)
        requires
            old(self).wf(),
            !old(self).contains(name@),
        ensures
            final(self).wf(),
            final(self).keys() == old(self).keys().push(name@),
            final(self).values@ == old(self).values@.push(value),
            final(self).to_map() == old(self).to_map().insert(name@, value),
            final(self).contains(name@),
            final(self).value_of(name@) == value,
            forall|k: Seq<char>|
                old(self).contains(k) ==> final(self).contains(k) && #[trigger] final(self).value_of(k) == old(self).value_of(k),
            forall|k: Seq<char>|
                #[trigger] final(self).contains(k) ==> k == name@ || old(self).contains(k),
    {
        let ghost before = *self;
        let ghost key = name@;
        self.names.push(name);
        self.values.push(value);
        proof {
            assert(self.keys() =~= before.keys().push(key));
            let n = before.keys().len() as int;
            assert forall|k: Seq<char>| #[trigger] self.contains(k) implies self.value_of(k) == (if k
                == key {
                value
            } else {
                before.value_of(k)
            }) by {
                let i = self.keys().index_of(k);
                self.lemma_place(i);
                if k != key {
                    assert(i < n);
                    before.lemma_place(i);
                } else {
                    self.lemma_place(n);
                }
            }
            assert forall|k: Seq<char>| self.contains(k) <==> (k == key || before.contains(k)) by {
                if before.contains(k) {
                    let i = before.keys().index_of(k);
                    assert(self.keys()[i] == k);
                }
                if k == key {
                    assert(self.keys()[n] == k);
                }
            }
            assert(self.to_map() =~= before.to_map().insert(key, value));
        }
    }
}

} // verus!
