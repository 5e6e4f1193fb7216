//! A small map keyed by text, kept as a vector of distinct keys in insertion
//! order, with a `Map` as its model.
use vstd::prelude::*;

use crate::text::text_eq;

verus! {

/// Values keyed by service id (or any other text).
pub struct Table<V> {
    entries: Vec<(String, V)>,
    model: Ghost<Map<Seq<char>, V>>,
}

impl<V> Table<V> {
    /// The model: each key's text mapped to its value.
    pub closed spec fn view(&self) -> Map<Seq<char>, V> {
        self.model@
    }

    /// The keys, in the order in which they were first inserted.
    pub closed spec fn key_order(&self) -> Seq<Seq<char>> {
        self.entries@.map_values(|e: (String, V)| e.0@)
    }

    /// Keys are distinct and the entries are exactly the model.
    pub closed spec fn wf(&self) -> bool {
        &&& forall|i: int, j: int|
            0 <= i < j < self.entries@.len() ==> (#[trigger] self.entries@[i]).0@ != (
            #[trigger] self.entries@[j]).0@
        &&& forall|i: int|
            0 <= i < self.entries@.len() ==> self.model@.contains_key(
                (#[trigger] self.entries@[i]).0@,
            ) && self.model@[self.entries@[i].0@] == self.entries@[i].1
        &&& forall|k: Seq<char>|
            #[trigger] self.model@.contains_key(k) ==> exists|i: int|
                0 <= i < self.entries@.len() && (#[trigger] self.entries@[i]).0@ == k
    }

    /// An empty table.
    pub fn new() -> (r: Self)
        ensures
            r.wf(),
            r@ == Map::<Seq<char>, V>::empty(),
            r.key_order() == Seq::<Seq<char>>::empty(),
    {
        let r = Table { entries: Vec::new(), model: Ghost(Map::empty()) };
        assert(r.key_order() =~= Seq::<Seq<char>>::empty());
        r
    }

    /// The number of keys.
    pub fn len(&self) -> (r: usize)
        requires
            self.wf(),
        ensures
            r == self.key_order().len(),
    {
        self.entries.len()
    }

    proof fn lemma_key_order(&self)
        requires
            self.wf(),
        ensures
            self.key_order().len() == self.entries@.len(),
            forall|i: int|
                0 <= i < self.entries@.len() ==> #[trigger] self.key_order()[i]
                    == self.entries@[i].0@,
            forall|k: Seq<char>| self@.contains_key(k) <==> self.key_order().contains(k),
    {
        assert forall|k: Seq<char>| self@.contains_key(k) <==> self.key_order().contains(k) by {
            if self@.contains_key(k) {
                let i = choose|i: int| 0 <= i < self.entries@.len() && self.entries@[i].0@ == k;
                assert(self.key_order()[i] == k);
            }
            if self.key_order().contains(k) {
                let i = choose|i: int| 0 <= i < self.key_order().len() && self.key_order()[i] == k;
                assert(self.entries@[i].0@ == k);
            }
        }
    }

    /// The position of `key` among the entries.
    fn position(&self, key: &str) -> (r: Option<usize>)
        requires
            self.wf(),
        ensures
            match r {
                Some(i) => i < self.entries@.len() && self.entries@[i as int].0@ == key@,
                None => !self@.contains_key(key@),
            },
    {
        let mut i: usize = 0;
        while i < self.entries.len()
            invariant
                self.wf(),
                i <= self.entries@.len(),
                forall|k: int| 0 <= k < i ==> (#[trigger] self.entries@[k]).0@ != key@,
            decreases self.entries.len() - i,
        {
            if text_eq(self.entries[i].0.as_str(), key) {
                return Some(i);
            }
            i = i + 1;
        }
        None
    }

    /// Whether `key` has a value.
    pub fn contains_key(&self, key: &str) -> (r: bool)
        requires
            self.wf(),
        ensures
            r == self@.contains_key(key@),
    {
        self.position(key).is_some()
    }

    /// The value of `key`, if any.
    pub fn get(&self, key: &str) -> (r: Option<&V>)
        requires
            self.wf(),
        ensures
            match r {
                Some(v) => self@.contains_key(key@) && *v == self@[key@],
                None => !self@.contains_key(key@),
            },
    {
        match self.position(key) {
            Some(i) => Some(&self.entries[i].1),
            None => None,
        }
    }

    /// Sets the value of `key`; a new key goes last.
    pub fn insert(&mut self, key: String, value: V)
        requires
            old(self).wf(),
        ensures
            final(self).wf(),
            final(self)@ == old(self)@.insert(key@, value),
            old(self)@.contains_key(key@) ==> final(self).key_order() == old(self).key_order(),
            !old(self)@.contains_key(key@) ==> final(self).key_order() == old(
                self,
            ).key_order().push(key@),
    {
        let ghost k = key@;
        let ghost v = value;
        match self.position(key.as_str()) {
            Some(i) => {
                self.entries.set(i, (key, value));
                self.model = Ghost(self.model@.insert(k, v));
                assert(self.key_order() =~= old(self).key_order());
                assert forall|q: Seq<char>| #[trigger] self.model@.contains_key(q) implies exists|
                    j: int,
                |
                    0 <= j < self.entries@.len() && (#[trigger] self.entries@[j]).0@ == q by {
                    if q == k {
                        assert(self.entries@[i as int].0@ == q);
                    } else {
                        assert(old(self).model@.contains_key(q));
                        let j = choose|j: int|
                            0 <= j < old(self).entries@.len() && old(self).entries@[j].0@ == q;
                        assert(self.entries@[j].0@ == q);
                    }
                }
            },
            None => {
                let ghost n = self.entries@.len() as int;
                self.entries.push((key, value));
                self.model = Ghost(self.model@.insert(k, v));
                assert(self.key_order() =~= old(self).key_order().push(k));
                assert forall|q: Seq<char>| #[trigger] self.model@.contains_key(q) implies exists|
                    j: int,
                |
                    0 <= j < self.entries@.len() && (#[trigger] self.entries@[j]).0@ == q by {
                    if q == k {
                        assert(self.entries@[n].0@ == q);
                    } else {
                        assert(old(self).model@.contains_key(q));
                        let j = choose|j: int|
                            0 <= j < old(self).entries@.len() && old(self).entries@[j].0@ == q;
                        assert(self.entries@[j].0@ == q);
                    }
                }
            },
        }
    }

    /// Removes `key` and returns its value; the other keys keep their order.
    pub fn remove(&mut self, key: &str) -> (r: Option<V>)
        requires
            old(self).wf(),
        ensures
            final(self).wf(),
            final(self)@ == old(self)@.remove(key@),
            match r {
                Some(v) => old(self)@.contains_key(key@) && v == old(self)@[key@],
                None => !old(self)@.contains_key(key@),
            },
    {
        match self.position(key) {
            Some(i) => {
                let ghost k = key@;
                let e = self.entries.remove(i);
                self.model = Ghost(self.model@.remove(k));
                assert forall|q: Seq<char>| #[trigger] self.model@.contains_key(q) implies exists|
                    j: int,
                |
                    0 <= j < self.entries@.len() && (#[trigger] self.entries@[j]).0@ == q by {
                    let j = choose|j: int|
                        0 <= j < old(self).entries@.len() && old(self).entries@[j].0@ == q;
                    if j < i {
                        assert(self.entries@[j].0@ == q);
                    } else {
                        assert(j != i);
                        assert(self.entries@[j - 1].0@ == q);
                    }
                }
                Some(e.1)
            },
            None => {
                assert(self.model@.remove(key@) =~= self.model@);
                None
            },
        }
    }

    /// The keys, in order.
    pub fn keys(&self) -> (r: Vec<String>)
        requires
            self.wf(),
        ensures
            r@.len() == self.key_order().len(),
            forall|i: int| 0 <= i < r@.len() ==> (#[trigger] r@[i])@ == self.key_order()[i],
    {
        proof {
            self.lemma_key_order();
        }
        let mut r: Vec<String> = Vec::new();
        let mut i: usize = 0;
        while i < self.entries.len()
            invariant
                self.wf(),
                self.key_order().len() == self.entries@.len(),
                forall|j: int|
                    0 <= j < self.entries@.len() ==> #[trigger] self.key_order()[j]
                        == self.entries@[j].0@,
                i <= self.entries@.len(),
                r@.len() == i,
                forall|j: int| 0 <= j < i ==> (#[trigger] r@[j])@ == self.key_order()[j],
            decreases self.entries.len() - i,
        {
            r.push(self.entries[i].0.clone());
            i = i + 1;
        }
        r
    }

    /// The keys of a well-formed table are distinct and are its model's keys.
    pub proof fn lemma_keys(&self)
        requires
            self.wf(),
        ensures
            self.key_order().no_duplicates(),
            forall|k: Seq<char>| self@.contains_key(k) <==> self.key_order().contains(k),
    {
        self.lemma_key_order();
    }
}

} // verus!
