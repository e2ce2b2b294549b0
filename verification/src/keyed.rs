//! A collection of values under text keys.

use vstd::prelude::*;

verus! {

/// Values under distinct text keys.
pub struct Keyed<V> {
    items: Vec<(String, V)>,
}

impl<V> View for Keyed<V> {
    type V = Map<Seq<char>, V>;

    closed spec fn view(&self) -> Map<Seq<char>, V> {
        Map::new(
            |key: Seq<char>| self.keys().contains(key),
            |key: Seq<char>| self.items@[self.keys().index_of(key)].1,
        )
    }
}

impl<V> Keyed<V> {
    /// The keys, in the order in which they are kept.
    pub closed spec fn keys(&self) -> Seq<Seq<char>> {
        self.items@.map_values(|item: (String, V)| item.0@)
    }

    /// No key occurs twice.
    pub closed spec fn wf(&self) -> bool {
        self.keys().no_duplicates()
    }

    /// Every key is kept once, and the value found at its place is the one it maps to.
    pub proof fn keys_are_domain(&self)
        requires
            self.wf(),
        ensures
            self@.dom() == self.keys().to_set(),
            self@.dom().finite(),
            self@.len() == self.keys().len(),
            self.keys().no_duplicates(),
    {
        self.keys().unique_seq_to_set();
        assert(self@.dom() =~= self.keys().to_set());
    }

    proof fn value_at_index(&self, i: int)
        requires
            self.wf(),
            0 <= i < self.items@.len(),
        ensures
            self@.contains_key(self.items@[i].0@),
            self@[self.items@[i].0@] == self.items@[i].1,
    {
        let keys = self.keys();
        assert(keys[i] == self.items@[i].0@);
        assert(keys.contains(keys[i]));
        let j = keys.index_of(keys[i]);
        assert(keys[j] == keys[i]);
        assert(i == j);
    }

    /// Makes an empty collection.
    pub fn new() -> (keyed: Self)
        ensures
            keyed.wf(),
            keyed@ == Map::<Seq<char>, V>::empty(),
    {
        let keyed: Keyed<V> = Keyed { items: Vec::new() };
        assert(keyed@ =~= Map::<Seq<char>, V>::empty());
        keyed
    }

    /// The number of keys.
    pub fn len(&self) -> (len: usize)
        requires
            self.wf(),
        ensures
            len == self@.len(),
            len == self.keys().len(),
    {
        proof {
            self.keys_are_domain();
        }
        self.items.len()
    }

    /// The key at place `i`, with its value.
    pub fn entry(&self, i: usize) -> (entry: (&String, &V))
        requires
            self.wf(),
            i < self.keys().len(),
        ensures
            entry.0@ == self.keys()[i as int],
            self@.contains_key(entry.0@),
            *entry.1 == self@[entry.0@],
    {
        proof {
            self.value_at_index(i as int);
        }
        let item: &(String, V) = &self.items[i];
        (&item.0, &item.1)
    }

    fn position(&self, key: &str) -> (place: Option<usize>)
        requires
            self.wf(),
        ensures
            match place {
                Some(i) => i < self.items@.len() && self.items@[i as int].0@ == key@,
                None => !self@.contains_key(key@),
            },
    {
        let wanted: String = key.to_owned();
        let mut i: usize = 0;
        while i < self.items.len()
            invariant
                i <= self.items@.len(),
                wanted@ == key@,
                forall|j: int| 0 <= j < i ==> (#[trigger] self.items@[j]).0@ != key@,
            decreases self.items@.len() - i,
        {
            if self.items[i].0 == wanted {
                return Some(i);
            }
            i = i + 1;
        }
        proof {
            if self.keys().contains(key@) {
                let j = self.keys().index_of(key@);
                assert(self.keys()[j] == key@);
                assert(self.items@[j].0@ == key@);
            }
        }
        None
    }

    /// The value under `key`.
    pub fn get(&self, key: &str) -> (value: Option<&V>)
        requires
            self.wf(),
        ensures
            match value {
                Some(v) => self@.contains_key(key@) && *v == self@[key@],
                None => !self@.contains_key(key@),
            },
    {
        match self.position(key) {
            Some(i) => {
                proof {
                    self.value_at_index(i as int);
                }
                Some(&self.items[i].1)
            },
            None => None,
        }
    }

    /// Whether `key` is present.
    pub fn contains_key(&self, key: &str) -> (present: bool)
        requires
            self.wf(),
        ensures
            present == self@.contains_key(key@),
    {
        match self.position(key) {
            Some(i) => {
                proof {
                    self.value_at_index(i as int);
                }
                true
            },
            None => false,
        }
    }

    /// Takes `key` out, and hands its value back.
    pub fn remove(&mut self, key: &str) -> (value: Option<V>)
        requires
            old(self).wf(),
        ensures
            final(self).wf(),
            final(self)@ == old(self)@.remove(key@),
            match value {
                Some(v) => old(self)@.contains_key(key@) && v == old(self)@[key@],
                None => !old(self)@.contains_key(key@),
            },
    {
        match self.position(key) {
            Some(i) => {
                proof {
                    self.value_at_index(i as int);
                }
                let item: (String, V) = self.items.remove(i);
                proof {
                    let before = old(self).keys();
                    let after = self.keys();
                    assert(after =~= before.remove(i as int));
                    assert(before[i as int] == key@);
                    assert(self.wf());
                    assert forall|k: Seq<char>| #[trigger]
                        self@.contains_key(k) <==> old(self)@.remove(key@).contains_key(k) by {
                        if self@.contains_key(k) {
                            let j = after.index_of(k);
                            assert(after[j] == k);
                            assert(before[if j < i { j } else { j + 1 }] == k);
                        }
                        if old(self)@.remove(key@).contains_key(k) {
                            let j = before.index_of(k);
                            assert(before[j] == k);
                            assert(after[if j < i { j } else { j - 1 }] == k);
                        }
                    }
                    assert forall|k: Seq<char>| #[trigger] self@.contains_key(k) implies self@[k]
                        == old(self)@[k] by {
                        let j = after.index_of(k);
                        assert(after[j] == k);
                        let at = if j < i {
                            j
                        } else {
                            j + 1
                        };
                        assert(self.items@[j] == old(self).items@[at]);
                        self.value_at_index(j);
                        old(self).value_at_index(at);
                    }
                    assert(self@ =~= old(self)@.remove(key@));
                }
                Some(item.1)
            },
            None => {
                assert(self@ =~= old(self)@.remove(key@));
                None
            },
        }
    }

    /// Takes out the key that was put in last, with its value.
    pub fn pop(&mut self) -> (item: Option<(String, V)>)
        requires
            old(self).wf(),
        ensures
            final(self).wf(),
            match item {
                Some((key, value)) => {
                    &&& old(self)@.contains_key(key@)
                    &&& value == old(self)@[key@]
                    &&& final(self)@ == old(self)@.remove(key@)
                    &&& final(self)@.len() + 1 == old(self)@.len()
                },
                None => old(self)@ == Map::<Seq<char>, V>::empty() && final(self)@ == old(self)@,
            },
    {
        proof {
            self.keys_are_domain();
        }
        match self.items.pop() {
            Some((key, value)) => {
                proof {
                    let before = old(self).keys();
                    let after = self.keys();
                    let last = before.len() - 1;
                    assert(after =~= before.drop_last());
                    old(self).value_at_index(last);
                    assert forall|k: Seq<char>| #[trigger]
                        self@.contains_key(k) <==> old(self)@.remove(key@).contains_key(k) by {
                        if self@.contains_key(k) {
                            let j = after.index_of(k);
                            assert(after[j] == k);
                            assert(before[j] == k);
                            assert(before[last] == key@);
                        }
                        if old(self)@.remove(key@).contains_key(k) {
                            let j = before.index_of(k);
                            assert(before[j] == k);
                            assert(after[j] == k);
                        }
                    }
                    assert forall|k: Seq<char>| #[trigger] self@.contains_key(k) implies self@[k]
                        == old(self)@[k] by {
                        let j = after.index_of(k);
                        assert(after[j] == k);
                        self.value_at_index(j);
                        old(self).value_at_index(j);
                    }
                    assert(self@ =~= old(self)@.remove(key@));
                    assert(self@.dom() =~= old(self)@.dom().remove(key@));
                }
                Some((key, value))
            },
            None => {
                assert(self@ =~= Map::<Seq<char>, V>::empty());
                None
            },
        }
    }

    /// Puts `value` under `key`, where nothing stands yet.
    pub fn push(&mut self, key: String, value: V)
        requires
            old(self).wf(),
            !old(self)@.contains_key(key@),
        ensures
            final(self).wf(),
            final(self)@ == old(self)@.insert(key@, value),
            final(self)@.len() == old(self)@.len() + 1,
    {
        self.items.push((key, value));
        proof {
            let before = old(self).keys();
            let after = self.keys();
            assert(after =~= before.push(key@));
            assert(self.wf());
            assert forall|k: Seq<char>| #[trigger]
                self@.contains_key(k) <==> old(self)@.insert(key@, value).contains_key(k) by {
                assert(after[before.len() as int] == key@);
                if before.contains(k) {
                    let j = before.index_of(k);
                    assert(after[j] == k);
                }
                if after.contains(k) && k != key@ {
                    let j = after.index_of(k);
                    assert(before[j] == k);
                }
            }
            assert forall|k: Seq<char>| #[trigger] self@.contains_key(k) implies self@[k] == old(
                self,
            )@.insert(key@, value)[k] by {
                let j = after.index_of(k);
                assert(after[j] == k);
                self.value_at_index(j);
                if j < before.len() {
                    old(self).value_at_index(j);
                }
            }
            assert(self@ =~= old(self)@.insert(key@, value));
            self.keys_are_domain();
            old(self).keys_are_domain();
        }
    }

    /// Puts `value` under `key`, and hands back the value that stood there.
    pub fn insert(&mut self, key: String, value: V) -> (replaced: Option<V>)
        requires
            old(self).wf(),
        ensures
            final(self).wf(),
            final(self)@ == old(self)@.insert(key@, value),
            match replaced {
                Some(v) => old(self)@.contains_key(key@) && v == old(self)@[key@],
                None => !old(self)@.contains_key(key@),
            },
    {
        let replaced: Option<V> = self.remove(key.as_str());
        self.push(key, value);
        assert(self@ =~= old(self)@.insert(key@, value));
        replaced
    }
}

} // verus!
