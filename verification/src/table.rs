//! A table of values keyed by identity, in which no key occurs twice.

use crate::identity::Identity;
use vstd::prelude::*;

verus! {

/// Values stored under identities. An entry keeps its place for as long as
/// the table lives: entries are added at the end and never removed.
#[derive(Debug)]
pub struct Table<V> {
    keys: Vec<Identity>,
    values: Vec<V>,
}

impl<V: View> Table<V> {
    /// The keys, in the order in which they were added.
    pub closed spec fn key_seq(&self) -> Seq<Seq<u8>> {
        Seq::new(self.keys@.len(), |i: int| self.keys@[i]@)
    }

    /// The values, each at the place of its key.
    pub closed spec fn value_seq(&self) -> Seq<V::V> {
        Seq::new(self.values@.len(), |i: int| self.values@[i]@)
    }

    /// Every key has a value, and no key occurs twice.
    pub open spec fn wf(&self) -> bool {
        &&& self.key_seq().len() == self.value_seq().len()
        &&& self.key_seq().no_duplicates()
    }

    /// The table as a map from keys to values.
    pub open spec fn view(&self) -> Map<Seq<u8>, V::V> {
        Map::new(
            |key: Seq<u8>| self.key_seq().contains(key),
            |key: Seq<u8>| self.value_seq()[self.key_seq().index_of(key)],
        )
    }

    /// In a well-formed table the key at a place is found at that place.
    pub proof fn place_of_key(&self, at: int)
        requires
            self.wf(),
            0 <= at < self.key_seq().len(),
        ensures
            self.key_seq().contains(self.key_seq()[at]),
            self.key_seq().index_of(self.key_seq()[at]) == at,
            self@.contains_key(self.key_seq()[at]),
            self@[self.key_seq()[at]] == self.value_seq()[at],
    {
        let keys = self.key_seq();
        assert(keys.contains(keys[at]));
        let found = keys.index_of(keys[at]);
        assert(0 <= found < keys.len() && keys[found] == keys[at]);
    }

    /// A table without entries.
    pub fn new() -> (table: Self)
        ensures
            table.wf(),
            table.key_seq() == Seq::<Seq<u8>>::empty(),
            table.value_seq() == Seq::<V::V>::empty(),
            table@ == Map::<Seq<u8>, V::V>::empty(),
    {
        let table = Table { keys: Vec::new(), values: Vec::new() };
        assert(table.key_seq() =~= Seq::<Seq<u8>>::empty());
        assert(table.value_seq() =~= Seq::<V::V>::empty());
        assert(table@ =~= Map::<Seq<u8>, V::V>::empty());
        table
    }

    /// The place of a key, or `None` where the table does not hold it.
    pub fn position(&self, key: &Identity) -> (at: Option<usize>)
        requires
            self.wf(),
        ensures
            match at {
                Some(i) => {
                    &&& i < self.key_seq().len()
                    &&& self.key_seq()[i as int] == key@
                    &&& self@.contains_key(key@)
                    &&& self@[key@] == self.value_seq()[i as int]
                },
                None => !self@.contains_key(key@),
            },
    {
        let mut i: usize = 0;
        while i < self.keys.len()
            invariant
                i <= self.keys@.len(),
                self.wf(),
                forall|j: int| 0 <= j < i ==> self.key_seq()[j] != key@,
            decreases self.keys@.len() - i,
        {
            if self.keys[i].same(key) {
                proof {
                    self.place_of_key(i as int);
                }
                return Some(i);
            }
            i += 1;
        }
        None
    }

    /// The value at a place.
    pub fn get(&self, at: usize) -> (value: &V)
        requires
            self.wf(),
            at < self.key_seq().len(),
        ensures
            value@ == self.value_seq()[at as int],
    {
        &self.values[at]
    }

    /// Puts a value in the place of another, under the same key.
    pub fn replace(&mut self, at: usize, value: V)
        requires
            old(self).wf(),
            at < old(self).key_seq().len(),
        ensures
            final(self).wf(),
            final(self).key_seq() == old(self).key_seq(),
            final(self).value_seq() == old(self).value_seq().update(at as int, value@),
            final(self)@ == old(self)@.insert(old(self).key_seq()[at as int], value@),
    {
        let ghost before = *self;
        self.values.set(at, value);
        proof {
            assert(self.key_seq() =~= before.key_seq());
            assert(self.value_seq() =~= before.value_seq().update(at as int, value@));
            let keys = before.key_seq();
            assert forall|key: Seq<u8>| #[trigger] self@.contains_key(key) implies self@[key]
                == before@.insert(keys[at as int], value@)[key] by {
                let found = keys.index_of(key);
                before.place_of_key(found);
                before.place_of_key(at as int);
            }
            before.place_of_key(at as int);
            assert(self@ =~= before@.insert(keys[at as int], value@));
        }
    }

    /// Adds a value under a key that the table does not hold yet.
    pub fn append(&mut self, key: Identity, value: V)
        requires
            old(self).wf(),
            !old(self)@.contains_key(key@),
        ensures
            final(self).wf(),
            final(self).key_seq() == old(self).key_seq().push(key@),
            final(self).value_seq() == old(self).value_seq().push(value@),
            final(self)@ == old(self)@.insert(key@, value@),
    {
        let ghost before = *self;
        self.keys.push(key);
        self.values.push(value);
        proof {
            let keys = before.key_seq();
            assert(self.key_seq() =~= keys.push(key@));
            assert(self.value_seq() =~= before.value_seq().push(value@));
            assert(!keys.contains(key@));
            assert(self.key_seq().no_duplicates());
            let last = keys.len() as int;
            self.place_of_key(last);
            assert forall|other: Seq<u8>| #[trigger] self@.contains_key(other) implies self@[other]
                == before@.insert(key@, value@)[other] by {
                let found = self.key_seq().index_of(other);
                self.place_of_key(found);
                if found < last {
                    before.place_of_key(found);
                }
            }
            assert forall|other: Seq<u8>| #[trigger]
                before@.insert(key@, value@).contains_key(other) implies self@.contains_key(
                other,
            ) by {
                if other != key@ {
                    let found = keys.index_of(other);
                    assert(self.key_seq()[found] == other);
                }
            }
            assert(self@ =~= before@.insert(key@, value@));
        }
    }
}

} // verus!
