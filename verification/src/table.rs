//! A table of records of one kind, each filed under its own identifier.

use crate::assoc::{
    assoc_map, has_key, keys_distinct, lemma_assoc_keys, lemma_assoc_push, lemma_assoc_remove,
    lemma_assoc_update, lemma_assoc_value,
};
use crate::entity::Record;
use vstd::prelude::*;

verus! {

/// The records of a table as key-value pairs, each under its own identifier.
pub open spec fn rows<T: Record>(records: Seq<T>) -> Seq<(Seq<char>, T::V)> {
    records.map_values(|r: T| (T::key_of(r@), r@))
}

/// Keyed records as key-value pairs, each under the key it comes with.
pub open spec fn entry_rows<T: Record>(entries: Seq<(String, T)>) -> Seq<(Seq<char>, T::V)> {
    entries.map_values(|e: (String, T)| (e.0@, e.1@))
}

/// Every record comes under a key equal to its own identifier.
pub open spec fn filed_by_id<T: Record>(entries: Seq<(String, T)>) -> bool {
    forall|i: int|
        0 <= i < entries.len() ==> (#[trigger] entries[i]).0@ == T::key_of(entries[i].1@)
}

/// Every key of the map is the identifier of the record it maps to.
pub open spec fn keyed_by_id<T: Record>(m: Map<Seq<char>, T::V>) -> bool {
    forall|k: Seq<char>| m.contains_key(k) ==> T::key_of(#[trigger] m[k]) == k
}

/// A map built from pairs that each hold a record under its own identifier
/// maps every key to a record with that identifier.
pub proof fn lemma_rows_keyed_by_id<T: Record>(pairs: Seq<(Seq<char>, T::V)>)
    requires
        forall|i: int| 0 <= i < pairs.len() ==> (#[trigger] pairs[i]).0 == T::key_of(pairs[i].1),
    ensures
        keyed_by_id::<T>(assoc_map(pairs)),
    decreases pairs.len(),
{
    if pairs.len() > 0 {
        let front = pairs.drop_last();
        assert(forall|i: int| 0 <= i < front.len() ==> front[i] == pairs[i]);
        lemma_rows_keyed_by_id::<T>(front);
        assert(pairs.last() == pairs[pairs.len() - 1]);
    }
}

/// The records of one kind. No two of them have the same identifier.
pub struct Table<T: Record> {
    records: Vec<T>,
}

impl<T: Record> View for Table<T> {
    type V = Map<Seq<char>, T::V>;

    /// The mapping from identifier to record.
    closed spec fn view(&self) -> Map<Seq<char>, T::V> {
        assoc_map(rows(self.records@))
    }
}

impl<T: Record> Table<T> {
    #[verifier::type_invariant]
    closed spec fn wf(self) -> bool {
        keys_distinct(rows(self.records@))
    }

    /// Every key of a table is the identifier of the record filed under it,
    /// and the keys are finitely many.
    pub proof fn lemma_keyed_by_id(self)
        ensures
            keyed_by_id::<T>(self@),
            self@.dom().finite(),
    {
        lemma_rows_keyed_by_id::<T>(rows(self.records@));
        lemma_assoc_keys(rows(self.records@), Seq::<char>::empty());
    }

    /// A table with no record.
    pub fn new() -> (r: Self)
        ensures
            r@ == Map::<Seq<char>, T::V>::empty(),
    {
        Table { records: Vec::new() }
    }

    /// The place of the record with identifier `id`, if there is one.
    fn position(&self, id: &String) -> (r: Option<usize>)
        ensures
            match r {
                Some(i) => i < self.records@.len() && T::key_of(self.records@[i as int]@) == id@,
                None => !has_key(rows(self.records@), id@),
            },
    {
        let mut i: usize = 0;
        while i < self.records.len()
            invariant
                i <= self.records@.len(),
                forall|k: int| 0 <= k < i ==> T::key_of(#[trigger] self.records@[k]@) != id@,
            decreases self.records@.len() - i,
        {
            if *self.records[i].id() == *id {
                return Some(i);
            }
            i += 1;
        }
        proof {
            let pairs = rows(self.records@);
            assert forall|k: int| 0 <= k < pairs.len() implies (#[trigger] pairs[k]).0 != id@ by {
                assert(pairs[k].0 == T::key_of(self.records@[k]@));
            }
        }
        None
    }

    /// The record filed under `id`, if there is one.
    pub fn get(&self, id: &String) -> (r: Option<&T>)
        ensures
            match r {
                Some(record) => self@.contains_key(id@) && record@ == self@[id@],
                None => !self@.contains_key(id@),
            },
    {
        proof {
            use_type_invariant(self);
            lemma_assoc_keys(rows(self.records@), id@);
        }
        match self.position(id) {
            Some(i) => {
                proof {
                    lemma_assoc_value(rows(self.records@), i as int);
                }
                Some(&self.records[i])
            },
            None => None,
        }
    }

    /// Files `record` under its own identifier, in the place of the record
    /// that was filed there, if there was one.
    pub fn put(&mut self, record: T)
        ensures
            final(self)@ == old(self)@.insert(T::key_of(record@), record@),
    {
        proof {
            use_type_invariant(&*self);
        }
        let found = self.position(record.id());
        let ghost before = rows(self.records@);
        let ghost key = T::key_of(record@);
        let ghost value = record@;
        let mut records = Vec::new();
        std::mem::swap(&mut records, &mut self.records);
        match found {
            Some(i) => {
                records[i] = record;
                proof {
                    lemma_assoc_update(before, i as int, value);
                    assert(rows(records@) =~= before.update(i as int, (key, value)));
                }
            },
            None => {
                records.push(record);
                proof {
                    lemma_assoc_push(before, key, value);
                    assert(rows(records@) =~= before.push((key, value)));
                    assert forall|a: int, b: int| 0 <= a < b < before.len() + 1 implies (
                    #[trigger] before.push((key, value))[a]).0 != (#[trigger] before.push(
                        (key, value),
                    )[b]).0 by {
                        assert(before.push((key, value))[a] == before[a]);
                        if b < before.len() {
                            assert(before.push((key, value))[b] == before[b]);
                        }
                    }
                }
            },
        }
        self.records = records;
    }

    /// Takes out the record filed under `id`, and tells whether there was one.
    pub fn remove(&mut self, id: &String) -> (r: bool)
        ensures
            r == old(self)@.contains_key(id@),
            final(self)@ == old(self)@.remove(id@),
            !r ==> final(self)@ == old(self)@,
    {
        proof {
            use_type_invariant(&*self);
            lemma_assoc_keys(rows(self.records@), id@);
        }
        let ghost before = rows(self.records@);
        match self.position(id) {
            Some(i) => {
                let mut records = Vec::new();
                std::mem::swap(&mut records, &mut self.records);
                records.remove(i);
                proof {
                    lemma_assoc_remove(before, i as int);
                    assert(rows(records@) =~= before.remove(i as int));
                }
                self.records = records;
                true
            },
            None => {
                assert(self@.remove(id@) =~= self@);
                false
            },
        }
    }

    /// A copy of every record, each with the key it is filed under.
    pub fn entries(&self) -> (r: Vec<(String, T)>)
        ensures
            filed_by_id(r@),
            keys_distinct(entry_rows(r@)),
            assoc_map(entry_rows(r@)) == self@,
    {
        proof {
            use_type_invariant(self);
        }
        let mut out: Vec<(String, T)> = Vec::new();
        let mut i: usize = 0;
        while i < self.records.len()
            invariant
                i <= self.records@.len(),
                out@.len() == i,
                forall|k: int|
                    0 <= k < i ==> (#[trigger] out@[k]).0@ == T::key_of(self.records@[k]@)
                        && out@[k].1@ == self.records@[k]@,
            decreases self.records@.len() - i,
        {
            let record = &self.records[i];
            out.push((record.id().clone(), record.duplicate()));
            i += 1;
        }
        proof {
            assert(entry_rows(out@) =~= rows(self.records@));
        }
        out
    }

    /// The table that holds the records of `entries`, if each comes under a
    /// key equal to its own identifier; where two have the same key, the
    /// later one stays.
    pub fn from_entries(entries: &Vec<(String, T)>) -> (r: Option<Self>)
        ensures
            r is Some <==> filed_by_id(entries@),
            r matches Some(table) ==> table@ == assoc_map(entry_rows(entries@)),
    {
        let mut table = Table::new();
        let mut i: usize = 0;
        while i < entries.len()
            invariant
                i <= entries@.len(),
                filed_by_id(entries@.take(i as int)),
                table@ == assoc_map(entry_rows(entries@.take(i as int))),
            decreases entries@.len() - i,
        {
            let entry = &entries[i];
            if !(entry.0 == *entry.1.id()) {
                return None;
            }
            table.put(entry.1.duplicate());
            proof {
                let next = entries@.take(i + 1);
                assert(next.drop_last() =~= entries@.take(i as int));
                assert(entry_rows(next).drop_last() =~= entry_rows(entries@.take(i as int)));
                assert(next.last() == entries@[i as int]);
                assert forall|k: int| 0 <= k < next.len() implies (#[trigger] next[k]).0@
                    == T::key_of(next[k].1@) by {
                    if k < i {
                        assert(entries@.take(i as int)[k] == next[k]);
                    }
                }
            }
            i += 1;
        }
        proof {
            assert(entries@.take(i as int) =~= entries@);
        }
        Some(table)
    }
}

} // verus!
