use vstd::prelude::*;
use crate::keyed::{
    as_map, lemma_entry_in_map, lemma_key_not_in_map, lemma_push_inserts, lemma_update_inserts,
    unique_keys,
};
use crate::model::{lookup, view_of};
use crate::subscription::{Subscription, SubscriptionKey, SubscriptionView};

verus! {

/// The subscriptions, each kept under its pair of subscriber and merchant.
/// A pair has at most one record. Records are replaced, never deleted.
#[derive(Debug)]
pub struct SubscriptionRegistry {
    records: Vec<Subscription>,
}

impl View for SubscriptionRegistry {
    type V = Map<(Seq<char>, Seq<char>), SubscriptionView>;

    closed spec fn view(&self) -> Map<(Seq<char>, Seq<char>), SubscriptionView> {
        as_map(self.entries())
    }
}

impl SubscriptionRegistry {
    /// The records with their keys, in the order in which they are kept.
    pub closed spec fn entries(&self) -> Seq<((Seq<char>, Seq<char>), SubscriptionView)> {
        self.records@.map_values(|record: Subscription| (record@.key(), record@))
    }

    /// No pair has two records.
    pub closed spec fn wf(&self) -> bool {
        unique_keys(self.entries())
    }

    /// A registry without records.
    pub fn new() -> (registry: SubscriptionRegistry)
        ensures
            registry.wf(),
            registry@ == Map::<(Seq<char>, Seq<char>), SubscriptionView>::empty(),
    {
        let registry = SubscriptionRegistry { records: Vec::new() };
        assert(registry@ =~= Map::<(Seq<char>, Seq<char>), SubscriptionView>::empty());
        registry
    }

    /// The place of the record that `key` names, if there is one.
    fn find(&self, key: &SubscriptionKey) -> (place: Option<usize>)
        ensures
            match place {
                Some(i) => i < self.records.len() && self.entries()[i as int].0 == key@,
                None => forall|i: int|
                    0 <= i < self.entries().len() ==> (#[trigger] self.entries()[i]).0 != key@,
            },
    {
        let mut i: usize = 0;
        while i < self.records.len()
            invariant
                i <= self.records.len(),
                self.entries().len() == self.records.len(),
                forall|j: int| 0 <= j < i ==> (#[trigger] self.entries()[j]).0 != key@,
            decreases self.records.len() - i,
        {
            if key.names(&self.records[i]) {
                return Some(i);
            }
            i += 1;
        }
        None
    }

    /// The record that `key` names, if there is one.
    pub fn get(&self, key: &SubscriptionKey) -> (record: Option<&Subscription>)
        requires
            self.wf(),
        ensures
            view_of(record) == lookup(self@, key@),
    {
        match self.find(key) {
            Some(i) => {
                proof {
                    lemma_entry_in_map(self.entries(), i as int);
                }
                Some(&self.records[i])
            },
            None => {
                proof {
                    lemma_key_not_in_map(self.entries(), key@);
                }
                None
            },
        }
    }

    /// Keeps `record` under its pair, in place of the record that the pair
    /// had, if it had one.
    pub fn put(&mut self, record: Subscription)
        requires
            old(self).wf(),
        ensures
            final(self).wf(),
            final(self)@ == old(self)@.insert(record@.key(), record@),
    {
        let ghost before = self.entries();
        match self.find(&record.key()) {
            Some(i) => {
                proof {
                    lemma_update_inserts(before, i as int, record@);
                }
                self.records[i] = record;
                assert(self.entries() =~= before.update(i as int, (record@.key(), record@)));
            },
            None => {
                proof {
                    lemma_key_not_in_map(before, record@.key());
                    lemma_push_inserts(before, record@.key(), record@);
                }
                self.records.push(record);
                assert(self.entries() =~= before.push((record@.key(), record@)));
            },
        }
    }
}

impl Clone for SubscriptionRegistry {
    fn clone(&self) -> (copy: SubscriptionRegistry)
        ensures
            copy@ == self@,
            self.wf() ==> copy.wf(),
    {
        let mut records: Vec<Subscription> = Vec::new();
        let mut i: usize = 0;
        while i < self.records.len()
            invariant
                i <= self.records.len(),
                records@ == self.records@.subrange(0, i as int),
            decreases self.records.len() - i,
        {
            records.push(self.records[i].clone());
            assert(records@ =~= self.records@.subrange(0, i + 1));
            i += 1;
        }
        assert(records@ =~= self.records@);
        SubscriptionRegistry { records }
    }
}

} // verus!
