use vstd::prelude::*;
use crate::address::Address;
use crate::debt::{UserDebt, UserDebtView};
use crate::keyed::{
    as_map, lemma_entry_in_map, lemma_key_not_in_map, lemma_push_inserts, lemma_remove_removes,
    lemma_update_inserts, unique_keys,
};
use crate::model::{lookup, view_of};

verus! {

/// What one user owes.
#[derive(Debug)]
struct DebtEntry {
    user: Address,
    debt: UserDebt,
}

/// The debts, each kept under the user who owes it. A user has at most one
/// record; a user without a record owes nothing.
#[derive(Debug)]
pub struct DebtLedger {
    records: Vec<DebtEntry>,
}

impl View for DebtLedger {
    type V = Map<Seq<char>, UserDebtView>;

    closed spec fn view(&self) -> Map<Seq<char>, UserDebtView> {
        as_map(self.entries())
    }
}

impl DebtLedger {
    /// The records with their keys, in the order in which they are kept.
    pub closed spec fn entries(&self) -> Seq<(Seq<char>, UserDebtView)> {
        self.records@.map_values(|entry: DebtEntry| (entry.user@, entry.debt@))
    }

    /// No user has two records.
    pub closed spec fn wf(&self) -> bool {
        unique_keys(self.entries())
    }

    /// A ledger without records.
    pub fn new() -> (ledger: DebtLedger)
        ensures
            ledger.wf(),
            ledger@ == Map::<Seq<char>, UserDebtView>::empty(),
    {
        let ledger = DebtLedger { records: Vec::new() };
        assert(ledger@ =~= Map::<Seq<char>, UserDebtView>::empty());
        ledger
    }

    /// The place of the record of a user, if the user has one.
    fn find(&self, user: &Address) -> (place: Option<usize>)
        ensures
            match place {
                Some(i) => i < self.records.len() && self.entries()[i as int].0 == user@,
                None => forall|i: int|
                    0 <= i < self.entries().len() ==> (#[trigger] self.entries()[i]).0 != user@,
            },
    {
        let mut i: usize = 0;
        while i < self.records.len()
            invariant
                i <= self.records.len(),
                self.entries().len() == self.records.len(),
                forall|j: int| 0 <= j < i ==> (#[trigger] self.entries()[j]).0 != user@,
            decreases self.records.len() - i,
        {
            if self.records[i].user == *user {
                return Some(i);
            }
            i += 1;
        }
        None
    }

    /// The record of a user, if the user has one.
    pub fn get(&self, user: &Address) -> (debt: Option<&UserDebt>)
        requires
            self.wf(),
        ensures
            view_of(debt) == lookup(self@, user@),
    {
        match self.find(user) {
            Some(i) => {
                proof {
                    lemma_entry_in_map(self.entries(), i as int);
                }
                Some(&self.records[i].debt)
            },
            None => {
                proof {
                    lemma_key_not_in_map(self.entries(), user@);
                }
                None
            },
        }
    }

    /// Keeps `debt` as the record of `user`, in place of the record that
    /// the user had, if any.
    pub fn put(&mut self, user: &Address, debt: UserDebt)
        requires
            old(self).wf(),
        ensures
            final(self).wf(),
            final(self)@ == old(self)@.insert(user@, debt@),
    {
        let ghost before = self.entries();
        match self.find(user) {
            Some(i) => {
                proof {
                    lemma_update_inserts(before, i as int, debt@);
                }
                self.records[i] = DebtEntry { user: user.clone(), debt };
                assert(self.entries() =~= before.update(i as int, (user@, debt@)));
            },
            None => {
                proof {
                    lemma_key_not_in_map(before, user@);
                    lemma_push_inserts(before, user@, debt@);
                }
                self.records.push(DebtEntry { user: user.clone(), debt });
                assert(self.entries() =~= before.push((user@, debt@)));
            },
        }
    }

    /// Deletes the record of `user`, if the user has one.
    pub fn remove(&mut self, user: &Address)
        requires
            old(self).wf(),
        ensures
            final(self).wf(),
            final(self)@ == old(self)@.remove(user@),
    {
        let ghost before = self.entries();
        match self.find(user) {
            Some(i) => {
                proof {
                    lemma_remove_removes(before, i as int);
                }
                self.records.remove(i);
                assert(self.entries() =~= before.remove(i as int));
            },
            None => {
                proof {
                    lemma_key_not_in_map(before, user@);
                }
                assert(self@ =~= self@.remove(user@));
            },
        }
    }
}

impl Clone for DebtLedger {
    fn clone(&self) -> (copy: DebtLedger)
        ensures
            copy@ == self@,
            self.wf() ==> copy.wf(),
    {
        let mut records: Vec<DebtEntry> = Vec::new();
        let mut i: usize = 0;
        while i < self.records.len()
            invariant
                i <= self.records.len(),
                records@ == self.records@.subrange(0, i as int),
            decreases self.records.len() - i,
        {
            let entry = &self.records[i];
            records.push(DebtEntry { user: entry.user.clone(), debt: entry.debt.clone() });
            assert(records@ =~= self.records@.subrange(0, i + 1));
            i += 1;
        }
        assert(records@ =~= self.records@);
        DebtLedger { records }
    }
}

} // verus!
