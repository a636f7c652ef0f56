//! The balance store and its ranking index.
use vstd::prelude::*;

use crate::account::{Account, Amount};
use crate::assoc::{
    keys_unique, lemma_to_map_absent, lemma_to_map_dom, lemma_to_map_index, lemma_to_map_push, lemma_to_map_remove,
    lemma_to_map_update, to_map,
};

verus! {

/// Account to balance; accounts without an entry hold nothing.
pub struct Balances {
    entries: Vec<(Account, Amount)>,
}

impl View for Balances {
    type V = Map<Account, Amount>;

    closed spec fn view(&self) -> Map<Account, Amount> {
        to_map(self.entries@)
    }
}

/// The balance of `who` in `m`: zero when absent.
pub open spec fn balance_in(m: Map<Account, Amount>, who: Account) -> nat {
    if m.contains_key(who) {
        m[who] as nat
    } else {
        0
    }
}

impl Balances {
    /// Keys are unique and every stored balance is positive.
    pub closed spec fn wf(&self) -> bool {
        &&& keys_unique(self.entries@)
        &&& forall|i: int| 0 <= i < self.entries@.len() ==> self.entries@[i].1 > 0
    }

    /// Every stored balance is positive.
    pub proof fn lemma_positive(&self)
        requires
            self.wf(),
        ensures
            self@.dom().finite(),
            forall|a: Account| #[trigger] self@.contains_key(a) ==> self@[a] > 0,
    {
        lemma_to_map_dom(self.entries@);
        assert forall|a: Account| #[trigger] self@.contains_key(a) implies self@[a] > 0 by {
            let i = choose|i: int| 0 <= i < self.entries@.len() && self.entries@[i].0 == a;
            lemma_to_map_index(self.entries@, i);
        }
    }

    pub fn new() -> (r: Balances)
        ensures
            r.wf(),
            r@ == Map::<Account, Amount>::empty(),
    {
        Balances { entries: Vec::new() }
    }

    /// Index of the entry of `who`, if any.
    fn find(&self, who: &Account) -> (r: Option<usize>)
        ensures
            match r {
                Some(i) => i < self.entries@.len() && self.entries@[i as int].0 == *who,
                None => forall|i: int| 0 <= i < self.entries@.len() ==> self.entries@[i].0 != *who,
            },
    {
        let mut i: usize = 0;
        while i < self.entries.len()
            invariant
                i <= self.entries@.len(),
                forall|j: int| 0 <= j < i ==> self.entries@[j].0 != *who,
            decreases self.entries@.len() - i,
        {
            if self.entries[i].0 == *who {
                return Some(i);
            }
            i = i + 1;
        }
        None
    }

    pub fn balance_of(&self, who: &Account) -> (r: Amount)
        requires
            self.wf(),
        ensures
            r as nat == balance_in(self@, *who),
    {
        match self.find(who) {
            Some(i) => {
                proof {
                    lemma_to_map_index(self.entries@, i as int);
                }
                self.entries[i].1
            },
            None => {
                proof {
                    lemma_to_map_absent(self.entries@, *who);
                }
                0
            },
        }
    }

    /// Sets the balance of `who`; a zero balance drops the entry.
    pub(crate) fn set(&mut self, who: Account, amount: Amount)
        requires
            old(self).wf(),
        ensures
            final(self).wf(),
            final(self)@ == (if amount == 0 {
                old(self)@.remove(who)
            } else {
                old(self)@.insert(who, amount)
            }),
    {
        match self.find(&who) {
            Some(i) => {
                proof {
                    lemma_to_map_update(self.entries@, i as int, amount);
                    lemma_to_map_remove(self.entries@, i as int);
                }
                if amount == 0 {
                    self.entries.remove(i);
                } else {
                    self.entries.set(i, (who, amount));
                }
            },
            None => {
                proof {
                    lemma_to_map_push(self.entries@, (who, amount));
                    lemma_to_map_absent(self.entries@, who);
                }
                if amount != 0 {
                    self.entries.push((who, amount));
                } else {
                    assert(self@ =~= self@.remove(who));
                }
            },
        }
    }
}

} // verus!
