//! The allowance table: what each spender may move for each owner.
use vstd::prelude::*;

use crate::account::{Account, Amount};
use crate::assoc::{
    keys_unique, lemma_to_map_absent, lemma_to_map_dom, lemma_to_map_index, lemma_to_map_len,
    lemma_to_map_push, lemma_to_map_remove, lemma_to_map_update, to_map,
};

verus! {

/// The allowance of `spender` on `owner`'s tokens in `m`: zero when absent.
pub open spec fn allowance_in(m: Map<(Account, Account), Amount>, owner: Account, spender: Account) -> nat {
    if m.contains_key((owner, spender)) {
        m[(owner, spender)] as nat
    } else {
        0
    }
}

/// The table after `owner` approves `amount` for `spender`.
pub open spec fn approved(
    m: Map<(Account, Account), Amount>,
    owner: Account,
    spender: Account,
    amount: Amount,
) -> Map<(Account, Account), Amount> {
    if amount == 0 {
        m.remove((owner, spender))
    } else {
        m.insert((owner, spender), amount)
    }
}

/// The approvals that `owner` has given, by spender.
pub open spec fn owner_approvals(m: Map<(Account, Account), Amount>, owner: Account) -> Map<
    Account,
    Amount,
> {
    Map::new(|s: Account| m.contains_key((owner, s)), |s: Account| m[(owner, s)])
}

/// Approving the same amount twice leaves the table as one approval does: the
/// allowance and the number of allowances stay as the first call left them.
pub proof fn lemma_approve_idempotent(
    m: Map<(Account, Account), Amount>,
    owner: Account,
    spender: Account,
    amount: Amount,
)
    ensures
        approved(approved(m, owner, spender, amount), owner, spender, amount) == approved(
            m,
            owner,
            spender,
            amount,
        ),
        allowance_in(approved(approved(m, owner, spender, amount), owner, spender, amount), owner, spender)
            == allowance_in(approved(m, owner, spender, amount), owner, spender),
        approved(approved(m, owner, spender, amount), owner, spender, amount).dom().len() == approved(
            m,
            owner,
            spender,
            amount,
        ).dom().len(),
{
    assert(approved(approved(m, owner, spender, amount), owner, spender, amount) =~= approved(
        m,
        owner,
        spender,
        amount,
    ));
}

/// The approvals of `owner` among the entries, in entry order.
pub open spec fn approvals_in(s: Seq<((Account, Account), Amount)>, owner: Account) -> Seq<
    (Account, Amount),
>
    decreases s.len(),
{
    if s.len() == 0 {
        Seq::empty()
    } else {
        let rest = approvals_in(s.drop_last(), owner);
        if s.last().0.0 == owner {
            rest.push((s.last().0.1, s.last().1))
        } else {
            rest
        }
    }
}

proof fn lemma_approvals_in(s: Seq<((Account, Account), Amount)>, owner: Account)
    requires
        keys_unique(s),
    ensures
        keys_unique(approvals_in(s, owner)),
        to_map(approvals_in(s, owner)) == owner_approvals(to_map(s), owner),
    decreases s.len(),
{
    if s.len() == 0 {
        assert(to_map(approvals_in(s, owner)) =~= owner_approvals(to_map(s), owner));
    } else {
        let d = s.drop_last();
        let l = s.last();
        lemma_approvals_in(d, owner);
        let r = approvals_in(d, owner);
        if l.0.0 == owner {
            lemma_to_map_push(r, (l.0.1, l.1));
            lemma_to_map_dom(r);
            lemma_to_map_dom(d);
            if to_map(r).contains_key(l.0.1) {
                assert(to_map(d).contains_key(l.0));
                let i = choose|i: int| 0 <= i < d.len() && d[i].0 == l.0;
                assert(s[i].0 == s[s.len() - 1].0);
            }
            assert forall|j: int| 0 <= j < r.len() implies r[j].0 != l.0.1 by {
                if r[j].0 == l.0.1 {
                    assert(to_map(r).contains_key(l.0.1));
                }
            }
        }
        assert(to_map(approvals_in(s, owner)) =~= owner_approvals(to_map(s), owner));
    }
}

/// (owner, spender) to allowance; only positive allowances are kept.
pub struct Allowances {
    entries: Vec<((Account, Account), Amount)>,
}

impl View for Allowances {
    type V = Map<(Account, Account), Amount>;

    closed spec fn view(&self) -> Map<(Account, Account), Amount> {
        to_map(self.entries@)
    }
}

impl Allowances {
    /// Keys are unique and every stored allowance is positive.
    pub closed spec fn wf(&self) -> bool {
        &&& keys_unique(self.entries@)
        &&& forall|i: int| 0 <= i < self.entries@.len() ==> self.entries@[i].1 > 0
    }

    /// The table is finite and every stored allowance is positive.
    pub proof fn lemma_positive(&self)
        requires
            self.wf(),
        ensures
            self@.dom().finite(),
            forall|k: (Account, Account)| #[trigger] self@.contains_key(k) ==> self@[k] > 0,
    {
        lemma_to_map_dom(self.entries@);
        assert forall|k: (Account, Account)| #[trigger] self@.contains_key(k) implies self@[k] > 0 by {
            let i = choose|i: int| 0 <= i < self.entries@.len() && self.entries@[i].0 == k;
            lemma_to_map_index(self.entries@, i);
        }
    }

    pub fn new() -> (r: Allowances)
        ensures
            r.wf(),
            r@ == Map::<(Account, Account), Amount>::empty(),
    {
        Allowances { entries: Vec::new() }
    }

    fn find(&self, owner: &Account, spender: &Account) -> (r: Option<usize>)
        ensures
            match r {
                Some(i) => i < self.entries@.len() && self.entries@[i as int].0 == (
                *owner,
                *spender,
                ),
                None => forall|i: int|
                    0 <= i < self.entries@.len() ==> self.entries@[i].0 != (*owner, *spender),
            },
    {
        let mut i: usize = 0;
        while i < self.entries.len()
            invariant
                i <= self.entries@.len(),
                forall|j: int| 0 <= j < i ==> self.entries@[j].0 != (*owner, *spender),
            decreases self.entries@.len() - i,
        {
            if self.entries[i].0.0 == *owner && self.entries[i].0.1 == *spender {
                return Some(i);
            }
            i = i + 1;
        }
        None
    }

    /// What `spender` may move for `owner`; zero when nothing was approved.
    pub fn get(&self, owner: &Account, spender: &Account) -> (r: Amount)
        requires
            self.wf(),
        ensures
            r as nat == allowance_in(self@, *owner, *spender),
    {
        match self.find(owner, spender) {
            Some(i) => {
                proof {
                    lemma_to_map_index(self.entries@, i as int);
                }
                self.entries[i].1
            },
            None => {
                proof {
                    lemma_to_map_absent(self.entries@, (*owner, *spender));
                }
                0
            },
        }
    }

    /// Sets the allowance of `spender` on `owner`'s tokens; zero drops it.
    pub fn approve(&mut self, owner: Account, spender: Account, amount: Amount)
        requires
            old(self).wf(),
        ensures
            final(self).wf(),
            final(self)@ == approved(old(self)@, owner, spender, amount),
    {
        match self.find(&owner, &spender) {
            Some(i) => {
                proof {
                    lemma_to_map_update(self.entries@, i as int, amount);
                    lemma_to_map_remove(self.entries@, i as int);
                }
                if amount == 0 {
                    self.entries.remove(i);
                } else {
                    self.entries.set(i, ((owner, spender), amount));
                }
            },
            None => {
                proof {
                    lemma_to_map_push(self.entries@, ((owner, spender), amount));
                    lemma_to_map_absent(self.entries@, (owner, spender));
                }
                if amount != 0 {
                    self.entries.push(((owner, spender), amount));
                } else {
                    assert(self@ =~= self@.remove((owner, spender)));
                }
            },
        }
    }

    /// The number of (owner, spender) pairs with an allowance.
    pub fn size(&self) -> (r: usize)
        requires
            self.wf(),
        ensures
            r as nat == self@.dom().len(),
    {
        proof {
            lemma_to_map_len(self.entries@);
        }
        self.entries.len()
    }

    /// The approvals that `owner` has given, each spender once, in no
    /// particular order.
    pub fn approvals_of(&self, owner: &Account) -> (r: Vec<(Account, Amount)>)
        requires
            self.wf(),
        ensures
            keys_unique(r@),
            to_map(r@) == owner_approvals(self@, *owner),
    {
        let mut r: Vec<(Account, Amount)> = Vec::new();
        let mut i: usize = 0;
        while i < self.entries.len()
            invariant
                i <= self.entries@.len(),
                r@ == approvals_in(self.entries@.subrange(0, i as int), *owner),
            decreases self.entries@.len() - i,
        {
            let e = self.entries[i];
            assert(self.entries@.subrange(0, i + 1).drop_last() =~= self.entries@.subrange(
                0,
                i as int,
            ));
            if e.0.0 == *owner {
                r.push((e.0.1, e.1));
            }
            i = i + 1;
        }
        proof {
            assert(self.entries@.subrange(0, self.entries@.len() as int) =~= self.entries@);
            lemma_approvals_in(self.entries@, *owner);
        }
        r
    }
}

} // verus!
