//! The ranking index: (balance, account) pairs, best ranked first.
use vstd::prelude::*;

use crate::account::{account_lt, Account, Amount};

verus! {

/// `x` ranks before `y`: a larger amount first, then the smaller account.
pub open spec fn ranks_before(x: (Amount, Account), y: (Amount, Account)) -> bool {
    x.0 > y.0 || (x.0 == y.0 && account_lt(x.1, y.1))
}

/// Every pair ranks strictly before each later one.
pub open spec fn ranked(s: Seq<(Amount, Account)>) -> bool {
    forall|i: int, j: int| 0 <= i < j < s.len() ==> ranks_before(s[i], s[j])
}

/// A holder list ranked by descending amount, ties by ascending account.
pub open spec fn holders_ranked(s: Seq<(Account, Amount)>) -> bool {
    forall|i: int, j: int|
        0 <= i < j < s.len() ==> #[trigger] s[i].1 > #[trigger] s[j].1 || (s[i].1 == s[j].1
            && account_lt(s[i].0, s[j].0))
}

/// An index pair as a holder entry.
pub open spec fn holder(p: (Amount, Account)) -> (Account, Amount) {
    (p.1, p.0)
}

pub open spec fn holders(s: Seq<(Amount, Account)>) -> Seq<(Account, Amount)> {
    s.map_values(|p: (Amount, Account)| holder(p))
}

/// The holders from rank `start` on, at most `limit` of them.
pub open spec fn holders_window(s: Seq<(Amount, Account)>, start: int, limit: int) -> Seq<
    (Account, Amount),
> {
    let lo = if start < s.len() { start } else { s.len() as int };
    let hi = if start + limit < s.len() { start + limit } else { s.len() as int };
    holders(s.subrange(lo, hi))
}

/// The holders whose amount lies in `[lo, hi]`, in rank order.
pub open spec fn holders_in(s: Seq<(Amount, Account)>, lo: int, hi: int) -> Seq<(Account, Amount)>
    decreases s.len(),
{
    if s.len() == 0 {
        Seq::empty()
    } else {
        let rest = holders_in(s.drop_last(), lo, hi);
        if lo <= s.last().0 <= hi {
            rest.push(holder(s.last()))
        } else {
            rest
        }
    }
}

/// The holders between two bounds given in either order.
pub open spec fn holders_between(s: Seq<(Amount, Account)>, a: int, b: int) -> Seq<(Account, Amount)> {
    if a <= b {
        holders_in(s, a, b)
    } else {
        holders_in(s, b, a)
    }
}

/// Swapping the two bounds of a range query gives the same holders.
pub proof fn lemma_holders_between_symmetric(s: Seq<(Amount, Account)>, a: int, b: int)
    ensures
        holders_between(s, a, b) == holders_between(s, b, a),
{
}

fn ranks_first(x: (Amount, Account), y: (Amount, Account)) -> (r: bool)
    ensures
        r == ranks_before(x, y),
{
    x.0 > y.0 || (x.0 == y.0 && x.1.precedes(&y.1))
}

/// A ranked sequence is fixed by the pairs it holds: two ranked sequences of
/// the same pairs are equal.
pub proof fn lemma_ranked_unique(s1: Seq<(Amount, Account)>, s2: Seq<(Amount, Account)>)
    requires
        ranked(s1),
        ranked(s2),
        forall|p: (Amount, Account)| s1.contains(p) <==> s2.contains(p),
    ensures
        s1 == s2,
    decreases s1.len(),
{
    if s1.len() == 0 {
        if s2.len() > 0 {
            assert(s2.contains(s2[0]));
        }
        assert(s1 =~= s2);
    } else {
        assert(s1.contains(s1[0]));
        let k = choose|k: int| 0 <= k < s2.len() && s2[k] == s1[0];
        assert(s2.contains(s2[0]));
        let j = choose|j: int| 0 <= j < s1.len() && s1[j] == s2[0];
        if k > 0 {
            assert(ranks_before(s2[0], s2[k]));
            if j > 0 {
                assert(ranks_before(s1[0], s1[j]));
            }
        }
        let t1 = s1.subrange(1, s1.len() as int);
        let t2 = s2.subrange(1, s2.len() as int);
        assert forall|p: (Amount, Account)| t1.contains(p) <==> t2.contains(p) by {
            if t1.contains(p) {
                let a = choose|a: int| 0 <= a < t1.len() && t1[a] == p;
                assert(s1[a + 1] == p);
                assert(ranks_before(s1[0], s1[a + 1]));
                assert(s1.contains(p));
                assert(s2.contains(p));
                let b = choose|b: int| 0 <= b < s2.len() && s2[b] == p;
                assert(b != 0);
                assert(t2[b - 1] == p);
            }
            if t2.contains(p) {
                let a = choose|a: int| 0 <= a < t2.len() && t2[a] == p;
                assert(s2[a + 1] == p);
                assert(ranks_before(s2[0], s2[a + 1]));
                assert(s2.contains(p));
                let b = choose|b: int| 0 <= b < s1.len() && s1[b] == p;
                assert(b != 0);
                assert(t1[b - 1] == p);
            }
        }
        lemma_ranked_unique(t1, t2);
        assert(s1 =~= seq![s1[0]] + t1);
        assert(s2 =~= seq![s2[0]] + t2);
    }
}

/// Ranking index over positive balances.
pub struct BalancesTree {
    entries: Vec<(Amount, Account)>,
}

impl View for BalancesTree {
    type V = Seq<(Amount, Account)>;

    closed spec fn view(&self) -> Seq<(Amount, Account)> {
        self.entries@
    }
}

impl BalancesTree {
    /// Strictly ranked, every amount positive, and no more pairs than a
    /// `usize` counts.
    pub open spec fn wf(&self) -> bool {
        &&& ranked(self@)
        &&& self@.len() <= usize::MAX
        &&& forall|i: int| 0 <= i < self@.len() ==> self@[i].0 > 0
    }

    pub fn new() -> (r: BalancesTree)
        ensures
            r.wf(),
            r@ == Seq::<(Amount, Account)>::empty(),
    {
        BalancesTree { entries: Vec::new() }
    }

    /// Removes the pair `p`, if present.
    pub(crate) fn remove_pair(&mut self, p: (Amount, Account))
        requires
            old(self).wf(),
        ensures
            final(self).wf(),
            forall|q: (Amount, Account)| #[trigger]
                final(self)@.contains(q) <==> (old(self)@.contains(q) && q != p),
    {
        let mut i: usize = 0;
        while i < self.entries.len()
            invariant
                i <= self@.len(),
                self.wf(),
                self@ == old(self)@,
                forall|j: int| 0 <= j < i ==> self@[j] != p,
            decreases self@.len() - i,
        {
            if self.entries[i].0 == p.0 && self.entries[i].1 == p.1 {
                let ghost s = self@;
                self.entries.remove(i);
                assert forall|a: int, b: int| 0 <= a < b < self@.len() implies ranks_before(
                    self@[a],
                    self@[b],
                ) by {
                    let a2 = if a < i { a } else { a + 1 };
                    let b2 = if b < i { b } else { b + 1 };
                    assert(self@[a] == s[a2]);
                    assert(self@[b] == s[b2]);
                }
                assert forall|q: (Amount, Account)| #[trigger]
                    self@.contains(q) <==> (s.contains(q) && q != p) by {
                    if self@.contains(q) {
                        let k = choose|k: int| 0 <= k < self@.len() && self@[k] == q;
                        let k2 = if k < i { k } else { k + 1 };
                        assert(s[k2] == q);
                        assert(ranks_before(s[k2], s[i as int]) || ranks_before(s[i as int], s[k2]));
                    }
                    if s.contains(q) && q != p {
                        let k = choose|k: int| 0 <= k < s.len() && s[k] == q;
                        if k < i {
                            assert(self@[k] == q);
                        } else {
                            assert(k != i);
                            assert(self@[k - 1] == q);
                        }
                    }
                }
                return;
            }
            i = i + 1;
        }
    }

    /// Adds the pair `p` at its rank.
    pub(crate) fn insert_pair(&mut self, p: (Amount, Account))
        requires
            old(self).wf(),
            p.0 > 0,
            !old(self)@.contains(p),
        ensures
            final(self).wf(),
            forall|q: (Amount, Account)| #[trigger]
                final(self)@.contains(q) <==> (old(self)@.contains(q) || q == p),
    {
        let mut i: usize = 0;
        while i < self.entries.len() && !ranks_first(p, self.entries[i])
            invariant
                i <= self@.len(),
                self.wf(),
                !self@.contains(p),
                forall|j: int| 0 <= j < i ==> ranks_before(self@[j], p),
            decreases self@.len() - i,
        {
            assert(self@[i as int] != p);
            i = i + 1;
        }
        let ghost s = self@;
        self.entries.insert(i, p);
        // Reading the length tells the proof that it fits in a `usize`.
        let _count: usize = self.entries.len();
        assert forall|a: int, b: int| 0 <= a < b < self@.len() implies ranks_before(
            self@[a],
            self@[b],
        ) by {
            if b < i {
                assert(self@[a] == s[a] && self@[b] == s[b]);
            } else if b == i {
                assert(self@[a] == s[a]);
            } else if a == i {
                assert(self@[b] == s[b - 1]);
                assert(ranks_before(p, s[i as int]));
                if b - 1 > i {
                    assert(ranks_before(s[i as int], s[b - 1]));
                }
            } else if a < i {
                assert(self@[a] == s[a] && self@[b] == s[b - 1]);
            } else {
                assert(self@[a] == s[a - 1] && self@[b] == s[b - 1]);
            }
        }
        assert forall|q: (Amount, Account)| #[trigger]
            self@.contains(q) <==> (s.contains(q) || q == p) by {
            if self@.contains(q) {
                let k = choose|k: int| 0 <= k < self@.len() && self@[k] == q;
                if k < i {
                    assert(s[k] == q);
                } else if k > i {
                    assert(s[k - 1] == q);
                }
            }
            if s.contains(q) {
                let k = choose|k: int| 0 <= k < s.len() && s[k] == q;
                if k < i {
                    assert(self@[k] == q);
                } else {
                    assert(self@[k + 1] == q);
                }
            }
            if q == p {
                assert(self@[i as int] == q);
            }
        }
    }

    /// The holders from rank `start` on (best first), at most `limit` of them.
    pub fn get_holders(&self, start: usize, limit: usize) -> (r: Vec<(Account, Amount)>)
        requires
            self.wf(),
        ensures
            r@ == holders_window(self@, start as int, limit as int),
            holders_ranked(r@),
    {
        let len = self.entries.len();
        let lo = if start < len { start } else { len };
        let hi = if limit < len - lo { lo + limit } else { len };
        let mut r: Vec<(Account, Amount)> = Vec::new();
        let mut i: usize = lo;
        while i < hi
            invariant
                lo <= i <= hi <= self@.len(),
                r@ == holders(self@.subrange(lo as int, i as int)),
            decreases hi - i,
        {
            let e = self.entries[i];
            r.push((e.1, e.0));
            assert(self@.subrange(lo as int, i + 1) =~= self@.subrange(lo as int, i as int).push(e));
            assert(r@ =~= holders(self@.subrange(lo as int, i + 1)));
            i = i + 1;
        }
        assert(r@ =~= holders_window(self@, start as int, limit as int));
        assert forall|a: int, b: int| 0 <= a < b < r@.len() implies #[trigger] r@[a].1
            > #[trigger] r@[b].1 || (r@[a].1 == r@[b].1 && account_lt(r@[a].0, r@[b].0)) by {
            assert(r@[a] == holder(self@[lo + a]));
            assert(r@[b] == holder(self@[lo + b]));
            assert(ranks_before(self@[lo + a], self@[lo + b]));
        }
        r
    }

    /// The holders whose amount lies between `max` and `min`, taken in either
    /// order, best first.
    pub fn get_holders_between(&self, max: Amount, min: Amount) -> (r: Vec<(Account, Amount)>)
        requires
            self.wf(),
        ensures
            r@ == holders_between(self@, max as int, min as int),
    {
        let hi = if max >= min { max } else { min };
        let lo = if max >= min { min } else { max };
        let mut r: Vec<(Account, Amount)> = Vec::new();
        let mut i: usize = 0;
        while i < self.entries.len()
            invariant
                i <= self@.len(),
                r@ == holders_in(self@.subrange(0, i as int), lo as int, hi as int),
            decreases self@.len() - i,
        {
            let e = self.entries[i];
            assert(self@.subrange(0, i + 1).drop_last() =~= self@.subrange(0, i as int));
            if lo <= e.0 && e.0 <= hi {
                r.push((e.1, e.0));
            }
            i = i + 1;
        }
        assert(self@.subrange(0, self@.len() as int) =~= self@);
        r
    }
}

} // verus!
