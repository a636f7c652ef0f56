//! The ledger state: balances with their ranking, allowances, the auction and
//! the token's metadata.
use vstd::prelude::*;

use crate::account::{Account, Amount};
use crate::allowances::{allowance_in, approved, owner_approvals, Allowances};
use crate::assoc::{keys_unique, to_map};
use crate::auction::{AuctionHistory, AuctionInfo, BiddingState, Timestamp};
use crate::balances::{balance_in, Balances};
use crate::ranking::BalancesTree;

verus! {

/// The token's descriptive data and fee settings.
pub struct StatsData {
    pub logo: String,
    pub name: String,
    pub symbol: String,
    pub decimals: u8,
    pub total_supply: Amount,
    pub owner: Account,
    pub fee: Amount,
    pub fee_to: Account,
    pub is_test_token: bool,
}

/// The token's metadata as callers see it.
pub struct Metadata {
    pub logo: String,
    pub name: String,
    pub symbol: String,
    pub decimals: u8,
    pub total_supply: Amount,
    pub owner: Account,
    pub fee: Amount,
    pub fee_to: Account,
    pub is_test_token: Option<bool>,
}

/// The balance store and the ranking index agree: each stored balance is
/// positive, and the index holds exactly the pairs (balance, account) of the
/// store.
pub open spec fn ledger_consistent(m: Map<Account, Amount>, t: Seq<(Amount, Account)>) -> bool {
    &&& forall|a: Account| #[trigger] m.contains_key(a) ==> m[a] > 0
    &&& forall|p: (Amount, Account)| #[trigger]
        t.contains(p) <==> (m.contains_key(p.1) && m[p.1] == p.0)
}

pub struct CanisterState {
    bidding_state: BiddingState,
    balances: Balances,
    balances_tree: BalancesTree,
    auction_history: AuctionHistory,
    stats: StatsData,
    allowances: Allowances,
}

impl CanisterState {
    pub closed spec fn wf(&self) -> bool {
        &&& self.balances.wf()
        &&& self.balances_tree.wf()
        &&& self.allowances.wf()
        &&& self.bidding_state.wf()
        &&& ledger_consistent(self.balances@, self.balances_tree@)
    }

    /// The balance of each account that holds any.
    pub closed spec fn balance_map(&self) -> Map<Account, Amount> {
        self.balances@
    }

    /// The ranking index, best ranked first.
    pub closed spec fn ranking(&self) -> Seq<(Amount, Account)> {
        self.balances_tree@
    }

    /// The allowance of each (owner, spender) pair that has one.
    pub closed spec fn allowance_map(&self) -> Map<(Account, Account), Amount> {
        self.allowances@
    }

    pub closed spec fn bidding(&self) -> BiddingState {
        self.bidding_state
    }

    pub closed spec fn stats_data(&self) -> &StatsData {
        &self.stats
    }

    /// A state with no balances, allowances or auctions.
    pub open spec fn is_empty(&self) -> bool {
        &&& self.balance_map() == Map::<Account, Amount>::empty()
        &&& self.ranking() == Seq::<(Amount, Account)>::empty()
        &&& self.allowance_map() == Map::<(Account, Account), Amount>::empty()
        &&& self.history() == Seq::<AuctionInfo>::empty()
    }

    /// The completed auctions, oldest first.
    pub closed spec fn history(&self) -> Seq<AuctionInfo> {
        self.auction_history.0@
    }

    /// A fresh state for a token described by `stats`.
    pub fn new(stats: StatsData, bidding_state: BiddingState) -> (r: CanisterState)
        requires
            bidding_state.wf(),
        ensures
            r.wf(),
            r.is_empty(),
            r.stats_data() == stats,
            r.bidding() == bidding_state,
    {
        CanisterState {
            bidding_state,
            balances: Balances::new(),
            balances_tree: BalancesTree::new(),
            auction_history: AuctionHistory::new(),
            stats,
            allowances: Allowances::new(),
        }
    }

    /// The state after an upgrade from a version that kept nothing: empty.
    pub fn upgrade(previous: ()) -> (r: CanisterState)
        ensures
            r.wf(),
            r.is_empty(),
            r.bidding().pledges() == Map::<Account, u64>::empty(),
            r.bidding().cycles_since_auction == 0,
            r.bidding().last_auction == 0,
            r.bidding().auction_period == 0,
            r.bidding().fee_ratio_ppm == 0,
            r.stats_data().logo@ == Seq::<char>::empty(),
            r.stats_data().name@ == Seq::<char>::empty(),
            r.stats_data().symbol@ == Seq::<char>::empty(),
            r.stats_data().decimals == 0,
            r.stats_data().total_supply == 0,
            r.stats_data().owner == (Account { len: 0, hi: 0, lo: 0 }),
            r.stats_data().fee == 0,
            r.stats_data().fee_to == (Account { len: 0, hi: 0, lo: 0 }),
            !r.stats_data().is_test_token,
    {
        let stats = StatsData {
            logo: String::new(),
            name: String::new(),
            symbol: String::new(),
            decimals: 0,
            total_supply: 0,
            owner: Account::empty(),
            fee: 0,
            fee_to: Account::empty(),
            is_test_token: false,
        };
        CanisterState::new(stats, BiddingState::new(0, 0, 0))
    }

    pub fn get_metadata(&self) -> (r: Metadata)
        ensures
            r.logo == self.stats_data().logo,
            r.name == self.stats_data().name,
            r.symbol == self.stats_data().symbol,
            r.decimals == self.stats_data().decimals,
            r.total_supply == self.stats_data().total_supply,
            r.owner == self.stats_data().owner,
            r.fee == self.stats_data().fee,
            r.fee_to == self.stats_data().fee_to,
            r.is_test_token == Some(self.stats_data().is_test_token),
    {
        Metadata {
            logo: self.stats.logo.clone(),
            name: self.stats.name.clone(),
            symbol: self.stats.symbol.clone(),
            decimals: self.stats.decimals,
            total_supply: self.stats.total_supply,
            owner: self.stats.owner,
            fee: self.stats.fee,
            fee_to: self.stats.fee_to,
            is_test_token: Some(self.stats.is_test_token),
        }
    }

    pub fn balances(&self) -> (r: &Balances)
        requires
            self.wf(),
        ensures
            r.wf(),
            r@ == self.balance_map(),
    {
        &self.balances
    }

    pub fn balances_tree(&self) -> (r: &BalancesTree)
        requires
            self.wf(),
        ensures
            r.wf(),
            r@ == self.ranking(),
    {
        &self.balances_tree
    }

    pub fn bidding_state(&self) -> (r: &BiddingState)
        ensures
            *r == self.bidding(),
    {
        &self.bidding_state
    }

    pub fn auction_history(&self) -> (r: &AuctionHistory)
        ensures
            r.0@ == self.history(),
    {
        &self.auction_history
    }

    /// The balance of `who`; zero for an unknown account.
    pub fn balance_of(&self, who: &Account) -> (r: Amount)
        requires
            self.wf(),
        ensures
            r as nat == balance_in(self.balance_map(), *who),
    {
        self.balances.balance_of(who)
    }

    /// Sets the balance of `who`, in the store and in the ranking index
    /// together; a zero balance removes the account from both.
    pub fn set_balance(&mut self, who: Account, amount: Amount)
        requires
            old(self).wf(),
        ensures
            final(self).wf(),
            ledger_consistent(final(self).balance_map(), final(self).ranking()),
            final(self).balance_map() == (if amount == 0 {
                old(self).balance_map().remove(who)
            } else {
                old(self).balance_map().insert(who, amount)
            }),
            final(self).allowance_map() == old(self).allowance_map(),
            final(self).stats_data() == old(self).stats_data(),
            final(self).bidding() == old(self).bidding(),
            final(self).history() == old(self).history(),
    {
        proof {
            self.balances.lemma_positive();
        }
        let previous = self.balances.balance_of(&who);
        let ghost m0 = self.balances@;
        let ghost t0 = self.balances_tree@;
        if previous > 0 {
            self.balances_tree.remove_pair((previous, who));
        }
        let ghost t1 = self.balances_tree@;
        assert forall|q: (Amount, Account)| #[trigger] t1.contains(q) <==> (t0.contains(q) && q.1
            != who) by {
            if t0.contains(q) && q.1 == who {
                assert(m0.contains_key(who) && m0[who] == q.0);
            }
        }
        self.balances.set(who, amount);
        if amount > 0 {
            self.balances_tree.insert_pair((amount, who));
        }
        proof {
            self.balances.lemma_positive();
        }
    }

    /// Records the pledge of `bidder` for the current auction, replacing an
    /// earlier one.
    pub fn place_bid(&mut self, bidder: Account, amount: u64)
        requires
            old(self).wf(),
        ensures
            final(self).wf(),
            final(self).bidding().pledges() == old(self).bidding().pledges().insert(bidder, amount),
            final(self).bidding().last_auction == old(self).bidding().last_auction,
            final(self).bidding().auction_period == old(self).bidding().auction_period,
            final(self).history() == old(self).history(),
            final(self).balance_map() == old(self).balance_map(),
            final(self).ranking() == old(self).ranking(),
            final(self).allowance_map() == old(self).allowance_map(),
            final(self).stats_data() == old(self).stats_data(),
    {
        self.bidding_state.place_bid(bidder, amount);
    }

    /// Settles the auction at `now` when it is due: `info` is appended to the
    /// history, the bids are cleared, the cycle count restarts and the next
    /// period starts at `now`. When it is not due nothing changes and the
    /// result is false.
    pub fn complete_auction(&mut self, now: Timestamp, info: AuctionInfo) -> (r: bool)
        requires
            old(self).wf(),
        ensures
            final(self).wf(),
            r == old(self).bidding().due_at(now as int),
            r ==> {
                &&& final(self).history() == old(self).history().push(info)
                &&& final(self).bidding().pledges() == Map::<Account, u64>::empty()
                &&& final(self).bidding().last_auction == now
                &&& final(self).bidding().cycles_since_auction == 0
                &&& final(self).bidding().auction_period == old(self).bidding().auction_period
            },
            !r ==> *final(self) == *old(self),
            final(self).balance_map() == old(self).balance_map(),
            final(self).ranking() == old(self).ranking(),
            final(self).allowance_map() == old(self).allowance_map(),
            final(self).stats_data() == old(self).stats_data(),
    {
        if !self.bidding_state.is_auction_due(now) {
            return false;
        }
        self.bidding_state.close_auction(now);
        self.auction_history.append(info);
        true
    }

    /// What `spender` may move for `owner`; zero when nothing was approved.
    pub fn allowance(&self, owner: Account, spender: Account) -> (r: Amount)
        requires
            self.wf(),
        ensures
            r as nat == allowance_in(self.allowance_map(), owner, spender),
    {
        self.allowances.get(&owner, &spender)
    }

    /// Sets the allowance of `spender` on `owner`'s tokens; zero removes it.
    pub fn approve(&mut self, owner: Account, spender: Account, amount: Amount)
        requires
            old(self).wf(),
        ensures
            final(self).wf(),
            final(self).allowance_map() == approved(old(self).allowance_map(), owner, spender, amount),
            final(self).balance_map() == old(self).balance_map(),
            final(self).ranking() == old(self).ranking(),
            final(self).stats_data() == old(self).stats_data(),
            final(self).bidding() == old(self).bidding(),
            final(self).history() == old(self).history(),
    {
        self.allowances.approve(owner, spender, amount);
    }

    /// The number of (owner, spender) pairs with an allowance.
    pub fn allowance_size(&self) -> (r: usize)
        requires
            self.wf(),
        ensures
            self.allowance_map().dom().finite(),
            r as nat == self.allowance_map().dom().len(),
    {
        proof {
            self.allowances.lemma_positive();
        }
        self.allowances.size()
    }

    /// The approvals that `who` has given, each spender once, in no particular
    /// order.
    pub fn user_approvals(&self, who: Account) -> (r: Vec<(Account, Amount)>)
        requires
            self.wf(),
        ensures
            keys_unique(r@),
            to_map(r@) == owner_approvals(self.allowance_map(), who),
    {
        self.allowances.approvals_of(&who)
    }
}

/// The store after setting, in order, each (account, amount) of `ops`, as
/// `set_balance` does.
pub open spec fn after_sets(m: Map<Account, Amount>, ops: Seq<(Account, Amount)>) -> Map<
    Account,
    Amount,
>
    decreases ops.len(),
{
    if ops.len() == 0 {
        m
    } else {
        let before = after_sets(m, ops.drop_last());
        if ops.last().1 == 0 {
            before.remove(ops.last().0)
        } else {
            before.insert(ops.last().0, ops.last().1)
        }
    }
}

/// The amount last set for `who` in `ops`, or its balance in `m` when `ops`
/// never sets it.
pub open spec fn last_set(m: Map<Account, Amount>, ops: Seq<(Account, Amount)>, who: Account) -> nat
    decreases ops.len(),
{
    if ops.len() == 0 {
        balance_in(m, who)
    } else if ops.last().0 == who {
        ops.last().1 as nat
    } else {
        last_set(m, ops.drop_last(), who)
    }
}

/// After any sequence of balance settings, an account's balance reads back as
/// the amount last set for it (zero after a setting to zero), or as before
/// when the sequence never sets it.
pub proof fn lemma_balance_reads_last_set(
    m: Map<Account, Amount>,
    ops: Seq<(Account, Amount)>,
    who: Account,
)
    ensures
        balance_in(after_sets(m, ops), who) == last_set(m, ops, who),
    decreases ops.len(),
{
    if ops.len() > 0 {
        lemma_balance_reads_last_set(m, ops.drop_last(), who);
    }
}

/// An account without a stored balance has no pair in the ranking index.
pub proof fn lemma_unfunded_not_ranked(s: &CanisterState, who: Account)
    requires
        s.wf(),
        !s.balance_map().contains_key(who),
    ensures
        forall|v: Amount| !s.ranking().contains((v, who)),
{
    assert forall|v: Amount| !s.ranking().contains((v, who)) by {
        assert(s.ranking().contains((v, who)) ==> s.balance_map().contains_key(who));
    }
}

/// In every well-formed state the allowance table is finite and every stored
/// allowance is positive.
pub proof fn lemma_allowances_positive(s: &CanisterState)
    requires
        s.wf(),
    ensures
        s.allowance_map().dom().finite(),
        forall|k: (Account, Account)| #[trigger]
            s.allowance_map().contains_key(k) ==> s.allowance_map()[k] > 0,
{
    s.allowances.lemma_positive();
}

/// In every well-formed state, and so after any sequence of `set_balance`
/// calls from a fresh one, the balance store and the ranking index agree.
pub proof fn lemma_ledger_consistent(s: &CanisterState)
    requires
        s.wf(),
    ensures
        ledger_consistent(s.balance_map(), s.ranking()),
{
}

} // verus!
