//! The periodic fee auction: its schedule, the bids of the current cycle, and
//! the record of completed auctions.
use vstd::prelude::*;

use crate::account::Account;
use crate::assoc::{
    keys_unique, lemma_to_map_absent, lemma_to_map_push, lemma_to_map_update, to_map,
};

verus! {

/// Time in nanoseconds.
pub type Timestamp = u64;

/// The fee ratio that stands for a whole: `fee_ratio_ppm` is a fraction of it.
pub const FULL_RATIO_PPM: u64 = 1_000_000;

/// Bidding state of the periodic fee auction.
pub struct BiddingState {
    /// Share of the collected fees handed out at an auction, in millionths.
    pub fee_ratio_ppm: u64,
    pub last_auction: Timestamp,
    pub auction_period: Timestamp,
    pub cycles_since_auction: u64,
    /// The pledge of each bidder in the current cycle.
    pub bids: Vec<(Account, u64)>,
}

impl BiddingState {
    /// A state whose first auction falls due `auction_period` after `now`.
    pub fn new(now: Timestamp, auction_period: Timestamp, fee_ratio_ppm: u64) -> (r: BiddingState)
        requires
            fee_ratio_ppm <= FULL_RATIO_PPM,
        ensures
            r.last_auction == now,
            r.auction_period == auction_period,
            r.fee_ratio_ppm == fee_ratio_ppm,
            r.cycles_since_auction == 0,
            r.wf(),
            r.pledges() == Map::<Account, u64>::empty(),
    {
        BiddingState {
            fee_ratio_ppm,
            last_auction: now,
            auction_period,
            cycles_since_auction: 0,
            bids: Vec::new(),
        }
    }

    /// Each bidder has at most one pledge, and the fee ratio is at most a whole.
    pub open spec fn wf(&self) -> bool {
        &&& keys_unique(self.bids@)
        &&& self.fee_ratio_ppm <= FULL_RATIO_PPM
    }

    /// The pledge of each bidder.
    pub open spec fn pledges(&self) -> Map<Account, u64> {
        to_map(self.bids@)
    }

    /// Records the pledge of `bidder`, replacing an earlier one.
    pub fn place_bid(&mut self, bidder: Account, amount: u64)
        requires
            old(self).wf(),
        ensures
            final(self).wf(),
            final(self).pledges() == old(self).pledges().insert(bidder, amount),
            final(self).last_auction == old(self).last_auction,
            final(self).auction_period == old(self).auction_period,
            final(self).cycles_since_auction == old(self).cycles_since_auction,
            final(self).fee_ratio_ppm == old(self).fee_ratio_ppm,
    {
        let mut i: usize = 0;
        while i < self.bids.len()
            invariant
                i <= self.bids@.len(),
                *self == *old(self),
                self.wf(),
                forall|j: int| 0 <= j < i ==> self.bids@[j].0 != bidder,
            decreases self.bids@.len() - i,
        {
            if self.bids[i].0 == bidder {
                proof {
                    lemma_to_map_update(self.bids@, i as int, amount);
                }
                self.bids.set(i, (bidder, amount));
                assert(self.bids@ == old(self).bids@.update(i as int, (bidder, amount)));
                return;
            }
            i = i + 1;
        }
        proof {
            lemma_to_map_push(self.bids@, (bidder, amount));
            lemma_to_map_absent(self.bids@, bidder);
        }
        self.bids.push((bidder, amount));
    }

    /// Closes the auction held at `now`: the bids are cleared, the cycle
    /// count restarts and the next period starts at `now`.
    pub fn close_auction(&mut self, now: Timestamp)
        requires
            old(self).wf(),
        ensures
            final(self).wf(),
            final(self).pledges() == Map::<Account, u64>::empty(),
            final(self).last_auction == now,
            final(self).cycles_since_auction == 0,
            final(self).auction_period == old(self).auction_period,
            final(self).fee_ratio_ppm == old(self).fee_ratio_ppm,
    {
        self.bids = Vec::new();
        self.cycles_since_auction = 0;
        self.last_auction = now;
    }

    /// The auction is due at `now` iff `now` has reached the end of the period.
    pub open spec fn due_at(&self, now: int) -> bool {
        now >= self.last_auction as int + self.auction_period as int
    }

    /// Whether an auction is due at `now`: never when the end of the period
    /// lies beyond the range of timestamps.
    pub fn is_auction_due(&self, now: Timestamp) -> (r: bool)
        ensures
            r == self.due_at(now as int),
    {
        match self.last_auction.checked_add(self.auction_period) {
            Some(next) => now >= next,
            None => false,
        }
    }
}

/// Scheduling: with `auction_period >= 1`, the auction is not due at the time
/// of the last auction nor one tick before the period ends, and is due when it
/// ends.
pub proof fn lemma_auction_schedule(s: BiddingState)
    requires
        s.auction_period >= 1,
    ensures
        !s.due_at(s.last_auction as int),
        !s.due_at(s.last_auction + s.auction_period - 1),
        s.due_at(s.last_auction + s.auction_period),
{
}

/// What one completed auction recorded.
#[derive(Clone, Copy, Debug, PartialEq, Eq, Structural)]
pub struct AuctionInfo {
    pub auction_time: Timestamp,
    pub cycles_since_auction: u64,
    pub fee_ratio_ppm: u64,
    pub tokens_distributed: u128,
}

/// The completed auctions, oldest first; entries are only ever appended.
pub struct AuctionHistory(pub Vec<AuctionInfo>);

impl AuctionHistory {
    pub fn new() -> (r: AuctionHistory)
        ensures
            r.0@ == Seq::<AuctionInfo>::empty(),
    {
        AuctionHistory(Vec::new())
    }

    /// Records a completed auction after the earlier ones.
    pub fn append(&mut self, info: AuctionInfo)
        ensures
            final(self).0@ == old(self).0@.push(info),
    {
        self.0.push(info);
    }
}

} // verus!
