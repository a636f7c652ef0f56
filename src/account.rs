//! Account identities and token amounts.
use vstd::arithmetic::div_mod::lemma_small_mod;
use vstd::arithmetic::power2::{lemma_pow2_pos, pow2};
use vstd::prelude::*;

verus! {

/// A token quantity.
pub type Amount = u128;

/// An account identity: up to 29 bytes, written big-endian and zero-padded
/// into `hi` (bytes 0 to 15) and `lo` (bytes 16 to 31), with the byte count
/// in `len`.
#[derive(Clone, Copy, Debug, PartialEq, Eq, Structural, Hash)]
pub struct Account {
    pub len: u8,
    pub hi: u128,
    pub lo: u128,
}

/// The most bytes that an account identity holds.
pub const MAX_ACCOUNT_LEN: u8 = 29;

/// The order of accounts: by length, then by bytes.
pub open spec fn account_lt(a: Account, b: Account) -> bool {
    a.len < b.len || (a.len == b.len && (a.hi < b.hi || (a.hi == b.hi && a.lo < b.lo)))
}

impl Account {
    /// At most 29 bytes, and every byte past `len` is zero.
    pub open spec fn wf(&self) -> bool {
        &&& self.len <= MAX_ACCOUNT_LEN
        &&& if self.len <= 16 {
            &&& self.lo == 0
            &&& self.hi as nat % pow2((8 * (16 - self.len)) as nat) == 0
        } else {
            self.lo as nat % pow2((8 * (32 - self.len)) as nat) == 0
        }
    }

    pub fn new(len: u8, hi: u128, lo: u128) -> (r: Account)
        requires
            (Account { len, hi, lo }).wf(),
        ensures
            r == (Account { len, hi, lo }),
            r.wf(),
    {
        Account { len, hi, lo }
    }

    /// The account of no bytes.
    pub fn empty() -> (r: Account)
        ensures
            r == (Account { len: 0, hi: 0, lo: 0 }),
            r.wf(),
    {
        proof {
            lemma_pow2_pos(128);
            lemma_small_mod(0, pow2(128));
        }
        Account { len: 0, hi: 0, lo: 0 }
    }

    /// Whether `self` comes before `other` in the order of accounts.
    pub fn precedes(&self, other: &Account) -> (r: bool)
        ensures
            r == account_lt(*self, *other),
    {
        self.len < other.len || (self.len == other.len && (self.hi < other.hi || (self.hi
            == other.hi && self.lo < other.lo)))
    }
}

} // verus!
