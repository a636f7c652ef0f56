//! The accounting core of a fungible token: balances with a ranking of
//! holders, allowances, the periodic fee auction, and the translation of the
//! ledger's errors to the standard transfer errors.

pub mod account;
pub mod allowances;
pub mod assoc;
pub mod auction;
pub mod balances;
pub mod error;
pub mod ranking;
pub mod state;

pub use account::{Account, Amount};
pub use allowances::Allowances;
pub use auction::{AuctionHistory, AuctionInfo, BiddingState, Timestamp};
pub use balances::Balances;
pub use error::{TransferError, TxError};
pub use ranking::BalancesTree;
pub use state::{CanisterState, Metadata, StatsData};
