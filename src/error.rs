//! Errors of the ledger and their translation to the standard transfer errors.
use vstd::prelude::*;
use vstd::string::StringExecFns;

use crate::account::Amount;
use crate::auction::Timestamp;

verus! {

/// The digit character for `d < 10`.
pub open spec fn digit(d: nat) -> char {
    seq!['0', '1', '2', '3', '4', '5', '6', '7', '8', '9'][d as int]
}

/// The decimal writing of `n`, without sign or leading zeros.
pub open spec fn decimal(n: nat) -> Seq<char>
    decreases n,
{
    if n < 10 {
        seq![digit(n)]
    } else {
        decimal(n / 10).push(digit(n % 10))
    }
}

/// Relies on `ToString` for `u128` (through `Display`): the decimal digits of
/// the number, with no sign and no padding.
#[verifier::external_body]
fn decimal_text(n: u128) -> (r: String)
    ensures
        r@ == decimal(n as nat),
{
    n.to_string()
}

/// Errors raised inside the ledger.
#[derive(Debug, Clone, PartialEq)]
pub enum TxError {
    Unauthorized,
    AmountTooSmall,
    FeeExceededLimit { fee_limit: Amount },
    AlreadyActioned,
    TransactionDoesNotExist,
    BadFee { expected_fee: Amount },
    InsufficientFunds { balance: Amount },
    TooOld { allowed_window_nanos: u64 },
    CreatedInFuture { ledger_time: u64 },
    Duplicate { duplicate_of: u64 },
    SelfTransfer,
    AmountOverflow,
    AccountNotFound,
    GenericError { message: String },
    ClaimNotAllowed,
    TemporaryUnavailable,
}

impl TxError {
    /// The human-readable description of the error.
    pub open spec fn text(&self) -> Seq<char> {
        match self {
            TxError::Unauthorized => "Unauthorized"@,
            TxError::AmountTooSmall => "Amount too small"@,
            TxError::FeeExceededLimit { fee_limit } => "Fee exceeded limit "@ + decimal(
                *fee_limit as nat,
            ),
            TxError::AlreadyActioned => "Already actioned"@,
            TxError::TransactionDoesNotExist => "Transaction does not exist"@,
            TxError::BadFee { expected_fee } => "Bad fee "@ + decimal(*expected_fee as nat),
            TxError::InsufficientFunds { balance } => "Insufficient funds : "@ + decimal(
                *balance as nat,
            ),
            TxError::TooOld { allowed_window_nanos } => "Transaction is too old : "@ + decimal(
                *allowed_window_nanos as nat,
            ),
            TxError::CreatedInFuture { ledger_time } => "Transaction is created in the future "@
                + decimal(*ledger_time as nat),
            TxError::Duplicate { duplicate_of } => "Transaction is duplicate of "@ + decimal(
                *duplicate_of as nat,
            ),
            TxError::SelfTransfer => "Self transfer"@,
            TxError::AmountOverflow => "Amount overflow"@,
            TxError::AccountNotFound => "Account is not found"@,
            TxError::GenericError { message } => message@,
            TxError::ClaimNotAllowed => "Claim not Allowed"@,
            TxError::TemporaryUnavailable => "Temporary unavailable"@,
        }
    }

    /// Renders the error as text.
    pub fn message(&self) -> (r: String)
        ensures
            r@ == self.text(),
    {
        match self {
            TxError::Unauthorized => String::from_str("Unauthorized"),
            TxError::AmountTooSmall => String::from_str("Amount too small"),
            TxError::FeeExceededLimit { fee_limit } => String::from_str("Fee exceeded limit ").concat(
                decimal_text(*fee_limit).as_str(),
            ),
            TxError::AlreadyActioned => String::from_str("Already actioned"),
            TxError::TransactionDoesNotExist => String::from_str("Transaction does not exist"),
            TxError::BadFee { expected_fee } => String::from_str("Bad fee ").concat(
                decimal_text(*expected_fee).as_str(),
            ),
            TxError::InsufficientFunds { balance } => String::from_str(
                "Insufficient funds : ",
            ).concat(decimal_text(*balance).as_str()),
            TxError::TooOld { allowed_window_nanos } => String::from_str(
                "Transaction is too old : ",
            ).concat(decimal_text(*allowed_window_nanos as u128).as_str()),
            TxError::CreatedInFuture { ledger_time } => String::from_str(
                "Transaction is created in the future ",
            ).concat(decimal_text(*ledger_time as u128).as_str()),
            TxError::Duplicate { duplicate_of } => String::from_str(
                "Transaction is duplicate of ",
            ).concat(decimal_text(*duplicate_of as u128).as_str()),
            TxError::SelfTransfer => String::from_str("Self transfer"),
            TxError::AmountOverflow => String::from_str("Amount overflow"),
            TxError::AccountNotFound => String::from_str("Account is not found"),
            TxError::GenericError { message } => message.clone(),
            TxError::ClaimNotAllowed => String::from_str("Claim not Allowed"),
            TxError::TemporaryUnavailable => String::from_str("Temporary unavailable"),
        }
    }
}

/// The standard errors of a transfer, as callers outside the ledger see them.
#[derive(Debug, Clone, PartialEq)]
pub enum TransferError {
    BadFee { expected_fee: Amount },
    BadBurn { min_burn_amount: Amount },
    InsufficientFunds { balance: Amount },
    TooOld,
    CreatedInFuture { ledger_time: Timestamp },
    Duplicate { duplicate_of: u128 },
    TemporarilyUnavailable,
    GenericError { error_code: u128, message: String },
}

/// `r` is the standard error for the ledger error `err`: the errors with a
/// standard counterpart keep their detail (a fee limit becomes the expected
/// fee, the age window is dropped); every other one becomes a generic error
/// with code 500 and the error's description.
pub open spec fn translates_to(err: TxError, r: TransferError) -> bool {
    match err {
        TxError::FeeExceededLimit { fee_limit } => r == TransferError::BadFee {
            expected_fee: fee_limit,
        },
        TxError::BadFee { expected_fee } => r == TransferError::BadFee { expected_fee },
        TxError::InsufficientFunds { balance } => r == TransferError::InsufficientFunds { balance },
        TxError::TooOld { .. } => r == TransferError::TooOld,
        TxError::CreatedInFuture { ledger_time } => r == TransferError::CreatedInFuture {
            ledger_time,
        },
        TxError::Duplicate { duplicate_of } => r == TransferError::Duplicate {
            duplicate_of: duplicate_of as u128,
        },
        TxError::TemporaryUnavailable => r == TransferError::TemporarilyUnavailable,
        _ => {
            &&& r is GenericError
            &&& r->error_code == 500
            &&& r->message@ == err.text()
        },
    }
}

impl TransferError {
    /// The standard error for a ledger error.
    pub fn from_tx_error(err: TxError) -> (r: TransferError)
        ensures
            translates_to(err, r),
    {
        match err {
            TxError::FeeExceededLimit { fee_limit } => TransferError::BadFee {
                expected_fee: fee_limit,
            },
            TxError::BadFee { expected_fee } => TransferError::BadFee { expected_fee },
            TxError::InsufficientFunds { balance } => TransferError::InsufficientFunds { balance },
            TxError::TooOld { .. } => TransferError::TooOld,
            TxError::CreatedInFuture { ledger_time } => TransferError::CreatedInFuture {
                ledger_time,
            },
            TxError::Duplicate { duplicate_of } => TransferError::Duplicate {
                duplicate_of: duplicate_of as u128,
            },
            TxError::TemporaryUnavailable => TransferError::TemporarilyUnavailable,
            _ => TransferError::GenericError { error_code: 500, message: err.message() },
        }
    }
}

impl From<TxError> for TransferError {
    fn from(err: TxError) -> (r: Self)
        ensures
            translates_to(err, r),
    {
        TransferError::from_tx_error(err)
    }
}

/// The message of a generic error is a `String`, which no spec value can name
/// exactly, so `from_spec` cannot give the result as one value; `from` states
/// the translation through `translates_to` instead.
impl vstd::std_specs::convert::FromSpecImpl<TxError> for TransferError {
    open spec fn obeys_from_spec() -> bool {
        false
    }

    open spec fn from_spec(v: TxError) -> Self {
        TransferError::TooOld
    }
}

} // verus!
