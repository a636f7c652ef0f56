use token::{Account, AuctionInfo, BiddingState, CanisterState, StatsData, TransferError, TxError};

fn acct(id: u128) -> Account {
    Account::new(16, id, 0)
}

fn stats() -> StatsData {
    StatsData {
        logo: "logo".to_string(),
        name: "Token".to_string(),
        symbol: "TKN".to_string(),
        decimals: 8,
        total_supply: 1_000,
        owner: acct(1),
        fee: 3,
        fee_to: acct(2),
        is_test_token: true,
    }
}

fn fresh() -> CanisterState {
    CanisterState::new(stats(), BiddingState::new(1_000, 100, 250_000))
}

#[test]
fn balances_and_index_agree_after_updates() {
    let mut s = fresh();
    s.set_balance(acct(1), 10);
    s.set_balance(acct(2), 20);
    s.set_balance(acct(3), 30);
    s.set_balance(acct(2), 5);
    s.set_balance(acct(1), 0);
    s.set_balance(acct(4), 0);
    let holders = s.balances_tree().get_holders(0, 100);
    assert_eq!(holders, vec![(acct(3), 30), (acct(2), 5)]);
    for (a, v) in holders.iter() {
        assert_eq!(s.balance_of(a), *v);
    }
    assert_eq!(s.balance_of(&acct(1)), 0);
    assert_eq!(s.balance_of(&acct(4)), 0);
    assert_eq!(s.balances().balance_of(&acct(3)), 30);
}

#[test]
fn unknown_account_has_zero_balance() {
    let s = fresh();
    assert_eq!(s.balance_of(&acct(77)), 0);
    assert!(s.balances_tree().get_holders(0, 10).is_empty());
}

#[test]
fn approve_twice_is_idempotent() {
    let mut s = fresh();
    s.approve(acct(1), acct(2), 40);
    let size = s.allowance_size();
    s.approve(acct(1), acct(2), 40);
    assert_eq!(s.allowance(acct(1), acct(2)), 40);
    assert_eq!(s.allowance_size(), size);
    assert_eq!(size, 1);
}

#[test]
fn holders_ranked_with_ties_by_account() {
    let mut s = fresh();
    s.set_balance(acct(5), 10);
    s.set_balance(acct(2), 30);
    s.set_balance(acct(9), 10);
    s.set_balance(acct(1), 10);
    let holders = s.balances_tree().get_holders(0, 4);
    assert_eq!(holders, vec![(acct(2), 30), (acct(1), 10), (acct(5), 10), (acct(9), 10)]);
    assert_eq!(s.balances_tree().get_holders(1, 2), vec![(acct(1), 10), (acct(5), 10)]);
    assert_eq!(s.balances_tree().get_holders(3, usize::MAX), vec![(acct(9), 10)]);
    assert!(s.balances_tree().get_holders(10, 2).is_empty());
}

#[test]
fn holders_between_ignores_bound_order() {
    let mut s = fresh();
    s.set_balance(acct(1), 5);
    s.set_balance(acct(2), 15);
    s.set_balance(acct(3), 25);
    s.set_balance(acct(4), 35);
    let a = s.balances_tree().get_holders_between(30, 10);
    let b = s.balances_tree().get_holders_between(10, 30);
    assert_eq!(a, vec![(acct(3), 25), (acct(2), 15)]);
    assert_eq!(a, b);
    assert_eq!(s.balances_tree().get_holders_between(25, 25), vec![(acct(3), 25)]);
    assert_eq!(s.balances_tree().get_holders_between(0, u128::MAX).len(), 4);
}

#[test]
fn auction_due_on_schedule() {
    let st = BiddingState::new(1_000, 100, 0);
    assert!(!st.is_auction_due(1_000));
    assert!(!st.is_auction_due(1_099));
    assert!(st.is_auction_due(1_100));
    assert!(st.is_auction_due(5_000));
}

#[test]
fn auction_never_due_past_timestamp_range() {
    let st = BiddingState::new(u64::MAX - 5, 10, 0);
    assert!(!st.is_auction_due(u64::MAX));
}

#[test]
fn complete_auction_only_when_due() {
    let mut s = fresh();
    s.place_bid(acct(1), 10);
    s.place_bid(acct(2), 20);
    s.place_bid(acct(1), 15);
    assert_eq!(s.bidding_state().bids, vec![(acct(1), 15), (acct(2), 20)]);
    let info = AuctionInfo {
        auction_time: 1_100,
        cycles_since_auction: 7,
        fee_ratio_ppm: 250_000,
        tokens_distributed: 12,
    };
    assert!(!s.complete_auction(1_050, info));
    assert_eq!(s.auction_history().0.len(), 0);
    assert_eq!(s.bidding_state().bids.len(), 2);
    assert!(s.complete_auction(1_100, info));
    assert_eq!(s.auction_history().0, vec![info]);
    assert!(s.bidding_state().bids.is_empty());
    assert_eq!(s.bidding_state().last_auction, 1_100);
    assert_eq!(s.bidding_state().cycles_since_auction, 0);
    assert!(!s.bidding_state().is_auction_due(1_199));
}

#[test]
fn translation_table() {
    assert_eq!(
        TransferError::from(TxError::FeeExceededLimit { fee_limit: 5 }),
        TransferError::BadFee { expected_fee: 5 }
    );
    assert_eq!(
        TransferError::from(TxError::Duplicate { duplicate_of: 42 }),
        TransferError::Duplicate { duplicate_of: 42 }
    );
    assert_eq!(
        TransferError::from(TxError::ClaimNotAllowed),
        TransferError::GenericError { error_code: 500, message: "Claim not Allowed".to_string() }
    );
}

#[test]
fn translation_keeps_standard_errors() {
    assert_eq!(
        TransferError::from_tx_error(TxError::BadFee { expected_fee: 9 }),
        TransferError::BadFee { expected_fee: 9 }
    );
    assert_eq!(
        TransferError::from_tx_error(TxError::InsufficientFunds { balance: 3 }),
        TransferError::InsufficientFunds { balance: 3 }
    );
    assert_eq!(
        TransferError::from_tx_error(TxError::TooOld { allowed_window_nanos: 60 }),
        TransferError::TooOld
    );
    assert_eq!(
        TransferError::from_tx_error(TxError::CreatedInFuture { ledger_time: 77 }),
        TransferError::CreatedInFuture { ledger_time: 77 }
    );
    assert_eq!(
        TransferError::from_tx_error(TxError::Duplicate { duplicate_of: u64::MAX }),
        TransferError::Duplicate { duplicate_of: u64::MAX as u128 }
    );
    assert_eq!(
        TransferError::from_tx_error(TxError::TemporaryUnavailable),
        TransferError::TemporarilyUnavailable
    );
}

#[test]
fn translation_generic_messages() {
    let cases = vec![
        (TxError::Unauthorized, "Unauthorized"),
        (TxError::AmountTooSmall, "Amount too small"),
        (TxError::AlreadyActioned, "Already actioned"),
        (TxError::TransactionDoesNotExist, "Transaction does not exist"),
        (TxError::SelfTransfer, "Self transfer"),
        (TxError::AmountOverflow, "Amount overflow"),
        (TxError::AccountNotFound, "Account is not found"),
        (TxError::GenericError { message: "boom".to_string() }, "boom"),
    ];
    for (err, text) in cases {
        assert_eq!(
            TransferError::from(err),
            TransferError::GenericError { error_code: 500, message: text.to_string() }
        );
    }
}

#[test]
fn error_messages_with_numbers() {
    assert_eq!(TxError::FeeExceededLimit { fee_limit: 5 }.message(), "Fee exceeded limit 5");
    assert_eq!(TxError::BadFee { expected_fee: 120 }.message(), "Bad fee 120");
    assert_eq!(TxError::InsufficientFunds { balance: 0 }.message(), "Insufficient funds : 0");
    assert_eq!(
        TxError::TooOld { allowed_window_nanos: 86_400 }.message(),
        "Transaction is too old : 86400"
    );
    assert_eq!(
        TxError::CreatedInFuture { ledger_time: 12 }.message(),
        "Transaction is created in the future 12"
    );
    assert_eq!(
        TxError::Duplicate { duplicate_of: 42 }.message(),
        "Transaction is duplicate of 42"
    );
    assert_eq!(TxError::TemporaryUnavailable.message(), "Temporary unavailable");
}

#[test]
fn approval_scenario() {
    let mut s = fresh();
    let (a, b) = (acct(1), acct(2));
    s.approve(a, b, 100);
    assert_eq!(s.allowance(a, b), 100);
    assert_eq!(s.user_approvals(a), vec![(b, 100)]);
    assert_eq!(s.allowance_size(), 1);
    s.approve(a, b, 0);
    assert_eq!(s.allowance(a, b), 0);
    assert_eq!(s.allowance_size(), 0);
}

#[test]
fn approvals_per_owner() {
    let mut s = fresh();
    s.approve(acct(1), acct(2), 10);
    s.approve(acct(3), acct(2), 20);
    s.approve(acct(1), acct(4), 30);
    s.approve(acct(1), acct(2), 15);
    let mut mine = s.user_approvals(acct(1));
    mine.sort_by_key(|p| p.0.hi);
    assert_eq!(mine, vec![(acct(2), 15), (acct(4), 30)]);
    assert!(s.user_approvals(acct(9)).is_empty());
    assert_eq!(s.allowance(acct(3), acct(4)), 0);
    assert_eq!(s.allowance(acct(8), acct(2)), 0);
    assert_eq!(s.allowance_size(), 3);
}

#[test]
fn holders_scenario() {
    let mut s = fresh();
    s.set_balance(acct(1), 50);
    s.set_balance(acct(2), 75);
    assert_eq!(s.balances_tree().get_holders(0, 2), vec![(acct(2), 75), (acct(1), 50)]);
}

#[test]
fn metadata_from_stats() {
    let s = fresh();
    let m = s.get_metadata();
    assert_eq!(m.logo, "logo");
    assert_eq!(m.name, "Token");
    assert_eq!(m.symbol, "TKN");
    assert_eq!(m.decimals, 8);
    assert_eq!(m.total_supply, 1_000);
    assert_eq!(m.owner, acct(1));
    assert_eq!(m.fee, 3);
    assert_eq!(m.fee_to, acct(2));
    assert_eq!(m.is_test_token, Some(true));
}

#[test]
fn upgrade_from_nothing_is_empty() {
    let s = CanisterState::upgrade(());
    assert_eq!(s.allowance_size(), 0);
    assert!(s.balances_tree().get_holders(0, usize::MAX).is_empty());
    assert!(s.auction_history().0.is_empty());
    assert_eq!(s.get_metadata().name, "");
    assert!(s.bidding_state().bids.is_empty());
    assert_eq!(s.bidding_state().cycles_since_auction, 0);
    assert_eq!(s.get_metadata().owner, Account::empty());
    assert_eq!(s.get_metadata().fee_to, Account::empty());
    assert_eq!(s.get_metadata().fee, 0);
    assert_eq!(s.get_metadata().is_test_token, Some(false));
    assert_eq!(s.bidding_state().auction_period, 0);
}

#[test]
fn balance_reads_back_last_setting() {
    let mut s = fresh();
    s.set_balance(acct(1), 10);
    s.set_balance(acct(2), 20);
    s.set_balance(acct(1), 0);
    s.set_balance(acct(3), 5);
    s.set_balance(acct(2), 25);
    assert_eq!(s.balance_of(&acct(1)), 0);
    assert_eq!(s.balance_of(&acct(2)), 25);
    assert_eq!(s.balance_of(&acct(3)), 5);
    assert!(s.balances_tree().get_holders(0, usize::MAX).iter().all(|p| p.0 != acct(1)));
}
