use peer_token::error::PeerTokenError;
use peer_token::ledger::credit;
use peer_token::ledger::debit;
use peer_token::ledger::transfer_tokens;

#[test]
fn debit_removes_the_amount() {
    let mut balance: u64 = 100;
    assert_eq!(debit(&mut balance, 30), Ok(()));
    assert_eq!(balance, 70);
    assert_eq!(debit(&mut balance, 70), Ok(()));
    assert_eq!(balance, 0);
}

#[test]
fn debit_over_balance_fails_unchanged() {
    let mut balance: u64 = 100;
    assert_eq!(debit(&mut balance, 101), Err(PeerTokenError::InsufficientFunds));
    assert_eq!(balance, 100);
}

#[test]
fn credit_adds_the_amount() {
    let mut balance: u64 = 100;
    assert_eq!(credit(&mut balance, 30), Ok(()));
    assert_eq!(balance, 130);
    assert_eq!(credit(&mut balance, u64::MAX - 130), Ok(()));
    assert_eq!(balance, u64::MAX);
}

#[test]
fn credit_overflow_fails_unchanged() {
    let mut balance: u64 = u64::MAX - 5;
    assert_eq!(credit(&mut balance, 6), Err(PeerTokenError::MathOverflow));
    assert_eq!(balance, u64::MAX - 5);
}

#[test]
fn transfer_moves_tokens_between_balances() {
    let mut source: u64 = 500;
    let mut destination: u64 = 20;
    assert_eq!(transfer_tokens(&mut source, &mut destination, 80), Ok(()));
    assert_eq!(source, 420);
    assert_eq!(destination, 100);
}

#[test]
fn transfer_of_zero_is_insufficient_amount() {
    let mut source: u64 = 500;
    let mut destination: u64 = 20;
    assert_eq!(
        transfer_tokens(&mut source, &mut destination, 0),
        Err(PeerTokenError::InsufficientAmount)
    );
    assert_eq!(source, 500);
    assert_eq!(destination, 20);
}

#[test]
fn transfer_over_balance_is_insufficient_funds() {
    let mut source: u64 = 500;
    let mut destination: u64 = 20;
    assert_eq!(
        transfer_tokens(&mut source, &mut destination, 501),
        Err(PeerTokenError::InsufficientFunds)
    );
    assert_eq!(source, 500);
    assert_eq!(destination, 20);
}

#[test]
fn transfer_overflowing_destination_changes_nothing() {
    let mut source: u64 = 500;
    let mut destination: u64 = u64::MAX - 10;
    assert_eq!(
        transfer_tokens(&mut source, &mut destination, 11),
        Err(PeerTokenError::MathOverflow)
    );
    assert_eq!(source, 500);
    assert_eq!(destination, u64::MAX - 10);
}
