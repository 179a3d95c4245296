use peer_token::error::PeerTokenError;
use peer_token::mint_gate::MintGateRecord;
use peer_token::mint_gate::MintStatus;
use peer_token::mint_gate::can_mint_today;
use peer_token::mint_gate::daily_mint;
use peer_token::mint_gate::get_current_day;
use peer_token::mint_gate::get_mint_status;

#[test]
fn current_day_is_floor_of_timestamp() {
    assert_eq!(get_current_day(0), 0);
    assert_eq!(get_current_day(86399), 0);
    assert_eq!(get_current_day(86400), 1);
    assert_eq!(get_current_day(86401), 1);
    assert_eq!(get_current_day(86400 * 20077 + 12345), 20077);
}

#[test]
fn fresh_record_has_never_minted() {
    let record = MintGateRecord::new();
    assert_eq!(record.last_mint_day, 0);
    assert_eq!(record.total_mints, 0);
    assert!(can_mint_today(&record, 20077));
}

#[test]
fn mint_on_same_day_fails_and_changes_nothing() {
    let day: u64 = 19000;
    let mut record = MintGateRecord { last_mint_day: day, total_mints: 3 };
    let mut balance: u64 = 500;
    let result = daily_mint(&mut record, day, 40, &mut balance);
    assert_eq!(result, Err(PeerTokenError::AlreadyMintedToday));
    assert_eq!(record, MintGateRecord { last_mint_day: day, total_mints: 3 });
    assert_eq!(balance, 500);
}

#[test]
fn mint_on_next_day_succeeds_and_updates_record() {
    let day: u64 = 19000;
    let mut record = MintGateRecord { last_mint_day: day, total_mints: 3 };
    let mut balance: u64 = 500;
    let result = daily_mint(&mut record, day + 1, 40, &mut balance);
    assert_eq!(result, Ok(()));
    assert_eq!(record.last_mint_day, day + 1);
    assert_eq!(record.total_mints, 4);
    assert_eq!(balance, 540);
}

#[test]
fn first_mint_then_retry_then_next_day() {
    let mut record = MintGateRecord::new();
    let mut balance: u64 = 0;
    let day = get_current_day(86400 * 5 + 7);
    assert_eq!(day, 5);

    assert_eq!(daily_mint(&mut record, day, 1000, &mut balance), Ok(()));
    assert_eq!(balance, 1000);
    assert_eq!(record.last_mint_day, 5);
    assert_eq!(record.total_mints, 1);
    assert!(!can_mint_today(&record, day));

    assert_eq!(
        daily_mint(&mut record, day, 1000, &mut balance),
        Err(PeerTokenError::AlreadyMintedToday)
    );
    assert_eq!(balance, 1000);
    assert_eq!(record.total_mints, 1);

    assert_eq!(daily_mint(&mut record, day + 1, 500, &mut balance), Ok(()));
    assert_eq!(balance, 1500);
    assert_eq!(record.last_mint_day, 6);
    assert_eq!(record.total_mints, 2);
}

#[test]
fn zero_amount_is_invalid_transfer_amount() {
    let mut record = MintGateRecord { last_mint_day: 10, total_mints: 1 };
    let mut balance: u64 = 7;
    let result = daily_mint(&mut record, 11, 0, &mut balance);
    assert_eq!(result, Err(PeerTokenError::InvalidTransferAmount));
    assert_eq!(record, MintGateRecord { last_mint_day: 10, total_mints: 1 });
    assert_eq!(balance, 7);
}

#[test]
fn failed_credit_leaves_record_untouched() {
    let mut record = MintGateRecord { last_mint_day: 10, total_mints: 1 };
    let mut balance: u64 = u64::MAX;
    let result = daily_mint(&mut record, 11, 1, &mut balance);
    assert_eq!(result, Err(PeerTokenError::MathOverflow));
    assert_eq!(record, MintGateRecord { last_mint_day: 10, total_mints: 1 });
    assert_eq!(balance, u64::MAX);
}

#[test]
fn mint_status_snapshots_the_gate() {
    let record = MintGateRecord { last_mint_day: 42, total_mints: 9 };
    let on_mint_day = get_mint_status(&record, 42);
    assert_eq!(
        on_mint_day,
        MintStatus { can_mint_today: false, last_mint_day: 42, total_mints: 9 }
    );
    let day_after = get_mint_status(&record, 43);
    assert_eq!(
        day_after,
        MintStatus { can_mint_today: true, last_mint_day: 42, total_mints: 9 }
    );
}
