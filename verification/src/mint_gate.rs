//! The rate-limited minting gate.
//!
//! One persistent `MintGateRecord` exists per minting authority, created
//! lazily on the first mint and kept forever. It lets a mint fire at
//! most once per calendar day: a day is a fixed 86,400-second window, and
//! "today" is `floor(now / 86400)` for the timestamp `now` that the ledger
//! store supplies. The record update and the credit of the minted amount
//! form one atomic step — a failed mint leaves both untouched.

use vstd::prelude::*;

use crate::error::PeerTokenError;
use crate::ledger::credit;

verus! {

/// Seconds in one calendar day, the rate-limit window.
pub const SECONDS_PER_DAY: u64 = 86400;

/// Per-authority rate-limit state.
///
/// `last_mint_day` is the day number of the most recent successful mint;
/// a fresh record carries the sentinel `0`, meaning "never minted".
/// `total_mints` counts successful mints and only ever grows.
#[derive(Clone, Copy, Debug, PartialEq, Eq, Structural)]
pub struct MintGateRecord {
    pub last_mint_day: u64,
    pub total_mints: u64,
}

/// A read-only snapshot of the mint gate, for pre-flight checks and display.
#[derive(Clone, Copy, Debug, PartialEq, Eq, Structural)]
pub struct MintStatus {
    pub can_mint_today: bool,
    pub last_mint_day: u64,
    pub total_mints: u64,
}

impl MintGateRecord {
    /// The record an authority starts with before its first mint.
    pub fn new() -> (r: MintGateRecord)
        ensures
            r.last_mint_day == 0,
            r.total_mints == 0,
    {
        MintGateRecord { last_mint_day: 0, total_mints: 0 }
    }
}

/// The day number a timestamp falls on.
pub open spec fn day_of(now: u64) -> int {
    now as int / SECONDS_PER_DAY as int
}

/// Converts a timestamp (seconds since the epoch, as the ledger store's
/// clock reports it) into a day number.
pub fn get_current_day(now: u64) -> (day: u64)
    ensures
        day == day_of(now),
{
    now / SECONDS_PER_DAY
}

/// Whether a mint through this record may proceed on `current_day`.
///
/// A pure pre-flight predicate: it mutates nothing, and must never be
/// relied on for correctness, since a concurrent mint can overtake it
/// between the check and the attempt.
pub fn can_mint_today(record: &MintGateRecord, current_day: u64) -> (r: bool)
    ensures
        r == (record.last_mint_day != current_day),
{
    record.last_mint_day != current_day
}

/// A read-only snapshot of the mint gate on `current_day`.
pub fn get_mint_status(record: &MintGateRecord, current_day: u64) -> (s: MintStatus)
    ensures
        s.can_mint_today == (record.last_mint_day != current_day),
        s.last_mint_day == record.last_mint_day,
        s.total_mints == record.total_mints,
{
    MintStatus {
        can_mint_today: record.last_mint_day != current_day,
        last_mint_day: record.last_mint_day,
        total_mints: record.total_mints,
    }
}

/// Mints `amount` to the authority's balance, at most once per day.
///
/// Rejects a zero amount with `InvalidTransferAmount` and a repeated mint
/// on the record's `last_mint_day` with `AlreadyMintedToday`, both before
/// any state change. Otherwise it stamps the record with `current_day`,
/// increments `total_mints`, and credits the balance, as one atomic unit:
/// when the credit cannot be applied (the balance would overflow), the
/// whole operation fails and the record is left unchanged.
pub fn daily_mint(
    record: &mut MintGateRecord,
    current_day: u64,
    amount: u64,
    authority_balance: &mut u64,
) -> (r: Result<(), PeerTokenError>)
    requires
        old(record).total_mints < u64::MAX,
    ensures
        amount == 0 ==> r == Err::<(), PeerTokenError>(PeerTokenError::InvalidTransferAmount),
        amount > 0 && old(record).last_mint_day == current_day ==> r == Err::<(), PeerTokenError>(
            PeerTokenError::AlreadyMintedToday,
        ),
        amount > 0 && old(record).last_mint_day != current_day && *old(authority_balance) + amount
            > u64::MAX ==> r == Err::<(), PeerTokenError>(PeerTokenError::MathOverflow),
        amount > 0 && old(record).last_mint_day != current_day && *old(authority_balance) + amount
            <= u64::MAX ==> r == Ok::<(), PeerTokenError>(()) && *final(record) == (MintGateRecord {
            last_mint_day: current_day,
            total_mints: (old(record).total_mints + 1) as u64,
        }) && *final(authority_balance) == *old(authority_balance) + amount,
        r is Err ==> *final(record) == *old(record) && *final(authority_balance) == *old(
            authority_balance,
        ),
{
    if amount == 0 {
        return Err(PeerTokenError::InvalidTransferAmount);
    }
    if record.last_mint_day == current_day {
        return Err(PeerTokenError::AlreadyMintedToday);
    }
    let credited = credit(authority_balance, amount);
    match credited {
        Ok(_) => (),
        Err(e) => {
            return Err(e);
        },
    }
    record.last_mint_day = current_day;
    record.total_mints = record.total_mints + 1;
    Ok(())
}

} // verus!
