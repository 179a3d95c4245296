//! Balance-level primitives of the ledger store.
//!
//! The persistent store that keys accounts, checks signatures and holds
//! balances is an external collaborator. The core sees one account as its
//! identity plus a plain `u64` balance handed in by the store, and the two
//! primitives it relies on — `debit` and `credit` — act on that balance
//! with exact contracts. A failed primitive leaves the balance untouched.

use vstd::prelude::*;

use crate::error::PeerTokenError;

verus! {

/// The identity of an account or authority in the ledger store. The core
/// only ever compares identities for equality; their representation is the
/// store's concern.
#[derive(Clone, Copy, Debug, PartialEq, Eq, Structural)]
pub struct AccountId(pub u64);

/// Removes `amount` from a balance. Fails with `InsufficientFunds`, leaving
/// the balance unchanged, when the balance does not cover the amount.
pub fn debit(balance: &mut u64, amount: u64) -> (r: Result<(), PeerTokenError>)
    ensures
        amount > *old(balance) ==> r == Err::<(), PeerTokenError>(PeerTokenError::InsufficientFunds)
            && *final(balance) == *old(balance),
        amount <= *old(balance) ==> r == Ok::<(), PeerTokenError>(()) && *final(balance) == *old(
            balance,
        ) - amount,
{
    if amount > *balance {
        return Err(PeerTokenError::InsufficientFunds);
    }
    *balance = *balance - amount;
    Ok(())
}

/// Adds `amount` to a balance. Fails with `MathOverflow`, leaving the
/// balance unchanged, when the sum does not fit a `u64`.
pub fn credit(balance: &mut u64, amount: u64) -> (r: Result<(), PeerTokenError>)
    ensures
        *old(balance) + amount > u64::MAX ==> r == Err::<(), PeerTokenError>(
            PeerTokenError::MathOverflow,
        ) && *final(balance) == *old(balance),
        *old(balance) + amount <= u64::MAX ==> r == Ok::<(), PeerTokenError>(()) && *final(balance)
            == *old(balance) + amount,
{
    if amount > u64::MAX - *balance {
        return Err(PeerTokenError::MathOverflow);
    }
    *balance = *balance + amount;
    Ok(())
}

/// A simple point-to-point transfer: moves `amount` from a source balance
/// to a destination balance.
///
/// Fails with `InsufficientAmount` on a zero amount, with
/// `InsufficientFunds` when the source does not cover the amount, and with
/// `MathOverflow` when the destination cannot absorb it. On any failure
/// neither balance changes.
pub fn transfer_tokens(source_balance: &mut u64, destination_balance: &mut u64, amount: u64) -> (r:
    Result<(), PeerTokenError>)
    ensures
        amount == 0 ==> r == Err::<(), PeerTokenError>(PeerTokenError::InsufficientAmount),
        amount > 0 && amount > *old(source_balance) ==> r == Err::<(), PeerTokenError>(
            PeerTokenError::InsufficientFunds,
        ),
        amount > 0 && amount <= *old(source_balance) && *old(destination_balance) + amount
            > u64::MAX ==> r == Err::<(), PeerTokenError>(PeerTokenError::MathOverflow),
        amount > 0 && amount <= *old(source_balance) && *old(destination_balance) + amount
            <= u64::MAX ==> r == Ok::<(), PeerTokenError>(()) && *final(source_balance) == *old(
            source_balance,
        ) - amount && *final(destination_balance) == *old(destination_balance) + amount,
        r is Err ==> *final(source_balance) == *old(source_balance) && *final(destination_balance)
            == *old(destination_balance),
{
    if amount == 0 {
        return Err(PeerTokenError::InsufficientAmount);
    }
    if amount > *source_balance {
        return Err(PeerTokenError::InsufficientFunds);
    }
    if amount > u64::MAX - *destination_balance {
        return Err(PeerTokenError::MathOverflow);
    }
    let debited = debit(source_balance, amount);
    match debited {
        Ok(_) => (),
        Err(e) => {
            return Err(e);
        },
    }
    let credited = credit(destination_balance, amount);
    match credited {
        Ok(_) => Ok(()),
        Err(e) => Err(e),
    }
}

} // verus!
