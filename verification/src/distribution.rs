//! The proportional distribution state machine.
//!
//! One batch is one `DistributionRecord`: created open by `init_distribution`
//! against a committed total weight, paid out by one `execute_distribution`
//! call per recipient, and closed by `finalize_distribution`. Every payout is
//! the recipient's weight taken proportionally out of the pooled source
//! balance, through the percentage calculator. The record is an audit trail:
//! it is never deleted, and its `finalized` flag only ever goes from false to
//! true.
//!
//! The record does not track which recipients have already been paid within
//! a batch; that accounting is the caller's responsibility.

use vstd::prelude::*;

use crate::error::PeerTokenError;
use crate::ledger::AccountId;
use crate::ledger::credit;
use crate::ledger::debit;
use crate::percentage::amount_for_percentage;
use crate::percentage::amount_of;
use crate::percentage::lemma_amount_of_le_balance;
use crate::percentage::lemma_pct_of_bounds;
use crate::percentage::pct_of;
use crate::percentage::percentage_of;

verus! {

/// The most recipients one batch may declare.
pub const MAX_RECIPIENTS: u16 = 100;

/// One distribution batch.
///
/// `authority` alone may execute and finalize the batch; `source_account`
/// names the pooled balance the payouts come from; `total_weight` is the
/// committed sum of all recipients' weights. All three are fixed at
/// creation. `recipient_count` is an informational cap, and `created_at`
/// the creation timestamp the ledger store reported.
#[derive(Clone, Copy, Debug, PartialEq, Eq, Structural)]
pub struct DistributionRecord {
    pub authority: AccountId,
    pub source_account: AccountId,
    pub total_weight: u64,
    pub recipient_count: u16,
    pub finalized: bool,
    pub created_at: i64,
}

/// One recipient's claim within a batch, supplied per execute call and
/// never stored: the destination account and its relative weight.
#[derive(Clone, Copy, Debug, PartialEq, Eq, Structural)]
pub struct RecipientShare {
    pub destination_account: AccountId,
    pub weight: u64,
}

impl DistributionRecord {
    /// What `init_distribution` establishes and every later operation
    /// preserves: a positive committed total and a recipient count within
    /// the cap.
    pub open spec fn well_formed(self) -> bool {
        self.total_weight > 0 && 0 < self.recipient_count <= MAX_RECIPIENTS
    }
}

/// The amount one execute call pays out: the weight's truncated percentage
/// of the committed total, taken from the source balance.
pub open spec fn payout_of(source_balance: int, weight: int, total_weight: int) -> int {
    amount_of(source_balance, pct_of(weight, total_weight))
}

/// Opens a new distribution batch.
///
/// Rejects a zero total weight with `InvalidWeightTotal`, a zero recipient
/// count with `NoRecipients`, and a count over the cap with
/// `TooManyRecipients`, in that order. Otherwise the new record is open
/// (not finalized), bound to the given authority and source account, and
/// carries the committed total unchanged.
pub fn init_distribution(
    authority: AccountId,
    source_account: AccountId,
    total_weight: u64,
    recipient_count: u16,
    created_at: i64,
) -> (r: Result<DistributionRecord, PeerTokenError>)
    ensures
        total_weight == 0 ==> r == Err::<DistributionRecord, PeerTokenError>(
            PeerTokenError::InvalidWeightTotal,
        ),
        total_weight > 0 && recipient_count == 0 ==> r == Err::<DistributionRecord, PeerTokenError>(
            PeerTokenError::NoRecipients,
        ),
        total_weight > 0 && recipient_count > MAX_RECIPIENTS ==> r == Err::<
            DistributionRecord,
            PeerTokenError,
        >(PeerTokenError::TooManyRecipients),
        total_weight > 0 && 0 < recipient_count <= MAX_RECIPIENTS ==> r == Ok::<
            DistributionRecord,
            PeerTokenError,
        >(
            DistributionRecord {
                authority,
                source_account,
                total_weight,
                recipient_count,
                finalized: false,
                created_at,
            },
        ),
        r matches Ok(record) ==> record.well_formed(),
{
    if total_weight == 0 {
        return Err(PeerTokenError::InvalidWeightTotal);
    }
    if recipient_count == 0 {
        return Err(PeerTokenError::NoRecipients);
    }
    if recipient_count > MAX_RECIPIENTS {
        return Err(PeerTokenError::TooManyRecipients);
    }
    Ok(
        DistributionRecord {
            authority,
            source_account,
            total_weight,
            recipient_count,
            finalized: false,
            created_at,
        },
    )
}

/// Pays one recipient its proportional share of the source balance.
///
/// The record must still be open and the caller must be its authority;
/// the share's weight must be positive and at most the committed total.
/// The payout is `weight`'s truncated percentage of the total, applied to
/// the source balance as it stands at this call; a payout that truncates
/// to zero is rejected with `InsufficientAmount` (the dust case), and one
/// the destination cannot absorb with `MathOverflow`. On success the
/// source is debited and the destination credited by exactly the returned
/// amount, as one atomic unit; on any failure neither balance changes.
///
/// The record itself is not touched: executing does not mark recipients,
/// so repeated calls for one recipient are possible and unguarded.
pub fn execute_distribution(
    record: &DistributionRecord,
    caller: AccountId,
    share: RecipientShare,
    source_balance: &mut u64,
    destination_balance: &mut u64,
) -> (r: Result<u64, PeerTokenError>)
    ensures
        record.finalized ==> r == Err::<u64, PeerTokenError>(
            PeerTokenError::DistributionAlreadyFinalized,
        ),
        !record.finalized && caller != record.authority ==> r == Err::<u64, PeerTokenError>(
            PeerTokenError::InvalidAuthority,
        ),
        !record.finalized && caller == record.authority && !(0 < share.weight
            <= record.total_weight) ==> r == Err::<u64, PeerTokenError>(
            PeerTokenError::InvalidGemCount,
        ),
        !record.finalized && caller == record.authority && 0 < share.weight <= record.total_weight
            ==> {
            let payout = payout_of(
                *old(source_balance) as int,
                share.weight as int,
                record.total_weight as int,
            );
            &&& payout == 0 ==> r == Err::<u64, PeerTokenError>(PeerTokenError::InsufficientAmount)
            &&& payout > *old(source_balance) ==> r == Err::<u64, PeerTokenError>(
                PeerTokenError::InsufficientFunds,
            )
            &&& 0 < payout <= *old(source_balance) && *old(destination_balance) + payout > u64::MAX
                ==> r == Err::<u64, PeerTokenError>(PeerTokenError::MathOverflow)
            &&& 0 < payout <= *old(source_balance) && *old(destination_balance) + payout
                <= u64::MAX ==> r == Ok::<u64, PeerTokenError>(payout as u64)
                && *final(source_balance) == *old(source_balance) - payout
                && *final(destination_balance) == *old(destination_balance) + payout
        },
        r is Err ==> *final(source_balance) == *old(source_balance) && *final(destination_balance)
            == *old(destination_balance),
{
    if record.finalized {
        return Err(PeerTokenError::DistributionAlreadyFinalized);
    }
    if caller != record.authority {
        return Err(PeerTokenError::InvalidAuthority);
    }
    if share.weight == 0 || share.weight > record.total_weight {
        return Err(PeerTokenError::InvalidGemCount);
    }
    proof {
        lemma_pct_of_bounds(share.weight as int, record.total_weight as int);
        lemma_amount_of_le_balance(
            *source_balance as int,
            pct_of(share.weight as int, record.total_weight as int),
        );
    }
    let pct: u8 = match percentage_of(share.weight, record.total_weight) {
        Ok(p) => p,
        Err(e) => {
            return Err(e);
        },
    };
    let amount: u64 = match amount_for_percentage(*source_balance, pct) {
        Ok(a) => a,
        Err(e) => {
            return Err(e);
        },
    };
    if amount == 0 {
        return Err(PeerTokenError::InsufficientAmount);
    }
    if amount > *source_balance {
        return Err(PeerTokenError::InsufficientFunds);
    }
    if amount > u64::MAX - *destination_balance {
        return Err(PeerTokenError::MathOverflow);
    }
    let debited = debit(source_balance, amount);
    match debited {
        Ok(_) => (),
        Err(e) => {
            return Err(e);
        },
    }
    let credited = credit(destination_balance, amount);
    match credited {
        Ok(_) => (),
        Err(e) => {
            return Err(e);
        },
    }
    Ok(amount)
}

/// Closes a batch: the terminal transition of the record's lifecycle.
///
/// Only the bound authority may finalize, and only once: a second call
/// fails with `DistributionAlreadyFinalized` and leaves the record exactly
/// as it was — in particular `finalized` stays true, and never goes back
/// to false under any call.
pub fn finalize_distribution(record: &mut DistributionRecord, caller: AccountId) -> (r: Result<
    (),
    PeerTokenError,
>)
    ensures
        caller != old(record).authority ==> r == Err::<(), PeerTokenError>(
            PeerTokenError::InvalidAuthority,
        ),
        caller == old(record).authority && old(record).finalized ==> r == Err::<
            (),
            PeerTokenError,
        >(PeerTokenError::DistributionAlreadyFinalized),
        caller == old(record).authority && !old(record).finalized ==> r == Ok::<
            (),
            PeerTokenError,
        >(()) && *final(record) == (DistributionRecord { finalized: true, ..*old(record) }),
        r is Err ==> *final(record) == *old(record),
        old(record).finalized ==> final(record).finalized,
        final(record).authority == old(record).authority,
        final(record).source_account == old(record).source_account,
        final(record).total_weight == old(record).total_weight,
        final(record).recipient_count == old(record).recipient_count,
        final(record).created_at == old(record).created_at,
{
    if caller != record.authority {
        return Err(PeerTokenError::InvalidAuthority);
    }
    if record.finalized {
        return Err(PeerTokenError::DistributionAlreadyFinalized);
    }
    record.finalized = true;
    Ok(())
}

} // verus!
