//! Overflow-safe fixed-point percentage arithmetic.
//!
//! A weight/total pair is turned into a bounded integer percentage, and a
//! percentage/balance pair into a transfer amount. Both computations go
//! through 128-bit intermediates with explicit checked operations, and both
//! floor-truncate: systematic under-distribution (dust) is accepted policy.

use vstd::prelude::*;
use vstd::arithmetic::div_mod::*;
use vstd::arithmetic::mul::*;

use crate::error::PeerTokenError;

verus! {

/// The truncated percentage that `part` makes of `total`: `part * 100 / total`.
pub open spec fn pct_of(part: int, total: int) -> int {
    (part * 100) / total
}

/// The truncated share of `balance` that `pct` percent names: `balance * pct / 100`.
pub open spec fn amount_of(balance: int, pct: int) -> int {
    (balance * pct) / 100
}

/// Converts a weight/total pair into a truncated integer percentage.
///
/// Fails with `DivisionByZero` when `total` is zero, and with
/// `InvalidPercentage` when the quotient exceeds 255 (possible only for
/// `part > total`, but asserted defensively). The multiplication is an
/// explicit checked operation on a 128-bit intermediate, so `MathOverflow`
/// cannot actually occur.
pub fn percentage_of(part: u64, total: u64) -> (r: Result<u8, PeerTokenError>)
    ensures
        total == 0 ==> r == Err::<u8, PeerTokenError>(PeerTokenError::DivisionByZero),
        total > 0 && pct_of(part as int, total as int) > 255 ==> r == Err::<u8, PeerTokenError>(
            PeerTokenError::InvalidPercentage,
        ),
        total > 0 && pct_of(part as int, total as int) <= 255 ==> (r matches Ok(p) && p == pct_of(
            part as int,
            total as int,
        )),
        total > 0 && part <= total ==> (r matches Ok(p) && 0 <= p <= 100),
{
    if total == 0 {
        return Err(PeerTokenError::DivisionByZero);
    }
    proof {
        if part <= total {
            lemma_pct_of_bounds(part as int, total as int);
        }
    }
    let product: u128 = match (part as u128).checked_mul(100) {
        Some(p) => p,
        None => {
            return Err(PeerTokenError::MathOverflow);
        },
    };
    let quotient: u128 = match product.checked_div(total as u128) {
        Some(q) => q,
        None => {
            return Err(PeerTokenError::DivisionByZero);
        },
    };
    if quotient > 255 {
        return Err(PeerTokenError::InvalidPercentage);
    }
    Ok(quotient as u8)
}

/// Converts a percentage of a balance into a transfer amount,
/// `balance * percentage / 100`, floor-truncated.
///
/// The product goes through a checked 128-bit multiplication and a checked
/// division; `MathOverflow` is reported exactly when the quotient does not
/// fit back into a `u64`, which requires `percentage > 100`. For any
/// `percentage <= 100` the amount is at most `balance`.
pub fn amount_for_percentage(balance: u64, percentage: u8) -> (r: Result<u64, PeerTokenError>)
    ensures
        amount_of(balance as int, percentage as int) > u64::MAX ==> r == Err::<u64, PeerTokenError>(
            PeerTokenError::MathOverflow,
        ),
        amount_of(balance as int, percentage as int) <= u64::MAX ==> (r matches Ok(a) && a
            == amount_of(balance as int, percentage as int)),
        percentage <= 100 ==> (r matches Ok(a) && a <= balance),
{
    proof {
        assert((balance as int) * (percentage as int) <= (u64::MAX as int) * 255int)
            by (nonlinear_arith)
            requires
                balance <= u64::MAX,
                percentage <= 255,
        ;
        if percentage <= 100 {
            lemma_amount_of_le_balance(balance as int, percentage as int);
        }
    }
    let product: u128 = match (balance as u128).checked_mul(percentage as u128) {
        Some(p) => p,
        None => {
            return Err(PeerTokenError::MathOverflow);
        },
    };
    let quotient: u128 = match product.checked_div(100) {
        Some(q) => q,
        None => {
            return Err(PeerTokenError::DivisionByZero);
        },
    };
    if quotient > u64::MAX as u128 {
        return Err(PeerTokenError::MathOverflow);
    }
    Ok(quotient as u64)
}

/// For `0 <= part <= total` with `total > 0`, the percentage lies in `[0, 100]`.
pub proof fn lemma_pct_of_bounds(part: int, total: int)
    requires
        0 < total,
        0 <= part <= total,
    ensures
        0 <= pct_of(part, total) <= 100,
{
    lemma_div_pos_is_pos(part * 100, total);
    lemma_mul_inequality(part, total, 100);
    lemma_div_is_ordered(part * 100, total * 100, total);
    lemma_div_multiples_vanish(100, total);
}

/// The percentage is monotonically non-decreasing in the weight: a larger
/// part of the same total never yields a smaller percentage.
pub proof fn lemma_pct_of_monotone(part1: int, part2: int, total: int)
    requires
        0 < total,
        0 <= part1 <= part2,
    ensures
        pct_of(part1, total) <= pct_of(part2, total),
{
    lemma_mul_inequality(part1, part2, 100);
    lemma_div_is_ordered(part1 * 100, part2 * 100, total);
}

/// A zero weight always maps to zero percent.
pub proof fn lemma_pct_of_zero(total: int)
    requires
        0 < total,
    ensures
        pct_of(0, total) == 0,
{
    lemma_basic_div(0, total);
}

/// The whole total always maps to exactly one hundred percent.
pub proof fn lemma_pct_of_full(total: int)
    requires
        0 < total,
    ensures
        pct_of(total, total) == 100,
{
    lemma_div_multiples_vanish(100, total);
}

/// The transfer amount is monotonically non-decreasing in both the balance
/// and the percentage.
pub proof fn lemma_amount_of_monotone(balance1: int, balance2: int, pct1: int, pct2: int)
    requires
        0 <= balance1 <= balance2,
        0 <= pct1 <= pct2,
    ensures
        amount_of(balance1, pct1) <= amount_of(balance2, pct2),
{
    if balance2 > 0 {
        lemma_mul_inequality(balance1, balance2, pct1);
        lemma_mul_left_inequality(balance2, pct1, pct2);
        lemma_div_is_ordered(balance1 * pct1, balance2 * pct2, 100);
    } else {
        lemma_mul_basics(pct1);
        lemma_mul_basics(pct2);
    }
}

/// A zero percentage always yields a zero amount.
pub proof fn lemma_amount_of_zero(balance: int)
    ensures
        amount_of(balance, 0) == 0,
{
    lemma_basic_div(0, 100);
}

/// For a percentage of at most one hundred, the amount never exceeds the
/// balance it is taken from.
pub proof fn lemma_amount_of_le_balance(balance: int, pct: int)
    requires
        0 <= balance,
        0 <= pct <= 100,
    ensures
        0 <= amount_of(balance, pct) <= balance,
{
    lemma_mul_nonnegative(balance, pct);
    lemma_div_pos_is_pos(balance * pct, 100);
    if balance > 0 {
        lemma_mul_left_inequality(balance, pct, 100);
        lemma_div_is_ordered(balance * pct, balance * 100, 100);
        lemma_div_by_multiple(balance, 100);
    }
}

} // verus!
