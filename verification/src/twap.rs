//! Time-weighted average price of both sides of the pool.
//!
//! The average only advances when an operation refreshes it: a sample
//! spans however long the pool went untouched, not a fixed stretch of
//! wall-clock time.

use crate::error::AmmError;
use crate::state::{AmmState, Pool};
use vstd::prelude::*;

verus! {

/// Fixed-point scale of a price: one whole unit is a million.
pub const PRICE_SCALE: u64 = 1_000_000;

/// Price of the `base` side in units of the `quote` side, scaled by
/// `PRICE_SCALE` and rounded down.
pub open spec fn spot_price(base: nat, quote: nat) -> nat
    recommends
        base > 0,
{
    quote * (PRICE_SCALE as nat) / base
}

/// A price accumulator after `elapsed` seconds at `price`.
pub open spec fn accrue(cumulative: nat, price: nat, elapsed: nat) -> nat {
    cumulative + price * elapsed
}

/// The pool after a refresh at time `now`.
///
/// Nothing changes unless time has passed since the last average and both
/// reserves are positive. Otherwise each side's price, weighted by the
/// elapsed time, is added to its accumulator; and once the elapsed time
/// reaches the window, the averages are taken over it, the accumulators
/// start again from zero and `now` becomes the time of the last average.
pub open spec fn twap_refresh(pool: Pool, now: int) -> Result<Pool, AmmError> {
    let elapsed = now - pool.last_twap_update_time;
    if elapsed <= 0 || pool.reserve_a == 0 || pool.reserve_b == 0 {
        Ok(pool)
    } else {
        let span = elapsed as nat;
        let cumulative_a = accrue(
            pool.price_cumulative_a,
            spot_price(pool.reserve_a, pool.reserve_b),
            span,
        );
        let cumulative_b = accrue(
            pool.price_cumulative_b,
            spot_price(pool.reserve_b, pool.reserve_a),
            span,
        );
        if cumulative_a > u128::MAX || cumulative_b > u128::MAX {
            Err(AmmError::ArithmeticError)
        } else if elapsed < pool.window_length {
            Ok(Pool { price_cumulative_a: cumulative_a, price_cumulative_b: cumulative_b, ..pool })
        } else if cumulative_a / span > u64::MAX || cumulative_b / span > u64::MAX {
            Err(AmmError::ArithmeticError)
        } else {
            Ok(
                Pool {
                    twap_a: cumulative_a / span,
                    twap_b: cumulative_b / span,
                    price_cumulative_a: 0,
                    price_cumulative_b: 0,
                    last_twap_update_time: now,
                    ..pool
                },
            )
        }
    }
}

/// Adds `price * elapsed` to `cumulative`, or reports that the sum leaves
/// 128 bits.
fn accrue_checked(cumulative: u128, price: u128, elapsed: u128) -> (sum: Option<u128>)
    ensures
        sum == (if accrue(cumulative as nat, price as nat, elapsed as nat) > u128::MAX {
            None
        } else {
            Some(accrue(cumulative as nat, price as nat, elapsed as nat) as u128)
        }),
{
    match price.checked_mul(elapsed) {
        None => None,
        Some(weighted) => cumulative.checked_add(weighted),
    }
}

/// Price of the `base` reserve in units of the `quote` reserve.
fn price_of(base: u64, quote: u64) -> (price: u128)
    requires
        base > 0,
    ensures
        price == spot_price(base as nat, quote as nat),
{
    let scaled: u128 = (quote as u128) * (PRICE_SCALE as u128);
    scaled / (base as u128)
}

/// Refreshes the averages at `current_time`, as `twap_refresh` describes.
/// On an error the ledger is left as it was.
pub fn update_twap(state: &mut AmmState, current_time: i64) -> (result: Result<(), AmmError>)
    ensures
        match result {
            Ok(()) => twap_refresh(old(state)@, current_time as int) == Ok::<Pool, AmmError>(
                final(state)@,
            ),
            Err(e) => twap_refresh(old(state)@, current_time as int) == Err::<Pool, AmmError>(e)
                && *final(state) == *old(state),
        },
{
    let elapsed: i128 = (current_time as i128) - (state.last_twap_update as i128);
    if elapsed <= 0 || state.pfrt_balance == 0 || state.nfrt_balance == 0 {
        return Ok(());
    }
    let span: u128 = elapsed as u128;
    let pfrt_price = price_of(state.pfrt_balance, state.nfrt_balance);
    let nfrt_price = price_of(state.nfrt_balance, state.pfrt_balance);
    let pfrt_cumulative = match accrue_checked(state.pfrt_price_cumulative, pfrt_price, span) {
        Some(sum) => sum,
        None => {
            return Err(AmmError::ArithmeticError);
        },
    };
    let nfrt_cumulative = match accrue_checked(state.nfrt_price_cumulative, nfrt_price, span) {
        Some(sum) => sum,
        None => {
            return Err(AmmError::ArithmeticError);
        },
    };
    if elapsed < state.twap_window as i128 {
        state.pfrt_price_cumulative = pfrt_cumulative;
        state.nfrt_price_cumulative = nfrt_cumulative;
        return Ok(());
    }
    let pfrt_average: u128 = pfrt_cumulative / span;
    let nfrt_average: u128 = nfrt_cumulative / span;
    if pfrt_average > u64::MAX as u128 || nfrt_average > u64::MAX as u128 {
        return Err(AmmError::ArithmeticError);
    }
    state.pfrt_twap = pfrt_average as u64;
    state.nfrt_twap = nfrt_average as u64;
    state.pfrt_price_cumulative = 0;
    state.nfrt_price_cumulative = 0;
    state.last_twap_update = current_time;
    Ok(())
}

} // verus!
