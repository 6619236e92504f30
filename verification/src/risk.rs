//! Risk limits that a swap must pass: the cap on a day's volume and the
//! defence against a second trade in one slot.

use crate::error::AmmError;
use crate::state::{AmmState, Pool, UserTradeState};
use vstd::prelude::*;

verus! {

/// Length in seconds of one bucket of daily volume.
pub const SECONDS_PER_DAY: i64 = 86400;

/// Whether the bucket of daily volume that is open in `pool` has run its
/// full length by `now`.
pub open spec fn volume_bucket_expired(pool: Pool, now: int) -> bool {
    now >= pool.last_volume_reset_time + SECONDS_PER_DAY
}

/// The pool with the bucket of daily volume that holds `now` open: an
/// expired bucket is replaced by an empty one that starts at `now`.
///
/// Buckets are anchored to the trade that first crosses the boundary; this
/// is no sliding window.
pub open spec fn roll_volume_bucket(pool: Pool, now: int) -> Pool {
    if volume_bucket_expired(pool, now) {
        Pool { daily_volume: 0, last_volume_reset_time: now, ..pool }
    } else {
        pool
    }
}

/// The daily-volume guard: opens the bucket that holds `now`, then refuses
/// a trade that would lift the bucket's volume above the limit.
pub open spec fn daily_volume_guard(pool: Pool, trade_size: nat, now: int) -> Result<
    Pool,
    AmmError,
> {
    let rolled = roll_volume_bucket(pool, now);
    if rolled.daily_volume + trade_size > rolled.daily_volume_limit {
        Err(AmmError::DailyVolumeLimitExceeded)
    } else {
        Ok(rolled)
    }
}

/// The repeat-trade guard: whether a trader whose last swap was in
/// `last_trade_tick` is refused in `tick`.
///
/// The guard sees one trader and one slot. It does nothing against
/// different traders acting within the same slot.
pub open spec fn repeat_trade(last_trade_tick: nat, tick: nat) -> bool {
    last_trade_tick == tick
}

/// Applies the daily-volume guard for a trade of `trade_size` at
/// `current_time`. A refused trade leaves the ledger as it was; an
/// accepted one leaves it with the bucket that holds `current_time` open.
pub fn check_daily_volume_limit(state: &mut AmmState, trade_size: u64, current_time: i64) -> (result:
    Result<(), AmmError>)
    ensures
        match result {
            Ok(()) => daily_volume_guard(old(state)@, trade_size as nat, current_time as int)
                == Ok::<Pool, AmmError>(final(state)@),
            Err(e) => daily_volume_guard(old(state)@, trade_size as nat, current_time as int)
                == Err::<Pool, AmmError>(e) && *final(state) == *old(state),
        },
{
    let expired = (current_time as i128) >= (state.last_volume_reset as i128) + (
    SECONDS_PER_DAY as i128);
    let volume: u64 = if expired {
        0
    } else {
        state.daily_volume
    };
    if (volume as u128) + (trade_size as u128) > (state.daily_volume_limit as u128) {
        return Err(AmmError::DailyVolumeLimitExceeded);
    }
    if expired {
        state.daily_volume = 0;
        state.last_volume_reset = current_time;
    }
    Ok(())
}

/// Applies the repeat-trade guard for a swap in `current_slot`.
pub fn check_repeat_trade(user_trade_state: &UserTradeState, current_slot: u64) -> (result: Result<
    (),
    AmmError,
>)
    ensures
        result == (if repeat_trade(
            user_trade_state.last_trade_slot as nat,
            current_slot as nat,
        ) {
            Err::<(), AmmError>(AmmError::FlashLoanDetected)
        } else {
            Ok::<(), AmmError>(())
        }),
{
    if user_trade_state.last_trade_slot == current_slot {
        Err(AmmError::FlashLoanDetected)
    } else {
        Ok(())
    }
}

} // verus!
