//! Constant-product pricing of a swap and the swap itself.

use crate::error::AmmError;
use crate::events::SwapEvent;
use crate::math::mul_wide;
use crate::risk::{check_daily_volume_limit, check_repeat_trade, daily_volume_guard, repeat_trade};
use crate::state::{AmmState, Pool, UserTradeState};
use crate::twap::{twap_refresh, update_twap};
use anchor_lang::prelude::Pubkey;
use vstd::prelude::*;

verus! {

/// Denominator of a rate given in basis points.
pub const BPS_DENOMINATOR: u64 = 10000;

/// The figures of one priced swap.
pub struct SwapQuote {
    /// Part of the amount paid in that is kept as the fee.
    pub fee: nat,
    /// The amount paid in, less the fee.
    pub amount_in_net: nat,
    /// The paying-in reserve plus the net amount: the divisor of the curve.
    pub new_in_reserve: nat,
    /// What the curve leaves in the paying-out reserve.
    pub new_out_reserve: nat,
    /// What the trader receives.
    pub amount_out: nat,
}

/// The fee on `amount_in` at `fee_bps` basis points, rounded down.
pub open spec fn trading_fee(amount_in: nat, fee_bps: nat) -> nat {
    amount_in * fee_bps / (BPS_DENOMINATOR as nat)
}

/// Prices a swap of `amount_in` against the reserves `reserve_in` and
/// `reserve_out` on the constant-product curve.
///
/// The fee comes off the amount first. The product of the reserves is then
/// divided by the paying-in reserve grown by the net amount, rounding down,
/// and the trader receives what the paying-out reserve holds above that
/// quotient. The quote is refused where the fee exceeds the amount, where
/// the grown reserve leaves 64 bits, or where it is zero.
pub open spec fn swap_quote(reserve_in: nat, reserve_out: nat, fee_bps: nat, amount_in: nat) -> Result<
    SwapQuote,
    AmmError,
> {
    let fee = trading_fee(amount_in, fee_bps);
    let new_in_reserve = reserve_in + amount_in - fee;
    if fee > amount_in || new_in_reserve > u64::MAX || new_in_reserve == 0 {
        Err(AmmError::ArithmeticError)
    } else {
        let new_out_reserve = (reserve_in * reserve_out) / (new_in_reserve as nat);
        Ok(
            SwapQuote {
                fee,
                amount_in_net: (amount_in - fee) as nat,
                new_in_reserve: new_in_reserve as nat,
                new_out_reserve: new_out_reserve,
                amount_out: (reserve_out - new_out_reserve) as nat,
            },
        )
    }
}

/// A swap that went through: the pool it leaves and what it moved.
pub struct SwapOutcome {
    /// The pool after the swap.
    pub pool: Pool,
    /// What the trader receives from the paying-out vault.
    pub amount_out: nat,
    /// Part of the amount paid in that was the fee.
    pub fee: nat,
}

/// The swap of `amount_in` in the direction `a_to_b`, by a trader whose
/// last swap was in `last_trade_tick`, at time `now` and in slot `tick`.
///
/// The checks run in this order and the first that fails decides: trading
/// is not paused; the amount is positive; it is within the cap on one
/// trade; the repeat-trade guard; the daily-volume guard. The swap is then
/// priced, and refused if it yields less than `min_amount_out`. The whole
/// amount paid in, fee included, joins the paying-in reserve; the amount
/// paid out leaves the other; the amount paid in joins the day's volume;
/// and the averages are refreshed.
///
/// No bound on how far the price may stray from the averaged price is
/// enforced: the averages are recorded, and gate nothing.
pub open spec fn swap_step(
    pool: Pool,
    last_trade_tick: nat,
    amount_in: nat,
    min_amount_out: nat,
    a_to_b: bool,
    now: int,
    tick: nat,
) -> Result<SwapOutcome, AmmError> {
    if pool.trading_paused {
        Err(AmmError::TradingPaused)
    } else if amount_in == 0 {
        Err(AmmError::InvalidAmount)
    } else if amount_in > pool.max_trade_size {
        Err(AmmError::TradeSizeTooLarge)
    } else if repeat_trade(last_trade_tick, tick) {
        Err(AmmError::FlashLoanDetected)
    } else {
        match daily_volume_guard(pool, amount_in, now) {
            Err(e) => Err(e),
            Ok(rolled) => match swap_quote(
                rolled.reserve_in(a_to_b),
                rolled.reserve_out(a_to_b),
                rolled.fee_bps,
                amount_in,
            ) {
                Err(e) => Err(e),
                Ok(quote) => if quote.amount_out < min_amount_out {
                    Err(AmmError::SlippageExceeded)
                } else if rolled.reserve_in(a_to_b) + amount_in > u64::MAX {
                    Err(AmmError::ArithmeticError)
                } else {
                    let traded = Pool {
                        daily_volume: rolled.daily_volume + amount_in,
                        ..rolled.with_reserves(
                            a_to_b,
                            rolled.reserve_in(a_to_b) + amount_in,
                            quote.new_out_reserve,
                        )
                    };
                    match twap_refresh(traded, now) {
                        Err(e) => Err(e),
                        Ok(refreshed) => Ok(
                            SwapOutcome {
                                pool: refreshed,
                                amount_out: quote.amount_out,
                                fee: quote.fee,
                            },
                        ),
                    }
                },
            },
        }
    }
}

/// The curve never asks the paying-out reserve for more than it holds.
pub proof fn lemma_new_out_reserve_bounded(reserve_in: nat, reserve_out: nat, new_in_reserve: nat)
    requires
        reserve_in <= new_in_reserve,
        new_in_reserve > 0,
    ensures
        (reserve_in * reserve_out) / new_in_reserve <= reserve_out,
{
    assert((reserve_in * reserve_out) / new_in_reserve <= reserve_out) by (nonlinear_arith)
        requires
            reserve_in <= new_in_reserve,
            new_in_reserve > 0,
    {
        assert(reserve_in * reserve_out <= new_in_reserve * reserve_out);
        assert((new_in_reserve * reserve_out) / new_in_reserve == reserve_out);
    }
}

/// Prices a swap of `amount_in` against the ledger's reserves, as
/// `swap_quote` describes, and returns the amount paid out and the fee.
pub fn calculate_swap_amount(state: &AmmState, amount_in: u64, is_pfrt_to_nfrt: bool) -> (result:
    Result<(u64, u64), AmmError>)
    ensures
        match result {
            Ok((amount_out, fee)) => swap_quote(
                state@.reserve_in(is_pfrt_to_nfrt),
                state@.reserve_out(is_pfrt_to_nfrt),
                state@.fee_bps,
                amount_in as nat,
            ) matches Ok(quote) && quote.amount_out == amount_out && quote.fee == fee,
            Err(e) => swap_quote(
                state@.reserve_in(is_pfrt_to_nfrt),
                state@.reserve_out(is_pfrt_to_nfrt),
                state@.fee_bps,
                amount_in as nat,
            ) == Err::<SwapQuote, AmmError>(e),
        },
{
    let (reserve_in, reserve_out) = if is_pfrt_to_nfrt {
        (state.pfrt_balance, state.nfrt_balance)
    } else {
        (state.nfrt_balance, state.pfrt_balance)
    };
    let fee_wide: u128 = mul_wide(amount_in, state.trading_fee_bps as u64) / (
    BPS_DENOMINATOR as u128);
    if fee_wide > amount_in as u128 {
        return Err(AmmError::ArithmeticError);
    }
    let fee: u64 = fee_wide as u64;
    let amount_in_net: u64 = amount_in - fee;
    let new_in_reserve: u64 = match reserve_in.checked_add(amount_in_net) {
        Some(sum) => sum,
        None => {
            return Err(AmmError::ArithmeticError);
        },
    };
    if new_in_reserve == 0 {
        return Err(AmmError::ArithmeticError);
    }
    let product: u128 = mul_wide(reserve_in, reserve_out);
    let new_out_reserve: u128 = product / (new_in_reserve as u128);
    proof {
        lemma_new_out_reserve_bounded(reserve_in as nat, reserve_out as nat, new_in_reserve as nat);
    }
    let amount_out: u64 = reserve_out - (new_out_reserve as u64);
    Ok((amount_out, fee))
}

/// Swaps `amount_in` of one side for the other on behalf of `user`, as
/// `swap_step` describes, at `current_time` and in `current_slot`.
///
/// On success the ledger and the trader's record are updated and the
/// returned record names what the host has to move: `amount_in` into the
/// paying-in vault and `amount_out` out of the other. On an error both the
/// ledger and the record are left as they were.
pub fn swap(
    state: &mut AmmState,
    user_trade_state: &mut UserTradeState,
    user: Pubkey,
    amount_in: u64,
    min_amount_out: u64,
    is_pfrt_to_nfrt: bool,
    current_time: i64,
    current_slot: u64,
) -> (result: Result<SwapEvent, AmmError>)
    ensures
        match result {
            Ok(event) => {
                &&& swap_step(
                    old(state)@,
                    old(user_trade_state).last_trade_slot as nat,
                    amount_in as nat,
                    min_amount_out as nat,
                    is_pfrt_to_nfrt,
                    current_time as int,
                    current_slot as nat,
                ) matches Ok(outcome)
                &&& final(state)@ == outcome.pool
                &&& final(user_trade_state).last_trade_slot == current_slot
                &&& event.user == user
                &&& event.amount_in == amount_in
                &&& event.amount_out == outcome.amount_out
                &&& event.fee == outcome.fee
                &&& event.is_pfrt_to_nfrt == is_pfrt_to_nfrt
            },
            Err(e) => {
                &&& swap_step(
                    old(state)@,
                    old(user_trade_state).last_trade_slot as nat,
                    amount_in as nat,
                    min_amount_out as nat,
                    is_pfrt_to_nfrt,
                    current_time as int,
                    current_slot as nat,
                ) == Err::<SwapOutcome, AmmError>(e)
                &&& *final(state) == *old(state)
                &&& *final(user_trade_state) == *old(user_trade_state)
            },
        },
{
    if state.trading_paused {
        return Err(AmmError::TradingPaused);
    }
    if amount_in == 0 {
        return Err(AmmError::InvalidAmount);
    }
    if amount_in > state.max_trade_size {
        return Err(AmmError::TradeSizeTooLarge);
    }
    match check_repeat_trade(user_trade_state, current_slot) {
        Err(e) => {
            return Err(e);
        },
        Ok(()) => {},
    }
    let mut next: AmmState = *state;
    match check_daily_volume_limit(&mut next, amount_in, current_time) {
        Err(e) => {
            return Err(e);
        },
        Ok(()) => {},
    }
    let (amount_out, fee) = match calculate_swap_amount(&next, amount_in, is_pfrt_to_nfrt) {
        Err(e) => {
            return Err(e);
        },
        Ok(priced) => priced,
    };
    if amount_out < min_amount_out {
        return Err(AmmError::SlippageExceeded);
    }
    proof {
        let rolled = next@;
        let quote = swap_quote(
            rolled.reserve_in(is_pfrt_to_nfrt),
            rolled.reserve_out(is_pfrt_to_nfrt),
            rolled.fee_bps,
            amount_in as nat,
        )->Ok_0;
        lemma_new_out_reserve_bounded(
            rolled.reserve_in(is_pfrt_to_nfrt),
            rolled.reserve_out(is_pfrt_to_nfrt),
            quote.new_in_reserve,
        );
    }
    if is_pfrt_to_nfrt {
        next.pfrt_balance = match next.pfrt_balance.checked_add(amount_in) {
            Some(sum) => sum,
            None => {
                return Err(AmmError::ArithmeticError);
            },
        };
        next.nfrt_balance = next.nfrt_balance - amount_out;
    } else {
        next.nfrt_balance = match next.nfrt_balance.checked_add(amount_in) {
            Some(sum) => sum,
            None => {
                return Err(AmmError::ArithmeticError);
            },
        };
        next.pfrt_balance = next.pfrt_balance - amount_out;
    }
    next.daily_volume = next.daily_volume + amount_in;
    match update_twap(&mut next, current_time) {
        Err(e) => {
            return Err(e);
        },
        Ok(()) => {},
    }
    *state = next;
    user_trade_state.last_trade_slot = current_slot;
    Ok(SwapEvent { user, amount_in, amount_out, fee, is_pfrt_to_nfrt })
}

} // verus!
