//! Creation of a pool and its administration: pausing, resuming and
//! changing the risk parameters. None of these touches a reserve or the
//! averaged prices.
//!
//! Whether the caller holds the pool's authority is for the host to decide
//! before it calls any of these.

use crate::error::AmmError;
use crate::events::{TradingPaused, TradingResumed};
use crate::state::{AmmState, Pool, DEFAULT_TWAP_WINDOW, MAX_SLIPPAGE_BPS, MAX_TRADING_FEE_BPS};
use anchor_lang::prelude::Pubkey;
use vstd::prelude::*;

verus! {

/// The pool that `initialize` creates at time `now`: empty, open for
/// trading, with no volume and no averages yet.
pub open spec fn new_pool(
    authority: Pubkey,
    mint_a: Pubkey,
    mint_b: Pubkey,
    vault_a: Pubkey,
    vault_b: Pubkey,
    fee_bps: nat,
    max_trade_size: nat,
    daily_volume_limit: nat,
    max_slippage_bps: nat,
    now: int,
) -> Pool {
    Pool {
        authority,
        mint_a,
        mint_b,
        vault_a,
        vault_b,
        reserve_a: 0,
        reserve_b: 0,
        total_liquidity_units: 0,
        fee_bps,
        max_trade_size,
        daily_volume_limit,
        max_slippage_bps,
        trading_paused: false,
        daily_volume: 0,
        last_volume_reset_time: now,
        window_length: DEFAULT_TWAP_WINDOW as int,
        price_cumulative_a: 0,
        price_cumulative_b: 0,
        last_twap_update_time: now,
        twap_a: 0,
        twap_b: 0,
    }
}

/// The pool after an update of its risk parameters. A parameter without a
/// new value keeps its current one. A slippage tolerance above the cap
/// refuses the whole update.
pub open spec fn update_parameters_step(
    pool: Pool,
    new_max_trade_size: Option<u64>,
    new_daily_volume_limit: Option<u64>,
    new_max_slippage_bps: Option<u16>,
) -> Result<Pool, AmmError> {
    if new_max_slippage_bps matches Some(bps) && bps > MAX_SLIPPAGE_BPS {
        Err(AmmError::SlippageTooHigh)
    } else {
        Ok(
            Pool {
                max_trade_size: match new_max_trade_size {
                    Some(size) => size as nat,
                    None => pool.max_trade_size,
                },
                daily_volume_limit: match new_daily_volume_limit {
                    Some(limit) => limit as nat,
                    None => pool.daily_volume_limit,
                },
                max_slippage_bps: match new_max_slippage_bps {
                    Some(bps) => bps as nat,
                    None => pool.max_slippage_bps,
                },
                ..pool
            },
        )
    }
}

/// The outcome of creating a pool at time `now`: a fee above one percent
/// is refused with `FeeTooHigh`; failing that, a slippage tolerance above
/// ten percent with `SlippageTooHigh`; otherwise the pool is `new_pool`.
pub open spec fn initialize_step(
    authority: Pubkey,
    mint_a: Pubkey,
    mint_b: Pubkey,
    vault_a: Pubkey,
    vault_b: Pubkey,
    fee_bps: nat,
    max_trade_size: nat,
    daily_volume_limit: nat,
    max_slippage_bps: nat,
    now: int,
) -> Result<Pool, AmmError> {
    if fee_bps > MAX_TRADING_FEE_BPS {
        Err(AmmError::FeeTooHigh)
    } else if max_slippage_bps > MAX_SLIPPAGE_BPS {
        Err(AmmError::SlippageTooHigh)
    } else {
        Ok(
            new_pool(
                authority,
                mint_a,
                mint_b,
                vault_a,
                vault_b,
                fee_bps,
                max_trade_size,
                daily_volume_limit,
                max_slippage_bps,
                now,
            ),
        )
    }
}

/// Creates the ledger of a pool at `current_time`, as `initialize_step`
/// describes. The pool it creates is valid.
pub fn initialize(
    authority: Pubkey,
    pfrt_mint: Pubkey,
    nfrt_mint: Pubkey,
    pfrt_vault: Pubkey,
    nfrt_vault: Pubkey,
    trading_fee_bps: u16,
    max_trade_size: u64,
    daily_volume_limit: u64,
    max_slippage_bps: u16,
    current_time: i64,
) -> (result: Result<AmmState, AmmError>)
    ensures
        match result {
            Ok(state) => initialize_step(
                authority,
                pfrt_mint,
                nfrt_mint,
                pfrt_vault,
                nfrt_vault,
                trading_fee_bps as nat,
                max_trade_size as nat,
                daily_volume_limit as nat,
                max_slippage_bps as nat,
                current_time as int,
            ) == Ok::<Pool, AmmError>(state@) && state@.valid(),
            Err(e) => initialize_step(
                authority,
                pfrt_mint,
                nfrt_mint,
                pfrt_vault,
                nfrt_vault,
                trading_fee_bps as nat,
                max_trade_size as nat,
                daily_volume_limit as nat,
                max_slippage_bps as nat,
                current_time as int,
            ) == Err::<Pool, AmmError>(e),
        },
{
    if trading_fee_bps > MAX_TRADING_FEE_BPS {
        return Err(AmmError::FeeTooHigh);
    }
    if max_slippage_bps > MAX_SLIPPAGE_BPS {
        return Err(AmmError::SlippageTooHigh);
    }
    Ok(
        AmmState {
            authority,
            pfrt_mint,
            nfrt_mint,
            pfrt_vault,
            nfrt_vault,
            pfrt_balance: 0,
            nfrt_balance: 0,
            total_liquidity: 0,
            trading_fee_bps,
            max_trade_size,
            daily_volume_limit,
            max_slippage_bps,
            trading_paused: false,
            daily_volume: 0,
            last_volume_reset: current_time,
            twap_window: DEFAULT_TWAP_WINDOW,
            pfrt_price_cumulative: 0,
            nfrt_price_cumulative: 0,
            last_twap_update: current_time,
            pfrt_twap: 0,
            nfrt_twap: 0,
        },
    )
}

/// Pauses trading. Nothing else in the ledger changes.
pub fn pause_trading(state: &mut AmmState) -> (event: TradingPaused)
    ensures
        final(state)@ == (Pool { trading_paused: true, ..old(state)@ }),
        event.authority == old(state).authority,
{
    state.trading_paused = true;
    TradingPaused { authority: state.authority }
}

/// Resumes trading. Nothing else in the ledger changes.
pub fn resume_trading(state: &mut AmmState) -> (event: TradingResumed)
    ensures
        final(state)@ == (Pool { trading_paused: false, ..old(state)@ }),
        event.authority == old(state).authority,
{
    state.trading_paused = false;
    TradingResumed { authority: state.authority }
}

/// Updates the risk parameters that are given a new value, as
/// `update_parameters_step` describes. On an error the ledger is left as
/// it was.
pub fn update_parameters(
    state: &mut AmmState,
    new_max_trade_size: Option<u64>,
    new_daily_volume_limit: Option<u64>,
    new_max_slippage_bps: Option<u16>,
) -> (result: Result<(), AmmError>)
    ensures
        match result {
            Ok(()) => update_parameters_step(
                old(state)@,
                new_max_trade_size,
                new_daily_volume_limit,
                new_max_slippage_bps,
            ) == Ok::<Pool, AmmError>(final(state)@),
            Err(e) => update_parameters_step(
                old(state)@,
                new_max_trade_size,
                new_daily_volume_limit,
                new_max_slippage_bps,
            ) == Err::<Pool, AmmError>(e) && *final(state) == *old(state),
        },
        old(state)@.valid() ==> final(state)@.valid(),
{
    if let Some(max_slippage_bps) = new_max_slippage_bps {
        if max_slippage_bps > MAX_SLIPPAGE_BPS {
            return Err(AmmError::SlippageTooHigh);
        }
    }
    if let Some(max_trade_size) = new_max_trade_size {
        state.max_trade_size = max_trade_size;
    }
    if let Some(daily_volume_limit) = new_daily_volume_limit {
        state.daily_volume_limit = daily_volume_limit;
    }
    if let Some(max_slippage_bps) = new_max_slippage_bps {
        state.max_slippage_bps = max_slippage_bps;
    }
    Ok(())
}

} // verus!
