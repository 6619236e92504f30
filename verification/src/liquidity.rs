//! Deposits of liquidity and the units they mint. Units are never burned:
//! the pool has no withdrawal.

use crate::error::AmmError;
use crate::events::LiquidityAdded;
use crate::math::{
    integer_sqrt, isqrt, lemma_isqrt_exists, lemma_product_fits, min_nat, mul_wide,
};
use crate::state::{AmmState, Pool};
use crate::twap::{twap_refresh, update_twap};
use anchor_lang::prelude::Pubkey;
use vstd::prelude::*;

verus! {

/// The share of the units in issue that a deposit of `amount` into a
/// reserve of `reserve` stands for, rounded down.
pub open spec fn proportional_units(amount: nat, total_units: nat, reserve: nat) -> nat
    recommends
        reserve > 0,
{
    amount * total_units / reserve
}

/// The units that a deposit of `amount_a` and `amount_b` mints.
///
/// The first deposit mints the floor of the geometric mean of the two
/// amounts, which sets the price at their ratio. A later deposit mints the
/// smaller of its two proportional shares, so that an unbalanced deposit
/// earns nothing for its excess. A later deposit is refused where a reserve
/// is zero or where the units leave 64 bits.
pub open spec fn liquidity_units(pool: Pool, amount_a: nat, amount_b: nat) -> Result<
    nat,
    AmmError,
> {
    if pool.total_liquidity_units == 0 {
        Ok(isqrt(amount_a * amount_b))
    } else if pool.reserve_a == 0 || pool.reserve_b == 0 {
        Err(AmmError::ArithmeticError)
    } else {
        let units = min_nat(
            proportional_units(amount_a, pool.total_liquidity_units, pool.reserve_a),
            proportional_units(amount_b, pool.total_liquidity_units, pool.reserve_b),
        );
        if units > u64::MAX {
            Err(AmmError::ArithmeticError)
        } else {
            Ok(units)
        }
    }
}

/// A deposit that went through: the pool it leaves and the units it minted.
pub struct DepositOutcome {
    /// The pool after the deposit.
    pub pool: Pool,
    /// The units minted for the depositor.
    pub units_minted: nat,
}

/// The deposit of `amount_a` and `amount_b` at time `now`.
///
/// Trading must not be paused and both amounts must be positive. The
/// deposit is refused if it mints fewer than `min_units`, or if a reserve
/// or the units in issue would leave 64 bits. Both amounts join their
/// reserves, the units join the units in issue, and the averages are
/// refreshed.
pub open spec fn add_liquidity_step(
    pool: Pool,
    amount_a: nat,
    amount_b: nat,
    min_units: nat,
    now: int,
) -> Result<DepositOutcome, AmmError> {
    if pool.trading_paused {
        Err(AmmError::TradingPaused)
    } else if amount_a == 0 || amount_b == 0 {
        Err(AmmError::InvalidAmount)
    } else {
        match liquidity_units(pool, amount_a, amount_b) {
            Err(e) => Err(e),
            Ok(units) => if units < min_units {
                Err(AmmError::SlippageExceeded)
            } else if pool.reserve_a + amount_a > u64::MAX || pool.reserve_b + amount_b > u64::MAX
                || pool.total_liquidity_units + units > u64::MAX {
                Err(AmmError::ArithmeticError)
            } else {
                let deposited = Pool {
                    reserve_a: pool.reserve_a + amount_a,
                    reserve_b: pool.reserve_b + amount_b,
                    total_liquidity_units: pool.total_liquidity_units + units,
                    ..pool
                };
                match twap_refresh(deposited, now) {
                    Err(e) => Err(e),
                    Ok(refreshed) => Ok(DepositOutcome { pool: refreshed, units_minted: units }),
                }
            },
        }
    }
}

/// The geometric mean of two 64-bit amounts fits in 64 bits.
pub proof fn lemma_first_deposit_units_fit(amount_a: nat, amount_b: nat)
    requires
        amount_a <= u64::MAX,
        amount_b <= u64::MAX,
    ensures
        isqrt(amount_a * amount_b) <= u64::MAX,
{
    let n = amount_a * amount_b;
    let r = isqrt(n);
    lemma_product_fits(amount_a, amount_b);
    lemma_isqrt_exists(n);
    if r > u64::MAX {
        assert(r * r >= 0x1_0000_0000_0000_0000 * 0x1_0000_0000_0000_0000) by (nonlinear_arith)
            requires
                r >= 0x1_0000_0000_0000_0000,
        ;
    }
}

/// Computes the units that a deposit mints, as `liquidity_units` describes.
pub fn calculate_liquidity(state: &AmmState, pfrt_amount: u64, nfrt_amount: u64) -> (result: Result<
    u64,
    AmmError,
>)
    ensures
        match result {
            Ok(units) => liquidity_units(state@, pfrt_amount as nat, nfrt_amount as nat) == Ok::<
                nat,
                AmmError,
            >(units as nat),
            Err(e) => liquidity_units(state@, pfrt_amount as nat, nfrt_amount as nat) == Err::<
                nat,
                AmmError,
            >(e),
        },
{
    if state.total_liquidity == 0 {
        proof {
            lemma_first_deposit_units_fit(pfrt_amount as nat, nfrt_amount as nat);
        }
        let root = integer_sqrt(mul_wide(pfrt_amount, nfrt_amount));
        return Ok(root as u64);
    }
    if state.pfrt_balance == 0 || state.nfrt_balance == 0 {
        return Err(AmmError::ArithmeticError);
    }
    let pfrt_share: u128 = mul_wide(pfrt_amount, state.total_liquidity) / (
    state.pfrt_balance as u128);
    let nfrt_share: u128 = mul_wide(nfrt_amount, state.total_liquidity) / (
    state.nfrt_balance as u128);
    let units: u128 = if pfrt_share <= nfrt_share {
        pfrt_share
    } else {
        nfrt_share
    };
    if units > u64::MAX as u128 {
        return Err(AmmError::ArithmeticError);
    }
    Ok(units as u64)
}

/// Deposits `pfrt_amount` and `nfrt_amount` on behalf of `user` at
/// `current_time`, as `add_liquidity_step` describes.
///
/// On success the ledger is updated and the returned record names what the
/// host has to move into the two vaults. On an error the ledger is left as
/// it was.
pub fn add_liquidity(
    state: &mut AmmState,
    user: Pubkey,
    pfrt_amount: u64,
    nfrt_amount: u64,
    min_liquidity: u64,
    current_time: i64,
) -> (result: Result<LiquidityAdded, AmmError>)
    ensures
        match result {
            Ok(event) => {
                &&& add_liquidity_step(
                    old(state)@,
                    pfrt_amount as nat,
                    nfrt_amount as nat,
                    min_liquidity as nat,
                    current_time as int,
                ) matches Ok(outcome)
                &&& final(state)@ == outcome.pool
                &&& event.user == user
                &&& event.pfrt_amount == pfrt_amount
                &&& event.nfrt_amount == nfrt_amount
                &&& event.liquidity_minted == outcome.units_minted
            },
            Err(e) => {
                &&& add_liquidity_step(
                    old(state)@,
                    pfrt_amount as nat,
                    nfrt_amount as nat,
                    min_liquidity as nat,
                    current_time as int,
                ) == Err::<DepositOutcome, AmmError>(e)
                &&& *final(state) == *old(state)
            },
        },
{
    if state.trading_paused {
        return Err(AmmError::TradingPaused);
    }
    if pfrt_amount == 0 || nfrt_amount == 0 {
        return Err(AmmError::InvalidAmount);
    }
    let liquidity_minted = match calculate_liquidity(state, pfrt_amount, nfrt_amount) {
        Err(e) => {
            return Err(e);
        },
        Ok(units) => units,
    };
    if liquidity_minted < min_liquidity {
        return Err(AmmError::SlippageExceeded);
    }
    let mut next: AmmState = *state;
    next.pfrt_balance = match next.pfrt_balance.checked_add(pfrt_amount) {
        Some(sum) => sum,
        None => {
            return Err(AmmError::ArithmeticError);
        },
    };
    next.nfrt_balance = match next.nfrt_balance.checked_add(nfrt_amount) {
        Some(sum) => sum,
        None => {
            return Err(AmmError::ArithmeticError);
        },
    };
    next.total_liquidity = match next.total_liquidity.checked_add(liquidity_minted) {
        Some(sum) => sum,
        None => {
            return Err(AmmError::ArithmeticError);
        },
    };
    match update_twap(&mut next, current_time) {
        Err(e) => {
            return Err(e);
        },
        Ok(()) => {},
    }
    *state = next;
    Ok(LiquidityAdded { user, pfrt_amount, nfrt_amount, liquidity_minted })
}

} // verus!
