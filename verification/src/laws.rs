//! What holds of the pool across its operations, proved from the rules
//! that the operations are specified by.

use crate::admin::update_parameters_step;
use crate::error::AmmError;
use crate::liquidity::{add_liquidity_step, DepositOutcome};
use crate::math::{is_floor_sqrt, isqrt, lemma_isqrt_exists};
use crate::risk::{roll_volume_bucket, volume_bucket_expired, SECONDS_PER_DAY};
use crate::state::Pool;
use crate::swap::{
    lemma_new_out_reserve_bounded, swap_quote, swap_step, SwapOutcome, SwapQuote,
};
use crate::twap::twap_refresh;
use vstd::prelude::*;

verus! {

/// What rounding the curve's quotient down takes out of the product of
/// the reserves: the remainder of that division.
pub open spec fn rounding_loss(reserve_in: nat, reserve_out: nat, quote: SwapQuote) -> nat {
    (reserve_in * reserve_out) % quote.new_in_reserve
}

/// What the fee puts into the product of the reserves: the fee, kept in
/// the paying-in reserve, times what the paying-out reserve is left with.
pub open spec fn fee_gain(quote: SwapQuote) -> nat {
    quote.fee * quote.new_out_reserve
}

/// A refresh of the averages leaves the reserves, the units in issue and
/// every risk parameter alone.
pub proof fn lemma_refresh_keeps_ledger(pool: Pool, now: int)
    requires
        twap_refresh(pool, now) is Ok,
    ensures
        ({
            let after = twap_refresh(pool, now)->Ok_0;
            after == Pool {
                price_cumulative_a: after.price_cumulative_a,
                price_cumulative_b: after.price_cumulative_b,
                last_twap_update_time: after.last_twap_update_time,
                twap_a: after.twap_a,
                twap_b: after.twap_b,
                ..pool
            }
        }),
{
}

/// A swap that goes through was priced against the reserves it found, and
/// leaves the paying-in reserve grown by the whole amount paid in and the
/// paying-out reserve at what the curve left in it.
pub proof fn lemma_swap_reserves(
    pool: Pool,
    last_trade_tick: nat,
    amount_in: nat,
    min_amount_out: nat,
    a_to_b: bool,
    now: int,
    tick: nat,
)
    requires
        swap_step(pool, last_trade_tick, amount_in, min_amount_out, a_to_b, now, tick) is Ok,
    ensures
        ({
            let after = swap_step(
                pool,
                last_trade_tick,
                amount_in,
                min_amount_out,
                a_to_b,
                now,
                tick,
            )->Ok_0;
            let priced = swap_quote(
                pool.reserve_in(a_to_b),
                pool.reserve_out(a_to_b),
                pool.fee_bps,
                amount_in,
            );
            &&& priced matches Ok(quote)
            &&& after.amount_out == quote.amount_out
            &&& after.fee == quote.fee
            &&& after.amount_out >= min_amount_out
            &&& after.pool.reserve_in(a_to_b) == pool.reserve_in(a_to_b) + amount_in
            &&& after.pool.reserve_out(a_to_b) == quote.new_out_reserve
            &&& after.pool.reserve_out(a_to_b) + after.amount_out == pool.reserve_out(a_to_b)
            &&& after.pool.total_liquidity_units == pool.total_liquidity_units
        }),
{
    let quote = swap_quote(
        pool.reserve_in(a_to_b),
        pool.reserve_out(a_to_b),
        pool.fee_bps,
        amount_in,
    )->Ok_0;
    lemma_new_out_reserve_bounded(
        pool.reserve_in(a_to_b),
        pool.reserve_out(a_to_b),
        quote.new_in_reserve,
    );
}

/// The product of the reserves across a swap, exactly: the swap takes the
/// rounding loss out of it and puts the fee gain into it.
pub proof fn lemma_swap_product_exact(
    pool: Pool,
    last_trade_tick: nat,
    amount_in: nat,
    min_amount_out: nat,
    a_to_b: bool,
    now: int,
    tick: nat,
)
    requires
        swap_step(pool, last_trade_tick, amount_in, min_amount_out, a_to_b, now, tick) is Ok,
    ensures
        ({
            let after = swap_step(
                pool,
                last_trade_tick,
                amount_in,
                min_amount_out,
                a_to_b,
                now,
                tick,
            )->Ok_0.pool;
            let quote = swap_quote(
                pool.reserve_in(a_to_b),
                pool.reserve_out(a_to_b),
                pool.fee_bps,
                amount_in,
            )->Ok_0;
            let loss = rounding_loss(pool.reserve_in(a_to_b), pool.reserve_out(a_to_b), quote);
            &&& after.product() + loss == pool.product() + fee_gain(quote)
            &&& loss < quote.new_in_reserve
        }),
{
    lemma_swap_reserves(pool, last_trade_tick, amount_in, min_amount_out, a_to_b, now, tick);
    let after = swap_step(
        pool,
        last_trade_tick,
        amount_in,
        min_amount_out,
        a_to_b,
        now,
        tick,
    )->Ok_0.pool;
    let reserve_in = pool.reserve_in(a_to_b);
    let reserve_out = pool.reserve_out(a_to_b);
    let quote = swap_quote(reserve_in, reserve_out, pool.fee_bps, amount_in)->Ok_0;
    let divisor = quote.new_in_reserve;
    let kept = quote.new_out_reserve;
    let fee = quote.fee;
    let before = reserve_in * reserve_out;
    assert(before == divisor * kept + before % divisor && before % divisor < divisor)
        by (nonlinear_arith)
        requires
            divisor > 0,
            kept == before / divisor,
    ;
    assert(after.reserve_in(a_to_b) == divisor + fee);
    assert((divisor + fee) * kept == divisor * kept + fee * kept) by (nonlinear_arith);
    assert(pool.product() == before) by (nonlinear_arith)
        requires
            pool.product() == pool.reserve_a * pool.reserve_b,
            before == reserve_in * reserve_out,
            (reserve_in == pool.reserve_a && reserve_out == pool.reserve_b) || (reserve_in
                == pool.reserve_b && reserve_out == pool.reserve_a),
    ;
    assert(after.product() == (divisor + fee) * kept) by (nonlinear_arith)
        requires
            after.product() == after.reserve_a * after.reserve_b,
            (after.reserve_a == divisor + fee && after.reserve_b == kept) || (after.reserve_b
                == divisor + fee && after.reserve_a == kept),
    ;
}

/// A swap leaves the paying-in reserve positive. It leaves the paying-out
/// reserve positive exactly where the product of the reserves it found is
/// at least the curve's divisor; below that the quotient rounds down to
/// nothing and the swap pays the whole reserve out.
pub proof fn lemma_swap_reserves_positive(
    pool: Pool,
    last_trade_tick: nat,
    amount_in: nat,
    min_amount_out: nat,
    a_to_b: bool,
    now: int,
    tick: nat,
)
    requires
        swap_step(pool, last_trade_tick, amount_in, min_amount_out, a_to_b, now, tick) is Ok,
    ensures
        ({
            let after = swap_step(
                pool,
                last_trade_tick,
                amount_in,
                min_amount_out,
                a_to_b,
                now,
                tick,
            )->Ok_0.pool;
            let quote = swap_quote(
                pool.reserve_in(a_to_b),
                pool.reserve_out(a_to_b),
                pool.fee_bps,
                amount_in,
            )->Ok_0;
            &&& after.reserve_in(a_to_b) > 0
            &&& after.reserve_out(a_to_b) > 0 <==> pool.reserve_in(a_to_b) * pool.reserve_out(
                a_to_b,
            ) >= quote.new_in_reserve
        }),
{
    lemma_swap_reserves(pool, last_trade_tick, amount_in, min_amount_out, a_to_b, now, tick);
    let quote = swap_quote(
        pool.reserve_in(a_to_b),
        pool.reserve_out(a_to_b),
        pool.fee_bps,
        amount_in,
    )->Ok_0;
    let before = pool.reserve_in(a_to_b) * pool.reserve_out(a_to_b);
    let divisor = quote.new_in_reserve;
    assert(before / divisor > 0 <==> before >= divisor) by (nonlinear_arith)
        requires
            divisor > 0,
            before >= 0,
    ;
}

/// Constant-product monotonicity. A swap whose fee gain covers its
/// rounding loss does not lower the product of the reserves, and one whose
/// fee gain exceeds the loss raises it.
pub proof fn lemma_swap_product_monotonic(
    pool: Pool,
    last_trade_tick: nat,
    amount_in: nat,
    min_amount_out: nat,
    a_to_b: bool,
    now: int,
    tick: nat,
)
    requires
        swap_step(pool, last_trade_tick, amount_in, min_amount_out, a_to_b, now, tick) is Ok,
        rounding_loss(
            pool.reserve_in(a_to_b),
            pool.reserve_out(a_to_b),
            swap_quote(
                pool.reserve_in(a_to_b),
                pool.reserve_out(a_to_b),
                pool.fee_bps,
                amount_in,
            )->Ok_0,
        ) <= fee_gain(
            swap_quote(
                pool.reserve_in(a_to_b),
                pool.reserve_out(a_to_b),
                pool.fee_bps,
                amount_in,
            )->Ok_0,
        ),
    ensures
        ({
            let after = swap_step(
                pool,
                last_trade_tick,
                amount_in,
                min_amount_out,
                a_to_b,
                now,
                tick,
            )->Ok_0.pool;
            let quote = swap_quote(
                pool.reserve_in(a_to_b),
                pool.reserve_out(a_to_b),
                pool.fee_bps,
                amount_in,
            )->Ok_0;
            let loss = rounding_loss(pool.reserve_in(a_to_b), pool.reserve_out(a_to_b), quote);
            &&& after.product() >= pool.product()
            &&& loss < fee_gain(quote) ==> after.product() > pool.product()
        }),
{
    lemma_swap_product_exact(pool, last_trade_tick, amount_in, min_amount_out, a_to_b, now, tick);
}

/// The other side of monotonicity: a swap whose rounding loss exceeds its
/// fee gain lowers the product of the reserves, by less than the curve's
/// divisor.
pub proof fn lemma_swap_product_shortfall(
    pool: Pool,
    last_trade_tick: nat,
    amount_in: nat,
    min_amount_out: nat,
    a_to_b: bool,
    now: int,
    tick: nat,
)
    requires
        swap_step(pool, last_trade_tick, amount_in, min_amount_out, a_to_b, now, tick) is Ok,
        rounding_loss(
            pool.reserve_in(a_to_b),
            pool.reserve_out(a_to_b),
            swap_quote(
                pool.reserve_in(a_to_b),
                pool.reserve_out(a_to_b),
                pool.fee_bps,
                amount_in,
            )->Ok_0,
        ) > fee_gain(
            swap_quote(
                pool.reserve_in(a_to_b),
                pool.reserve_out(a_to_b),
                pool.fee_bps,
                amount_in,
            )->Ok_0,
        ),
    ensures
        ({
            let after = swap_step(
                pool,
                last_trade_tick,
                amount_in,
                min_amount_out,
                a_to_b,
                now,
                tick,
            )->Ok_0.pool;
            let quote = swap_quote(
                pool.reserve_in(a_to_b),
                pool.reserve_out(a_to_b),
                pool.fee_bps,
                amount_in,
            )->Ok_0;
            &&& after.product() < pool.product()
            &&& pool.product() < after.product() + quote.new_in_reserve
        }),
{
    lemma_swap_product_exact(pool, last_trade_tick, amount_in, min_amount_out, a_to_b, now, tick);
}

/// Daily volume reset. A swap that goes through a full day or more after
/// the bucket opened starts a new bucket at the time of the swap, and the
/// bucket then holds the swap's amount and nothing else. Whatever volume
/// the old bucket held has no bearing on the outcome.
pub proof fn lemma_daily_volume_reset(
    pool: Pool,
    prior_volume: nat,
    last_trade_tick: nat,
    amount_in: nat,
    min_amount_out: nat,
    a_to_b: bool,
    now: int,
    tick: nat,
)
    requires
        now >= pool.last_volume_reset_time + SECONDS_PER_DAY,
    ensures
        swap_step(
            Pool { daily_volume: prior_volume, ..pool },
            last_trade_tick,
            amount_in,
            min_amount_out,
            a_to_b,
            now,
            tick,
        ) == swap_step(pool, last_trade_tick, amount_in, min_amount_out, a_to_b, now, tick),
        swap_step(
            pool,
            last_trade_tick,
            amount_in,
            min_amount_out,
            a_to_b,
            now,
            tick,
        ) matches Ok(after) ==> after.pool.daily_volume == amount_in
            && after.pool.last_volume_reset_time == now,
{
    let other = Pool { daily_volume: prior_volume, ..pool };
    assert(volume_bucket_expired(pool, now));
    assert(volume_bucket_expired(other, now));
    assert(roll_volume_bucket(other, now) == roll_volume_bucket(pool, now));
}

/// A swap that goes through within the day of the open bucket adds its
/// amount to the bucket and leaves the bucket's start alone.
pub proof fn lemma_daily_volume_accumulates(
    pool: Pool,
    last_trade_tick: nat,
    amount_in: nat,
    min_amount_out: nat,
    a_to_b: bool,
    now: int,
    tick: nat,
)
    requires
        now < pool.last_volume_reset_time + SECONDS_PER_DAY,
        swap_step(pool, last_trade_tick, amount_in, min_amount_out, a_to_b, now, tick) is Ok,
    ensures
        ({
            let after = swap_step(
                pool,
                last_trade_tick,
                amount_in,
                min_amount_out,
                a_to_b,
                now,
                tick,
            )->Ok_0.pool;
            &&& after.daily_volume == pool.daily_volume + amount_in
            &&& after.daily_volume <= after.daily_volume_limit
            &&& after.last_volume_reset_time == pool.last_volume_reset_time
        }),
{
}

/// Repeat-trade guard. Once a trader's swap has gone through in a slot,
/// any further swap in that slot by the same trader that gets as far as
/// the guard is refused with `FlashLoanDetected`. The guard refuses nobody
/// whose last swap was in another slot: for such a trader the outcome is
/// the same whatever that other slot was.
pub proof fn lemma_repeat_trade_guard(
    pool: Pool,
    last_trade_tick: nat,
    amount_in: nat,
    min_amount_out: nat,
    a_to_b: bool,
    now: int,
    tick: nat,
    next_amount_in: nat,
    next_min_amount_out: nat,
    next_a_to_b: bool,
    next_now: int,
    other_last_trade_tick: nat,
    another_last_trade_tick: nat,
)
    requires
        swap_step(pool, last_trade_tick, amount_in, min_amount_out, a_to_b, now, tick) is Ok,
        0 < next_amount_in,
        other_last_trade_tick != tick,
        another_last_trade_tick != tick,
    ensures
        ({
            let after = swap_step(
                pool,
                last_trade_tick,
                amount_in,
                min_amount_out,
                a_to_b,
                now,
                tick,
            )->Ok_0.pool;
            &&& next_amount_in <= after.max_trade_size ==> swap_step(
                after,
                tick,
                next_amount_in,
                next_min_amount_out,
                next_a_to_b,
                next_now,
                tick,
            ) == Err::<SwapOutcome, AmmError>(AmmError::FlashLoanDetected)
            &&& swap_step(
                after,
                other_last_trade_tick,
                next_amount_in,
                next_min_amount_out,
                next_a_to_b,
                next_now,
                tick,
            ) != Err::<SwapOutcome, AmmError>(AmmError::FlashLoanDetected)
            &&& swap_step(
                after,
                other_last_trade_tick,
                next_amount_in,
                next_min_amount_out,
                next_a_to_b,
                next_now,
                tick,
            ) == swap_step(
                after,
                another_last_trade_tick,
                next_amount_in,
                next_min_amount_out,
                next_a_to_b,
                next_now,
                tick,
            )
        }),
{
    lemma_swap_keeps_parameters(
        pool,
        last_trade_tick,
        amount_in,
        min_amount_out,
        a_to_b,
        now,
        tick,
    );
}

/// A swap changes neither whether trading is paused nor any risk
/// parameter, and so leaves a valid pool valid.
pub proof fn lemma_swap_keeps_parameters(
    pool: Pool,
    last_trade_tick: nat,
    amount_in: nat,
    min_amount_out: nat,
    a_to_b: bool,
    now: int,
    tick: nat,
)
    requires
        swap_step(pool, last_trade_tick, amount_in, min_amount_out, a_to_b, now, tick) is Ok,
    ensures
        ({
            let after = swap_step(
                pool,
                last_trade_tick,
                amount_in,
                min_amount_out,
                a_to_b,
                now,
                tick,
            )->Ok_0.pool;
            &&& !pool.trading_paused
            &&& !after.trading_paused
            &&& after.fee_bps == pool.fee_bps
            &&& after.max_trade_size == pool.max_trade_size
            &&& after.daily_volume_limit == pool.daily_volume_limit
            &&& after.max_slippage_bps == pool.max_slippage_bps
            &&& after.window_length == pool.window_length
            &&& pool.valid() ==> after.valid()
        }),
{
}

/// The averages move only with the clock of an operation. A refresh at or
/// before the time of the last average changes nothing at all; a refresh
/// sooner after it than the window leaves both averages as they were; and
/// a second refresh at the time of the first leaves both averages as the
/// first left them.
pub proof fn lemma_twap_stays_put(pool: Pool, now: int)
    ensures
        now <= pool.last_twap_update_time ==> twap_refresh(pool, now) == Ok::<Pool, AmmError>(pool),
        twap_refresh(pool, now) matches Ok(after) ==> {
            &&& now - pool.last_twap_update_time < pool.window_length ==> after.twap_a
                == pool.twap_a && after.twap_b == pool.twap_b
            &&& twap_refresh(after, now) matches Ok(again) ==> again.twap_a == after.twap_a
                && again.twap_b == after.twap_b
        },
{
}

/// No administrative update touches a reserve, the units in issue, the
/// day's volume or anything of the averages, and none makes a valid pool
/// invalid.
pub proof fn lemma_update_parameters_keeps_ledger(
    pool: Pool,
    new_max_trade_size: Option<u64>,
    new_daily_volume_limit: Option<u64>,
    new_max_slippage_bps: Option<u16>,
)
    requires
        update_parameters_step(
            pool,
            new_max_trade_size,
            new_daily_volume_limit,
            new_max_slippage_bps,
        ) is Ok,
    ensures
        ({
            let after = update_parameters_step(
                pool,
                new_max_trade_size,
                new_daily_volume_limit,
                new_max_slippage_bps,
            )->Ok_0;
            &&& after == Pool {
                max_trade_size: after.max_trade_size,
                daily_volume_limit: after.daily_volume_limit,
                max_slippage_bps: after.max_slippage_bps,
                ..pool
            }
            &&& pool.valid() ==> after.valid()
        }),
{
}

/// A deposit that goes through leaves both reserves positive, grown by
/// exactly what was deposited, and leaves units in issue. What the first
/// deposit mints is the floor of the geometric mean of its two amounts.
pub proof fn lemma_deposit_reserves(
    pool: Pool,
    amount_a: nat,
    amount_b: nat,
    min_units: nat,
    now: int,
)
    requires
        add_liquidity_step(pool, amount_a, amount_b, min_units, now) is Ok,
    ensures
        ({
            let outcome: DepositOutcome = add_liquidity_step(
                pool,
                amount_a,
                amount_b,
                min_units,
                now,
            )->Ok_0;
            &&& outcome.pool.reserve_a == pool.reserve_a + amount_a
            &&& outcome.pool.reserve_b == pool.reserve_b + amount_b
            &&& outcome.pool.reserve_a > 0
            &&& outcome.pool.reserve_b > 0
            &&& outcome.pool.total_liquidity_units == pool.total_liquidity_units
                + outcome.units_minted
            &&& outcome.pool.total_liquidity_units > 0
            &&& outcome.units_minted >= min_units
            &&& pool.total_liquidity_units == 0 ==> is_floor_sqrt(
                amount_a * amount_b,
                outcome.units_minted,
            )
            &&& pool.valid() ==> outcome.pool.valid()
        }),
{
    if pool.total_liquidity_units == 0 {
        let n = amount_a * amount_b;
        lemma_isqrt_exists(n);
        assert(n >= 1) by (nonlinear_arith)
            requires
                n == amount_a * amount_b,
                amount_a >= 1,
                amount_b >= 1,
        ;
        let r = isqrt(n);
        if r == 0 {
            assert((r + 1) * (r + 1) == 1) by (nonlinear_arith)
                requires
                    r == 0,
            ;
        }
    }
}

} // verus!
