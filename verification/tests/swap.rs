use anchor_lang::prelude::Pubkey;
use ziro_delta_amm::admin::initialize;
use ziro_delta_amm::error::AmmError;
use ziro_delta_amm::events::SwapEvent;
use ziro_delta_amm::liquidity::add_liquidity;
use ziro_delta_amm::state::{AmmState, UserTradeState};
use ziro_delta_amm::swap::{calculate_swap_amount, swap};

fn trader(tag: u8) -> Pubkey {
    Pubkey::new_from_array([tag; 32])
}

fn pool_with(reserve_a: u64, reserve_b: u64, fee_bps: u16) -> AmmState {
    let mut pool = initialize(
        trader(1),
        trader(2),
        trader(3),
        trader(4),
        trader(5),
        fee_bps,
        1_000_000,
        10_000_000,
        500,
        0,
    )
    .unwrap();
    pool.pfrt_balance = reserve_a;
    pool.nfrt_balance = reserve_b;
    pool.total_liquidity = 1000;
    pool
}

fn idle_trader() -> UserTradeState {
    UserTradeState { last_trade_slot: 0 }
}

#[test]
fn swap_of_one_hundred_against_a_thousand_each() {
    let mut pool = pool_with(1000, 1000, 100);
    assert_eq!(calculate_swap_amount(&pool, 100, true), Ok((91, 1)));
    let mut record = idle_trader();
    let event = swap(&mut pool, &mut record, trader(9), 100, 0, true, 0, 7).unwrap();
    // fee = 100 * 100 / 10000 = 1, net = 99, divisor = 1099,
    // kept = 1_000_000 / 1099 = 909, paid out = 1000 - 909 = 91.
    assert_eq!(
        event,
        SwapEvent { user: trader(9), amount_in: 100, amount_out: 91, fee: 1, is_pfrt_to_nfrt: true }
    );
    let amount_in_net = event.amount_in - event.fee;
    assert_eq!(amount_in_net, 99);
    assert_eq!(1000 + amount_in_net, 1099);
    assert_eq!(1_000_000 / 1099, 909);
    assert_eq!(pool.pfrt_balance, 1100);
    assert_eq!(pool.nfrt_balance, 909);
    assert_eq!(pool.total_liquidity, 1000);
    assert_eq!(pool.daily_volume, 100);
    assert_eq!(record.last_trade_slot, 7);
}

#[test]
fn swap_is_a_function_of_its_inputs() {
    let mut first = pool_with(1000, 1000, 100);
    let mut second = pool_with(1000, 1000, 100);
    let mut one = idle_trader();
    let mut two = idle_trader();
    let a = swap(&mut first, &mut one, trader(9), 100, 0, true, 50, 7);
    let b = swap(&mut second, &mut two, trader(9), 100, 0, true, 50, 7);
    assert_eq!(a, b);
    assert_eq!(first, second);
    assert_eq!(one, two);
}

#[test]
fn swap_in_the_other_direction() {
    let mut pool = pool_with(1000, 2000, 100);
    // fee = 1, net = 99, divisor = 2099, kept = 2_000_000 / 2099 = 952.
    assert_eq!(calculate_swap_amount(&pool, 100, false), Ok((48, 1)));
    let mut record = idle_trader();
    let event = swap(&mut pool, &mut record, trader(9), 100, 48, false, 0, 3).unwrap();
    assert_eq!(event.amount_out, 48);
    assert_eq!(event.fee, 1);
    assert!(!event.is_pfrt_to_nfrt);
    assert_eq!(pool.nfrt_balance, 2100);
    assert_eq!(pool.pfrt_balance, 952);
}

#[test]
fn fee_rounds_down() {
    let pool = pool_with(1_000_000, 1_000_000, 30);
    // 333 * 30 / 10000 = 0.999
    assert_eq!(calculate_swap_amount(&pool, 333, true).unwrap().1, 0);
    // 334 * 30 / 10000 = 1.002
    assert_eq!(calculate_swap_amount(&pool, 334, true).unwrap().1, 1);
    // 10_000 * 30 / 10000 = 30
    assert_eq!(calculate_swap_amount(&pool, 10_000, true).unwrap().1, 30);
}

#[test]
fn product_rises_when_the_fee_outweighs_the_rounding() {
    let mut pool = pool_with(1000, 1000, 100);
    let mut record = idle_trader();
    // fee = 10, divisor = 1990, kept = 502, remainder = 1020 < 10 * 502.
    let event = swap(&mut pool, &mut record, trader(9), 1000, 0, true, 0, 1).unwrap();
    assert_eq!(event.fee, 10);
    assert_eq!(event.amount_out, 498);
    assert_eq!(pool.pfrt_balance, 2000);
    assert_eq!(pool.nfrt_balance, 502);
    let after = pool.pfrt_balance as u128 * pool.nfrt_balance as u128;
    assert_eq!(after, 1_000_000 - 1020 + 10 * 502);
    assert!(after > 1_000_000);
}

#[test]
fn product_falls_when_the_rounding_outweighs_the_fee() {
    let mut pool = pool_with(1000, 1000, 100);
    let mut record = idle_trader();
    // fee = 1, divisor = 1099, kept = 909, remainder = 1009 > 1 * 909.
    swap(&mut pool, &mut record, trader(9), 100, 0, true, 0, 1).unwrap();
    let after = pool.pfrt_balance as u128 * pool.nfrt_balance as u128;
    assert_eq!(after, 1_000_000 - 1009 + 909);
    assert_eq!(after, 999_900);
}

#[test]
fn swap_can_empty_the_paying_out_reserve() {
    let mut pool = pool_with(1, 1, 0);
    let mut record = idle_trader();
    let event = swap(&mut pool, &mut record, trader(9), 1, 0, true, 0, 1).unwrap();
    assert_eq!(event.amount_out, 1);
    assert_eq!(event.fee, 0);
    assert_eq!(pool.pfrt_balance, 2);
    assert_eq!(pool.nfrt_balance, 0);
}

#[test]
fn swap_against_an_empty_pool_pays_nothing_out() {
    let mut pool = pool_with(0, 0, 100);
    let mut record = idle_trader();
    let event = swap(&mut pool, &mut record, trader(9), 500, 0, true, 0, 1).unwrap();
    assert_eq!(event.amount_out, 0);
    assert_eq!(event.fee, 5);
    assert_eq!(pool.pfrt_balance, 500);
    assert_eq!(pool.nfrt_balance, 0);
}

#[test]
fn swap_while_paused_is_refused_first() {
    let mut pool = pool_with(1000, 1000, 100);
    pool.trading_paused = true;
    let before = pool;
    let mut record = UserTradeState { last_trade_slot: 7 };
    assert_eq!(
        swap(&mut pool, &mut record, trader(9), 0, 0, true, 0, 7),
        Err(AmmError::TradingPaused)
    );
    assert_eq!(pool, before);
    assert_eq!(record.last_trade_slot, 7);
}

#[test]
fn swap_of_nothing_is_refused_before_the_guards() {
    let mut pool = pool_with(1000, 1000, 100);
    let before = pool;
    let mut record = UserTradeState { last_trade_slot: 7 };
    assert_eq!(
        swap(&mut pool, &mut record, trader(9), 0, 0, true, 0, 7),
        Err(AmmError::InvalidAmount)
    );
    assert_eq!(pool, before);
}

#[test]
fn swap_above_the_trade_cap_is_refused_before_the_guards() {
    let mut pool = pool_with(10_000_000, 10_000_000, 100);
    let before = pool;
    let mut record = UserTradeState { last_trade_slot: 7 };
    assert_eq!(
        swap(&mut pool, &mut record, trader(9), 1_000_001, 0, true, 0, 7),
        Err(AmmError::TradeSizeTooLarge)
    );
    assert_eq!(pool, before);
    let mut record = idle_trader();
    assert!(swap(&mut pool, &mut record, trader(9), 1_000_000, 0, true, 0, 7).is_ok());
}

#[test]
fn repeat_trade_is_refused_before_the_volume_guard() {
    let mut pool = pool_with(1000, 1000, 100);
    pool.daily_volume = pool.daily_volume_limit;
    let before = pool;
    let mut record = UserTradeState { last_trade_slot: 7 };
    assert_eq!(
        swap(&mut pool, &mut record, trader(9), 10, 0, true, 0, 7),
        Err(AmmError::FlashLoanDetected)
    );
    let mut record = UserTradeState { last_trade_slot: 6 };
    assert_eq!(
        swap(&mut pool, &mut record, trader(9), 10, 0, true, 0, 7),
        Err(AmmError::DailyVolumeLimitExceeded)
    );
    assert_eq!(pool, before);
    assert_eq!(record.last_trade_slot, 6);
}

#[test]
fn swap_below_the_callers_minimum_is_refused() {
    let mut pool = pool_with(1000, 1000, 100);
    let before = pool;
    let mut record = idle_trader();
    assert_eq!(
        swap(&mut pool, &mut record, trader(9), 100, 92, true, 0, 7),
        Err(AmmError::SlippageExceeded)
    );
    assert_eq!(pool, before);
    assert_eq!(record, idle_trader());
    assert!(swap(&mut pool, &mut record, trader(9), 100, 91, true, 0, 7).is_ok());
}

#[test]
fn refused_swap_does_not_keep_a_rolled_bucket() {
    let mut pool = pool_with(1000, 1000, 100);
    pool.daily_volume = 5000;
    let before = pool;
    let mut record = idle_trader();
    // The bucket has expired, so the volume guard passes; the swap is
    // then refused for slippage and nothing of it may remain.
    assert_eq!(
        swap(&mut pool, &mut record, trader(9), 100, 1000, true, 90_000, 7),
        Err(AmmError::SlippageExceeded)
    );
    assert_eq!(pool, before);
}

#[test]
fn swap_that_overflows_the_paying_in_reserve_is_an_arithmetic_error() {
    let mut pool = pool_with(u64::MAX - 50, 1000, 100);
    let before = pool;
    let mut record = idle_trader();
    // The net amount no longer fits beside the reserve.
    assert_eq!(calculate_swap_amount(&pool, 100, true), Err(AmmError::ArithmeticError));
    assert_eq!(
        swap(&mut pool, &mut record, trader(9), 100, 0, true, 0, 7),
        Err(AmmError::ArithmeticError)
    );
    // The net amount fits, the whole amount does not: 200 less a fee of 2.
    let mut pool = pool_with(u64::MAX - 199, 1000, 100);
    assert!(calculate_swap_amount(&pool, 200, true).is_ok());
    assert_eq!(
        swap(&mut pool, &mut record, trader(9), 200, 0, true, 0, 7),
        Err(AmmError::ArithmeticError)
    );
    assert_eq!(record, idle_trader());
    let _ = before;
}

#[test]
fn quote_with_a_fee_above_the_amount_is_an_arithmetic_error() {
    let mut pool = pool_with(1000, 1000, 100);
    pool.trading_fee_bps = 20_000;
    assert_eq!(calculate_swap_amount(&pool, 100, true), Err(AmmError::ArithmeticError));
    // At exactly the whole amount nothing is left to trade with.
    pool.trading_fee_bps = 10_000;
    assert_eq!(calculate_swap_amount(&pool, 100, true), Ok((0, 100)));
}

#[test]
fn quote_of_nothing_against_an_empty_reserve_is_an_arithmetic_error() {
    let pool = pool_with(0, 1000, 100);
    assert_eq!(calculate_swap_amount(&pool, 0, true), Err(AmmError::ArithmeticError));
    let pool = pool_with(1000, 1000, 100);
    assert_eq!(calculate_swap_amount(&pool, 0, true), Ok((0, 0)));
}

#[test]
fn stored_averages_do_not_gate_a_swap() {
    let mut pool = pool_with(1000, 1000, 100);
    // Averages far from the price the swap trades at.
    pool.pfrt_twap = 1;
    pool.nfrt_twap = u64::MAX;
    let mut record = idle_trader();
    let event = swap(&mut pool, &mut record, trader(9), 100, 0, true, 0, 7).unwrap();
    assert_eq!(event.amount_out, 91);
}

#[test]
fn swap_refreshes_the_averages_on_the_new_reserves() {
    let mut pool = pool_with(1000, 1000, 100);
    let mut record = idle_trader();
    swap(&mut pool, &mut record, trader(9), 100, 0, true, 900, 7).unwrap();
    // Prices after the swap: 909 : 1100 and 1100 : 909, held for 900 s.
    assert_eq!(pool.pfrt_twap, 909_000_000 / 1100);
    assert_eq!(pool.nfrt_twap, 1_100_000_000 / 909);
    assert_eq!(pool.pfrt_twap, 826_363);
    assert_eq!(pool.nfrt_twap, 1_210_121);
    assert_eq!(pool.last_twap_update, 900);
}

#[test]
fn swaps_after_a_deposit() {
    let mut pool = pool_with(0, 0, 100);
    pool.total_liquidity = 0;
    add_liquidity(&mut pool, trader(8), 1000, 1000, 0, 0).unwrap();
    let mut record = idle_trader();
    let event = swap(&mut pool, &mut record, trader(9), 100, 0, true, 0, 7).unwrap();
    assert_eq!(event.amount_out, 91);
    assert_eq!((pool.pfrt_balance, pool.nfrt_balance), (1100, 909));
}
