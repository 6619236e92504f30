use anchor_lang::prelude::Pubkey;
use ziro_delta_amm::admin::{initialize, pause_trading, resume_trading, update_parameters};
use ziro_delta_amm::error::AmmError;
use ziro_delta_amm::state::AmmState;
use ziro_delta_amm::twap::update_twap;

fn address(tag: u8) -> Pubkey {
    Pubkey::new_from_array([tag; 32])
}

fn priced_pool(reserve_a: u64, reserve_b: u64) -> AmmState {
    let mut pool = initialize(
        address(1),
        address(2),
        address(3),
        address(4),
        address(5),
        100,
        1_000_000,
        10_000_000,
        500,
        0,
    )
    .unwrap();
    pool.pfrt_balance = reserve_a;
    pool.nfrt_balance = reserve_b;
    pool
}

#[test]
fn refresh_after_a_full_window_takes_the_averages() {
    let mut pool = priced_pool(1000, 2000);
    assert_eq!(update_twap(&mut pool, 900), Ok(()));
    assert_eq!(pool.pfrt_twap, 2_000_000);
    assert_eq!(pool.nfrt_twap, 500_000);
    assert_eq!(pool.pfrt_price_cumulative, 0);
    assert_eq!(pool.nfrt_price_cumulative, 0);
    assert_eq!(pool.last_twap_update, 900);
}

#[test]
fn refresh_within_the_window_only_accumulates() {
    let mut pool = priced_pool(1000, 2000);
    pool.pfrt_twap = 11;
    pool.nfrt_twap = 22;
    assert_eq!(update_twap(&mut pool, 100), Ok(()));
    assert_eq!(pool.pfrt_price_cumulative, 200_000_000);
    assert_eq!(pool.nfrt_price_cumulative, 50_000_000);
    assert_eq!(pool.pfrt_twap, 11);
    assert_eq!(pool.nfrt_twap, 22);
    assert_eq!(pool.last_twap_update, 0);
}

#[test]
fn average_is_taken_over_the_time_since_the_last_average() {
    let mut pool = priced_pool(1000, 2000);
    update_twap(&mut pool, 100).unwrap();
    update_twap(&mut pool, 900).unwrap();
    // (2_000_000 * 100 + 2_000_000 * 900) / 900
    assert_eq!(pool.pfrt_twap, 2_222_222);
    // (500_000 * 100 + 500_000 * 900) / 900
    assert_eq!(pool.nfrt_twap, 555_555);
    assert_eq!(pool.last_twap_update, 900);
}

#[test]
fn price_rounds_down() {
    let mut pool = priced_pool(3, 1);
    update_twap(&mut pool, 900).unwrap();
    assert_eq!(pool.pfrt_twap, 333_333);
    assert_eq!(pool.nfrt_twap, 3_000_000);
}

#[test]
fn refresh_without_elapsed_time_changes_nothing() {
    let mut pool = priced_pool(1000, 2000);
    pool.last_twap_update = 500;
    pool.pfrt_price_cumulative = 77;
    let before = pool;
    assert_eq!(update_twap(&mut pool, 500), Ok(()));
    assert_eq!(pool, before);
    assert_eq!(update_twap(&mut pool, 499), Ok(()));
    assert_eq!(pool, before);
    assert_eq!(update_twap(&mut pool, i64::MIN), Ok(()));
    assert_eq!(pool, before);
}

#[test]
fn refresh_with_an_empty_reserve_changes_nothing() {
    for (a, b) in [(0u64, 2000u64), (1000, 0), (0, 0)] {
        let mut pool = priced_pool(a, b);
        let before = pool;
        assert_eq!(update_twap(&mut pool, 5_000), Ok(()));
        assert_eq!(pool, before);
    }
}

#[test]
fn second_refresh_at_the_same_time_keeps_the_averages() {
    let mut pool = priced_pool(1000, 2000);
    update_twap(&mut pool, 900).unwrap();
    let after_first = pool;
    assert_eq!(update_twap(&mut pool, 900), Ok(()));
    assert_eq!(pool, after_first);
}

#[test]
fn averages_stay_put_while_nothing_refreshes_them() {
    let mut pool = priced_pool(1000, 2000);
    update_twap(&mut pool, 900).unwrap();
    let (a, b) = (pool.pfrt_twap, pool.nfrt_twap);
    // Administration does not refresh, however late it comes.
    pause_trading(&mut pool);
    resume_trading(&mut pool);
    update_parameters(&mut pool, Some(5), Some(6), Some(7)).unwrap();
    assert_eq!((pool.pfrt_twap, pool.nfrt_twap), (a, b));
    assert_eq!(pool.last_twap_update, 900);
    assert_eq!(pool.pfrt_price_cumulative, 0);
    assert_eq!(pool.nfrt_price_cumulative, 0);
}

#[test]
fn window_that_is_not_positive_averages_at_once() {
    let mut pool = priced_pool(1000, 1000);
    pool.twap_window = -5;
    update_twap(&mut pool, 1).unwrap();
    assert_eq!(pool.pfrt_twap, 1_000_000);
    assert_eq!(pool.last_twap_update, 1);
}

#[test]
fn refresh_across_the_whole_clock() {
    let mut pool = priced_pool(1, 1);
    pool.last_twap_update = i64::MIN;
    assert_eq!(update_twap(&mut pool, i64::MAX), Ok(()));
    assert_eq!(pool.pfrt_twap, 1_000_000);
    assert_eq!(pool.nfrt_twap, 1_000_000);
    assert_eq!(pool.last_twap_update, i64::MAX);
}

#[test]
fn accumulator_overflow_is_an_arithmetic_error() {
    let mut pool = priced_pool(1000, 2000);
    pool.pfrt_price_cumulative = u128::MAX - 199_999_999;
    let before = pool;
    assert_eq!(update_twap(&mut pool, 100), Err(AmmError::ArithmeticError));
    assert_eq!(pool, before);
    pool.pfrt_price_cumulative = u128::MAX - 200_000_000;
    assert_eq!(update_twap(&mut pool, 100), Ok(()));
    assert_eq!(pool.pfrt_price_cumulative, u128::MAX);
}

#[test]
fn weighted_price_overflow_is_an_arithmetic_error() {
    // Price 2^64 - 1 million-fold, held for nearly 2^64 seconds.
    let mut pool = priced_pool(1, u64::MAX);
    pool.last_twap_update = i64::MIN;
    let before = pool;
    assert_eq!(update_twap(&mut pool, i64::MAX), Err(AmmError::ArithmeticError));
    assert_eq!(pool, before);
}

#[test]
fn average_beyond_sixty_four_bits_is_an_arithmetic_error() {
    let mut pool = priced_pool(1, 1);
    pool.twap_window = 1;
    pool.nfrt_price_cumulative = 1u128 << 70;
    let before = pool;
    assert_eq!(update_twap(&mut pool, 1), Err(AmmError::ArithmeticError));
    assert_eq!(pool, before);
    pool.nfrt_price_cumulative = u64::MAX as u128 - 1_000_000;
    assert_eq!(update_twap(&mut pool, 1), Ok(()));
    assert_eq!(pool.nfrt_twap, u64::MAX);
}
