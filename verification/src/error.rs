//! The ways an operation on the pool is refused.

use vstd::prelude::*;

verus! {

/// Why an operation was refused. A refused operation leaves the pool and
/// the trader record exactly as they were.
#[derive(Clone, Copy, Debug, PartialEq, Eq, Structural)]
pub enum AmmError {
    /// Trading is paused.
    TradingPaused,
    /// An amount that must be positive is zero.
    InvalidAmount,
    /// The amount offered is above the pool's cap on a single trade.
    TradeSizeTooLarge,
    /// The trade would lift the day's volume above its cap.
    DailyVolumeLimitExceeded,
    /// The operation would yield less than the caller's stated minimum.
    SlippageExceeded,
    /// The trader has already swapped in the current slot.
    FlashLoanDetected,
    /// The trading fee is above one percent.
    FeeTooHigh,
    /// The slippage tolerance is above ten percent.
    SlippageTooHigh,
    /// Kept for hosts that report an empty pool; no operation here returns it.
    InsufficientLiquidity,
    /// A quantity left the range of its integer type, or a division met a
    /// reserve of zero.
    ArithmeticError,
}

} // verus!
