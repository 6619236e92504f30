//! Records of what an operation did, for the host to publish.

use anchor_lang::prelude::Pubkey;
use vstd::prelude::*;

verus! {

/// Liquidity was added. The two amounts are what the host moves from the
/// depositor into the vaults.
#[derive(Clone, Copy, Debug, PartialEq, Eq)]
pub struct LiquidityAdded {
    pub user: Pubkey,
    pub pfrt_amount: u64,
    pub nfrt_amount: u64,
    pub liquidity_minted: u64,
}

/// A swap went through. The host moves `amount_in`, fee included, from the
/// trader into the paying-in vault and `amount_out` from the other vault
/// to the trader.
#[derive(Clone, Copy, Debug, PartialEq, Eq)]
pub struct SwapEvent {
    pub user: Pubkey,
    pub amount_in: u64,
    pub amount_out: u64,
    pub fee: u64,
    pub is_pfrt_to_nfrt: bool,
}

/// Trading was paused.
#[derive(Clone, Copy, Debug, PartialEq, Eq)]
pub struct TradingPaused {
    pub authority: Pubkey,
}

/// Trading was resumed.
#[derive(Clone, Copy, Debug, PartialEq, Eq)]
pub struct TradingResumed {
    pub authority: Pubkey,
}

} // verus!
