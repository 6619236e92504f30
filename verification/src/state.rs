//! The pool ledger, the per-trader record, and the mathematical view that
//! the contracts of every operation are stated over.

use anchor_lang::prelude::Pubkey;
use vstd::prelude::*;

verus! {

/// The address type of the hosting chain, `solana_program::pubkey::Pubkey`
/// as `anchor_lang::prelude` exports it. The pool stores such addresses and
/// hands them back; nothing here looks inside one, and nothing is claimed
/// of one.
#[verifier::external_type_specification]
#[verifier::external_body]
pub struct ExPubkey(Pubkey);

/// Highest trading fee a pool may charge, in basis points.
pub const MAX_TRADING_FEE_BPS: u16 = 100;

/// Highest slippage tolerance a pool may be configured with, in basis points.
pub const MAX_SLIPPAGE_BPS: u16 = 1000;

/// Length in seconds of the averaging window a new pool starts with.
pub const DEFAULT_TWAP_WINDOW: i64 = 900;

/// The ledger of one trading pair. Side A is the PFRT token, side B the
/// NFRT token.
#[derive(Clone, Copy, Debug, PartialEq, Eq)]
pub struct AmmState {
    /// Who may pause, resume and reconfigure the pool.
    pub authority: Pubkey,
    /// Mint of side A.
    pub pfrt_mint: Pubkey,
    /// Mint of side B.
    pub nfrt_mint: Pubkey,
    /// Vault that holds the side A reserve.
    pub pfrt_vault: Pubkey,
    /// Vault that holds the side B reserve.
    pub nfrt_vault: Pubkey,
    /// Reserve of side A that the ledger believes the vault holds.
    pub pfrt_balance: u64,
    /// Reserve of side B that the ledger believes the vault holds.
    pub nfrt_balance: u64,
    /// Liquidity units minted so far; none are ever burned.
    pub total_liquidity: u64,
    /// Fee taken from the amount paid in, in basis points.
    pub trading_fee_bps: u16,
    /// Largest amount a single swap may pay in.
    pub max_trade_size: u64,
    /// Largest volume the pool accepts within one day's bucket.
    pub daily_volume_limit: u64,
    /// Configured slippage tolerance, in basis points. It is stored and
    /// bounded; a swap is held to the minimum its caller names, not to this.
    pub max_slippage_bps: u16,
    /// Whether trading is paused.
    pub trading_paused: bool,
    /// Volume paid in since the current bucket opened.
    pub daily_volume: u64,
    /// Time at which the current bucket opened.
    pub last_volume_reset: i64,
    /// Shortest span, in seconds, that an average price is taken over.
    pub twap_window: i64,
    /// Price of side A, weighted by elapsed time, since the last average.
    pub pfrt_price_cumulative: u128,
    /// Price of side B, weighted by elapsed time, since the last average.
    pub nfrt_price_cumulative: u128,
    /// Time at which the last average was taken.
    pub last_twap_update: i64,
    /// Last averaged price of side A in units of side B, scaled by a million.
    pub pfrt_twap: u64,
    /// Last averaged price of side B in units of side A, scaled by a million.
    pub nfrt_twap: u64,
}

/// What the pool remembers of one trader.
#[derive(Clone, Copy, Debug, PartialEq, Eq)]
pub struct UserTradeState {
    /// Slot of the trader's most recent swap; zero before the first.
    pub last_trade_slot: u64,
}

/// The pool as the rules see it: the same ledger with unbounded numbers.
pub struct Pool {
    pub authority: Pubkey,
    pub mint_a: Pubkey,
    pub mint_b: Pubkey,
    pub vault_a: Pubkey,
    pub vault_b: Pubkey,
    pub reserve_a: nat,
    pub reserve_b: nat,
    pub total_liquidity_units: nat,
    pub fee_bps: nat,
    pub max_trade_size: nat,
    pub daily_volume_limit: nat,
    pub max_slippage_bps: nat,
    pub trading_paused: bool,
    pub daily_volume: nat,
    pub last_volume_reset_time: int,
    pub window_length: int,
    pub price_cumulative_a: nat,
    pub price_cumulative_b: nat,
    pub last_twap_update_time: int,
    pub twap_a: nat,
    pub twap_b: nat,
}

impl View for AmmState {
    type V = Pool;

    open spec fn view(&self) -> Pool {
        Pool {
            authority: self.authority,
            mint_a: self.pfrt_mint,
            mint_b: self.nfrt_mint,
            vault_a: self.pfrt_vault,
            vault_b: self.nfrt_vault,
            reserve_a: self.pfrt_balance as nat,
            reserve_b: self.nfrt_balance as nat,
            total_liquidity_units: self.total_liquidity as nat,
            fee_bps: self.trading_fee_bps as nat,
            max_trade_size: self.max_trade_size as nat,
            daily_volume_limit: self.daily_volume_limit as nat,
            max_slippage_bps: self.max_slippage_bps as nat,
            trading_paused: self.trading_paused,
            daily_volume: self.daily_volume as nat,
            last_volume_reset_time: self.last_volume_reset as int,
            window_length: self.twap_window as int,
            price_cumulative_a: self.pfrt_price_cumulative as nat,
            price_cumulative_b: self.nfrt_price_cumulative as nat,
            last_twap_update_time: self.last_twap_update as int,
            twap_a: self.pfrt_twap as nat,
            twap_b: self.nfrt_twap as nat,
        }
    }
}

impl Pool {
    /// The bounds every pool's parameters keep: a fee of at most one
    /// percent and a slippage tolerance of at most ten.
    pub open spec fn valid(self) -> bool {
        &&& self.fee_bps <= MAX_TRADING_FEE_BPS
        &&& self.max_slippage_bps <= MAX_SLIPPAGE_BPS
    }

    /// The reserve a swap in the given direction pays into.
    pub open spec fn reserve_in(self, a_to_b: bool) -> nat {
        if a_to_b {
            self.reserve_a
        } else {
            self.reserve_b
        }
    }

    /// The reserve a swap in the given direction is paid out of.
    pub open spec fn reserve_out(self, a_to_b: bool) -> nat {
        if a_to_b {
            self.reserve_b
        } else {
            self.reserve_a
        }
    }

    /// The pool with its two reserves replaced, named by the side a swap
    /// in the given direction pays into and out of.
    pub open spec fn with_reserves(self, a_to_b: bool, reserve_in: nat, reserve_out: nat) -> Pool {
        if a_to_b {
            Pool { reserve_a: reserve_in, reserve_b: reserve_out, ..self }
        } else {
            Pool { reserve_a: reserve_out, reserve_b: reserve_in, ..self }
        }
    }

    /// The constant-product invariant: the product of the two reserves.
    pub open spec fn product(self) -> nat {
        self.reserve_a * self.reserve_b
    }
}

impl UserTradeState {
    /// The record of a trader who has not swapped yet.
    pub fn new() -> (record: UserTradeState)
        ensures
            record.last_trade_slot == 0,
    {
        UserTradeState { last_trade_slot: 0 }
    }
}

} // verus!
