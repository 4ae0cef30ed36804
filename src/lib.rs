//! A binary-outcome prediction market: a constant-product market maker
//! quoting YES and NO shares, liquidity-provider accounting, per-user
//! positions, and an oracle-settled market lifecycle.
//!
//! Every instruction is a transition on plain account values: it either
//! fails with a [`MarketError`](state::MarketError) and leaves its accounts
//! untouched, or applies all of its updates at once and reports the amount
//! of collateral the host has to move.

use vstd::prelude::*;

pub mod amm;
pub mod laws;
pub mod lifecycle;
pub mod liquidity;
pub mod math;
pub mod oracle;
pub mod state;
pub mod trading;

pub use amm::get_price_for_side;
pub use lifecycle::{
    cancel_market, claim_winnings, create_market, delegate_market, resolve_market, CancelMarket,
    ClaimWinnings, CreateMarket, DelegateMarket, ResolveMarket,
};
pub use liquidity::{add_liquidity, initialize_pool, remove_liquidity, InitializePool, ModifyLiquidity};
pub use state::{LPPosition, Market, MarketError, MarketStatus, OraclePrice, Outcome, Pool, Position, Pubkey};
pub use trading::{buy_shares, sell_shares, Trade};

verus! {

/// Denominator of every basis-point ratio.
pub const BASIS_POINTS: u64 = 10000;

/// Trading fee, in basis points of the traded amount.
pub const LP_FEE_BPS: u64 = 30;

/// Smallest initial deposit accepted when a pool is opened.
pub const MIN_LIQUIDITY: u64 = 1000;

/// Fixed-point scale of prices: `PRICE_DECIMALS` stands for a price of 1.
pub const PRICE_DECIMALS: u64 = 1_000_000;

/// Fixed-point scale of share amounts.
pub const SHARE_DECIMALS: u64 = 1_000_000;

/// Largest single buy, in basis points of the pool's total liquidity.
pub const MAX_TRADE_SIZE_BPS: u64 = 1000;

/// Seconds that must pass after expiration before a market can be resolved.
pub const RESOLUTION_DELAY: i64 = 300;

/// Smallest output a trade may produce.
pub const MIN_SHARES_OUTPUT: u64 = 1000;

/// Largest accepted age, in seconds, of the oracle price used to resolve.
pub const MAX_ORACLE_STALENESS: u64 = 300;

/// Largest accepted age, in seconds, of the oracle price seen at creation.
pub const CREATION_ORACLE_STALENESS: u64 = 3600;

/// Longest market description, in bytes.
pub const MAX_DESCRIPTION_LEN: usize = 128;

} // verus!
