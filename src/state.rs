//! Account records and the values they are built from.

use vstd::prelude::*;

verus! {

broadcast use vstd::array::group_array_axioms;

/// A 32-byte account address.
#[derive(Clone, Copy, Debug)]
pub struct Pubkey {
    pub bytes: [u8; 32],
}

impl View for Pubkey {
    type V = Seq<u8>;

    open spec fn view(&self) -> Seq<u8> {
        self.bytes@
    }
}

impl Pubkey {
    /// The all-zero address, which marks a record that was never filled in.
    pub fn zero() -> (k: Pubkey)
        ensures
            k.is_zero_spec(),
    {
        Pubkey { bytes: [0u8; 32] }
    }

    pub open spec fn is_zero_spec(&self) -> bool {
        forall|i: int| 0 <= i < 32 ==> #[trigger] self.bytes[i] == 0
    }

    /// Whether this is the all-zero address.
    pub fn is_zero(&self) -> (r: bool)
        ensures
            r == self.is_zero_spec(),
    {
        let mut i: usize = 0;
        while i < 32
            invariant
                i <= 32,
                forall|j: int| 0 <= j < i ==> #[trigger] self.bytes[j] == 0,
            decreases 32 - i,
        {
            if self.bytes[i] != 0 {
                return false;
            }
            i = i + 1;
        }
        true
    }
}

impl PartialEq for Pubkey {
    fn eq(&self, other: &Pubkey) -> (r: bool)
        ensures
            r == (self@ == other@),
    {
        let mut i: usize = 0;
        while i < 32
            invariant
                i <= 32,
                forall|j: int| 0 <= j < i ==> #[trigger] self.bytes[j] == other.bytes[j],
            decreases 32 - i,
        {
            if self.bytes[i] != other.bytes[i] {
                assert(self.bytes@[i as int] != other.bytes@[i as int]);
                return false;
            }
            i = i + 1;
        }
        assert(self.bytes@ =~= other.bytes@);
        true
    }
}

impl vstd::std_specs::cmp::PartialEqSpecImpl for Pubkey {
    open spec fn obeys_eq_spec() -> bool {
        true
    }

    open spec fn eq_spec(&self, other: &Pubkey) -> bool {
        self@ == other@
    }
}

/// One of the two sides of a binary market.
#[derive(Clone, Copy, PartialEq, Eq, Structural, Debug)]
pub enum Outcome {
    Yes,
    No,
}

/// Where a market stands in its lifecycle.
#[derive(Clone, Copy, PartialEq, Eq, Structural, Debug)]
pub enum MarketStatus {
    Active,
    Resolved,
    Cancelled,
}

/// Why an instruction was refused.
#[derive(Clone, Copy, PartialEq, Eq, Structural, Debug)]
pub enum MarketError {
    InvalidExpiration,
    DescriptionTooLong,
    InsufficientLiquidity,
    MarketNotActive,
    InvalidAmount,
    SlippageExceeded,
    MarketNotExpired,
    ConfidenceTooHigh,
    MarketNotResolved,
    InvalidPosition,
    NoWinnings,
    InvalidOraclePrice,
    InsufficientShares,
    AlreadyClaimed,
    InsufficientVaultFunds,
    PoolNotInitialized,
    TradeExceedsMaxSize,
    Unauthorized,
    MarketCannotBeCancelled,
    OutputTooSmall,
    /// A balance or reserve would leave the 64-bit range.
    MathOverflow,
}

/// A binary market on whether an oracle price ends at or above a strike.
#[derive(Clone, Debug)]
pub struct Market {
    /// Creator, the only account that may cancel the market.
    pub authority: Pubkey,
    pub market_id: [u8; 32],
    /// Threshold compared with the oracle price at resolution.
    pub strike_price: i64,
    /// Unix time at which trading is meant to end.
    pub expiration: i64,
    /// Address of the oracle price account used for resolution.
    pub pyth_price_account: Pubkey,
    /// Widest oracle confidence interval accepted at resolution.
    pub max_confidence: u64,
    pub status: MarketStatus,
    pub outcome: Option<Outcome>,
    pub resolution_price: Option<i64>,
    pub resolution_timestamp: Option<i64>,
    pub total_yes_shares: u64,
    pub total_no_shares: u64,
    pub description: String,
    pub bump: u8,
}

impl Market {
    /// The resolution fields are present exactly when the market is resolved.
    pub open spec fn wf(&self) -> bool {
        &&& (self.status == MarketStatus::Resolved) == self.outcome is Some
        &&& (self.status == MarketStatus::Resolved) == self.resolution_price is Some
        &&& (self.status == MarketStatus::Resolved) == self.resolution_timestamp is Some
    }
}

/// The market maker of one market.
#[derive(Clone, Copy, Debug)]
pub struct Pool {
    pub market: Pubkey,
    /// Virtual YES reserve.
    pub yes_reserve: u64,
    /// Virtual NO reserve.
    pub no_reserve: u64,
    /// Net collateral deposited by liquidity providers.
    pub total_liquidity: u64,
    /// Fees charged on trades so far.
    pub total_fees_collected: u64,
    /// Liquidity-provider tokens outstanding.
    pub lp_token_supply: u64,
    pub bump: u8,
}

impl Pool {
    /// Liquidity is never held without liquidity tokens to claim it.
    pub open spec fn wf(&self) -> bool {
        self.total_liquidity > 0 ==> self.lp_token_supply > 0
    }
}

/// One user's liquidity-provider tokens in one pool.
#[derive(Clone, Copy, Debug)]
pub struct LPPosition {
    pub user: Pubkey,
    pub pool: Pubkey,
    pub lp_tokens: u64,
    pub bump: u8,
}

/// One user's shares in one market.
#[derive(Clone, Copy, Debug)]
pub struct Position {
    pub user: Pubkey,
    pub market: Pubkey,
    pub yes_shares: u64,
    pub no_shares: u64,
    /// Volume-weighted entry price of the YES shares, scaled by `PRICE_DECIMALS`.
    pub yes_avg_price: u64,
    /// Volume-weighted entry price of the NO shares, scaled by `PRICE_DECIMALS`.
    pub no_avg_price: u64,
    pub claimed: bool,
    pub bump: u8,
}

impl Position {
    /// The shares held on `side`.
    pub open spec fn shares_on(&self, side: Outcome) -> u64 {
        match side {
            Outcome::Yes => self.yes_shares,
            Outcome::No => self.no_shares,
        }
    }

    /// The shares held on `side`.
    pub fn shares(&self, side: Outcome) -> (r: u64)
        ensures
            r == self.shares_on(side),
    {
        match side {
            Outcome::Yes => self.yes_shares,
            Outcome::No => self.no_shares,
        }
    }
}

/// An oracle reading: a price with its confidence interval, both scaled by
/// `10^expo`, and the time it was published.
#[derive(Clone, Copy, Debug)]
pub struct OraclePrice {
    pub price: i64,
    pub conf: u64,
    pub expo: i32,
    pub publish_time: i64,
}

} // verus!
