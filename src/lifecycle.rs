//! Creating, resolving, cancelling and settling markets.

use vstd::prelude::*;
use vstd::utf8::encode_utf8;

use crate::oracle::{fresh_price, is_fresh, outcome_for, settle_outcome};
use crate::state::{Market, MarketError, MarketStatus, OraclePrice, Position, Pubkey};
use crate::{CREATION_ORACLE_STALENESS, MAX_DESCRIPTION_LEN, MAX_ORACLE_STALENESS, RESOLUTION_DELAY};

verus! {

/// What creating a market reads besides its arguments, as plain values.
#[derive(Clone, Copy, Debug)]
pub struct CreateMarket {
    /// The creator.
    pub authority: Pubkey,
    /// Address of the oracle price account the market will settle on.
    pub pyth_price_account: Pubkey,
    /// The oracle's current reading, or `None` when its account is unreadable.
    pub oracle: Option<OraclePrice>,
    /// The current Unix time.
    pub now: i64,
    /// Bump of the market's address.
    pub bump: u8,
}

/// Whether `oracle` holds a reading no more than `age` seconds from `now`.
pub open spec fn has_fresh(oracle: Option<OraclePrice>, now: i64, age: u64) -> bool {
    oracle matches Some(p) && is_fresh(p, now, age)
}

/// Why creating a market is refused, checked in this order.
pub open spec fn create_market_error(ctx: CreateMarket, expiration: i64, description: Seq<char>) -> Option<
    MarketError,
> {
    if expiration <= ctx.now {
        Some(MarketError::InvalidExpiration)
    } else if encode_utf8(description).len() > MAX_DESCRIPTION_LEN {
        Some(MarketError::DescriptionTooLong)
    } else if !has_fresh(ctx.oracle, ctx.now, CREATION_ORACLE_STALENESS) {
        Some(MarketError::InvalidOraclePrice)
    } else {
        None
    }
}

/// Creates an active market with no shares outstanding. The expiration
/// must lie in the future, the description must fit in
/// `MAX_DESCRIPTION_LEN` bytes, and the oracle must be publishing.
pub fn create_market(
    ctx: &CreateMarket,
    market_id: [u8; 32],
    strike_price: i64,
    expiration: i64,
    max_confidence: u64,
    description: String,
) -> (r: Result<Market, MarketError>)
    ensures
        match create_market_error(*ctx, expiration, description@) {
            Some(e) => r == Err::<Market, MarketError>(e),
            None => r == Ok::<Market, MarketError>(
                (Market {
                    authority: ctx.authority,
                    market_id,
                    strike_price,
                    expiration,
                    pyth_price_account: ctx.pyth_price_account,
                    max_confidence,
                    status: MarketStatus::Active,
                    outcome: None,
                    resolution_price: None,
                    resolution_timestamp: None,
                    total_yes_shares: 0,
                    total_no_shares: 0,
                    description,
                    bump: ctx.bump,
                }),
            ),
        },
        r matches Ok(m) ==> m.wf(),
{
    if expiration <= ctx.now {
        return Err(MarketError::InvalidExpiration);
    }
    if description.as_str().as_bytes().len() > MAX_DESCRIPTION_LEN {
        return Err(MarketError::DescriptionTooLong);
    }
    if fresh_price(&ctx.oracle, ctx.now, CREATION_ORACLE_STALENESS).is_none() {
        return Err(MarketError::InvalidOraclePrice);
    }
    Ok(
        Market {
            authority: ctx.authority,
            market_id,
            strike_price,
            expiration,
            pyth_price_account: ctx.pyth_price_account,
            max_confidence,
            status: MarketStatus::Active,
            outcome: None,
            resolution_price: None,
            resolution_timestamp: None,
            total_yes_shares: 0,
            total_no_shares: 0,
            description,
            bump: ctx.bump,
        },
    )
}

/// What resolving a market reads and writes, as plain values.
#[derive(Debug)]
pub struct ResolveMarket {
    pub market: Market,
    /// The oracle's current reading, or `None` when its account is unreadable.
    pub oracle: Option<OraclePrice>,
    /// The current Unix time.
    pub now: i64,
}

/// Why a resolution is refused, checked in this order.
pub open spec fn resolve_market_error(ctx: ResolveMarket) -> Option<MarketError> {
    if ctx.market.status != MarketStatus::Active {
        Some(MarketError::MarketNotActive)
    } else if ctx.now < ctx.market.expiration + RESOLUTION_DELAY {
        Some(MarketError::MarketNotExpired)
    } else if !has_fresh(ctx.oracle, ctx.now, MAX_ORACLE_STALENESS) {
        Some(MarketError::InvalidOraclePrice)
    } else if ctx.oracle.unwrap().conf > ctx.market.max_confidence {
        Some(MarketError::ConfidenceTooHigh)
    } else {
        None
    }
}

/// The market once resolved on the oracle's reading: its status, outcome,
/// price and time are set together.
pub open spec fn resolved(ctx: ResolveMarket) -> Market {
    let p = ctx.oracle.unwrap();
    Market {
        status: MarketStatus::Resolved,
        outcome: Some(outcome_for(p.price, ctx.market.strike_price)),
        resolution_price: Some(p.price),
        resolution_timestamp: Some(ctx.now),
        ..ctx.market
    }
}

/// Settles an active market on the oracle's price once `RESOLUTION_DELAY`
/// seconds have passed since expiration: YES when the price reaches the
/// strike, NO otherwise. The reading must be at most
/// `MAX_ORACLE_STALENESS` seconds old and its confidence interval no wider
/// than the market allows.
pub fn resolve_market(ctx: &mut ResolveMarket) -> (r: Result<(), MarketError>)
    ensures
        match resolve_market_error(*old(ctx)) {
            Some(e) => r == Err::<(), MarketError>(e) && *final(ctx) == *old(ctx),
            None => r == Ok::<(), MarketError>(()) && *final(ctx) == (ResolveMarket {
                market: resolved(*old(ctx)),
                ..*old(ctx)
            }),
        },
        old(ctx).market.wf() ==> final(ctx).market.wf(),
{
    if ctx.market.status != MarketStatus::Active {
        return Err(MarketError::MarketNotActive);
    }
    if (ctx.now as i128) < (ctx.market.expiration as i128) + (RESOLUTION_DELAY as i128) {
        return Err(MarketError::MarketNotExpired);
    }
    let reading = match fresh_price(&ctx.oracle, ctx.now, MAX_ORACLE_STALENESS) {
        Some(p) => p,
        None => {
            return Err(MarketError::InvalidOraclePrice);
        },
    };
    if reading.conf > ctx.market.max_confidence {
        return Err(MarketError::ConfidenceTooHigh);
    }
    let outcome = settle_outcome(reading.price, ctx.market.strike_price);
    ctx.market.status = MarketStatus::Resolved;
    ctx.market.outcome = Some(outcome);
    ctx.market.resolution_price = Some(reading.price);
    ctx.market.resolution_timestamp = Some(ctx.now);
    Ok(())
}

/// What claiming winnings reads and writes, as plain values.
#[derive(Debug)]
pub struct ClaimWinnings {
    pub market: Market,
    pub position: Position,
    /// The claimant.
    pub user: Pubkey,
    /// Collateral held by the market's vault.
    pub vault_lamports: u64,
}

/// The shares of `position` on the side `market` resolved to; zero while
/// it has no outcome.
pub open spec fn winning_shares(market: Market, position: Position) -> u64 {
    match market.outcome {
        Some(o) => position.shares_on(o),
        None => 0,
    }
}

/// Why a claim is refused, checked in this order.
pub open spec fn claim_winnings_error(ctx: ClaimWinnings) -> Option<MarketError> {
    if ctx.market.status != MarketStatus::Resolved {
        Some(MarketError::MarketNotResolved)
    } else if ctx.position.user@ != ctx.user@ {
        Some(MarketError::InvalidPosition)
    } else if ctx.position.claimed {
        Some(MarketError::AlreadyClaimed)
    } else if ctx.market.outcome is None {
        Some(MarketError::MarketNotResolved)
    } else if winning_shares(ctx.market, ctx.position) == 0 {
        Some(MarketError::NoWinnings)
    } else if ctx.vault_lamports < winning_shares(ctx.market, ctx.position) {
        Some(MarketError::InsufficientVaultFunds)
    } else {
        None
    }
}

/// Redeems the position's winning shares one for one, marks the position
/// claimed, and returns the payout; losing shares pay nothing. On success
/// the host moves the payout from the vault to the claimant.
pub fn claim_winnings(ctx: &mut ClaimWinnings) -> (r: Result<u64, MarketError>)
    ensures
        match claim_winnings_error(*old(ctx)) {
            Some(e) => r == Err::<u64, MarketError>(e) && *final(ctx) == *old(ctx),
            None => {
                &&& r == Ok::<u64, MarketError>(winning_shares(old(ctx).market, old(ctx).position))
                &&& *final(ctx) == (ClaimWinnings {
                    position: Position { claimed: true, ..old(ctx).position },
                    ..*old(ctx)
                })
            },
        },
{
    if ctx.market.status != MarketStatus::Resolved {
        return Err(MarketError::MarketNotResolved);
    }
    if !(ctx.position.user == ctx.user) {
        return Err(MarketError::InvalidPosition);
    }
    if ctx.position.claimed {
        return Err(MarketError::AlreadyClaimed);
    }
    let outcome = match ctx.market.outcome {
        Some(o) => o,
        None => {
            return Err(MarketError::MarketNotResolved);
        },
    };
    let payout = ctx.position.shares(outcome);
    if payout == 0 {
        return Err(MarketError::NoWinnings);
    }
    if ctx.vault_lamports < payout {
        return Err(MarketError::InsufficientVaultFunds);
    }
    ctx.position.claimed = true;
    Ok(payout)
}

/// What cancelling a market reads and writes, as plain values.
#[derive(Debug)]
pub struct CancelMarket {
    pub market: Market,
    /// The account asking for the cancellation.
    pub authority: Pubkey,
}

/// Why a cancellation is refused, checked in this order.
pub open spec fn cancel_market_error(ctx: CancelMarket) -> Option<MarketError> {
    if ctx.market.status != MarketStatus::Active {
        Some(MarketError::MarketNotActive)
    } else if ctx.market.authority@ != ctx.authority@ {
        Some(MarketError::Unauthorized)
    } else {
        None
    }
}

/// Cancels an active market at its creator's request. A cancelled market
/// never resolves, so no claim on it succeeds.
pub fn cancel_market(ctx: &mut CancelMarket) -> (r: Result<(), MarketError>)
    ensures
        match cancel_market_error(*old(ctx)) {
            Some(e) => r == Err::<(), MarketError>(e) && *final(ctx) == *old(ctx),
            None => r == Ok::<(), MarketError>(()) && *final(ctx) == (CancelMarket {
                market: Market { status: MarketStatus::Cancelled, ..old(ctx).market },
                ..*old(ctx)
            }),
        },
        old(ctx).market.wf() ==> final(ctx).market.wf(),
{
    if ctx.market.status != MarketStatus::Active {
        return Err(MarketError::MarketNotActive);
    }
    if !(ctx.market.authority == ctx.authority) {
        return Err(MarketError::Unauthorized);
    }
    ctx.market.status = MarketStatus::Cancelled;
    Ok(())
}

/// What handing a market to a fast execution venue reads, as plain values.
#[derive(Debug)]
pub struct DelegateMarket {
    pub market: Market,
}

/// Decides whether a market may be handed to a fast execution venue: only
/// an active one may. On success the host performs the hand-over.
pub fn delegate_market(ctx: &DelegateMarket) -> (r: Result<(), MarketError>)
    ensures
        ctx.market.status == MarketStatus::Active ==> r == Ok::<(), MarketError>(()),
        ctx.market.status != MarketStatus::Active ==> r == Err::<(), MarketError>(
            MarketError::MarketNotActive,
        ),
{
    if ctx.market.status != MarketStatus::Active {
        return Err(MarketError::MarketNotActive);
    }
    Ok(())
}

} // verus!
