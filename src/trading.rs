//! Buying and selling shares against a market's pool.

use vstd::prelude::*;

use crate::amm::{
    buy_reserves, curve_out, get_price_for_side, price_of, sell_reserves, swap, swap_output,
    weighted_average, weighted_average_price,
};
use crate::math::{fee_for, fee_on, max_trade_for, max_trade_size};
use crate::state::{Market, MarketError, MarketStatus, Outcome, Pool, Position, Pubkey};
use crate::MIN_SHARES_OUTPUT;

verus! {

/// The accounts a trade reads and writes, as plain values.
#[derive(Debug)]
pub struct Trade {
    pub market: Market,
    pub pool: Pool,
    /// The trader's position; all zero when the trader never traded here.
    pub position: Position,
    /// The trader.
    pub user: Pubkey,
    /// Address of the market account.
    pub market_key: Pubkey,
    /// Bump of the position's address, recorded when the position is opened.
    pub position_bump: u8,
    /// Collateral held by the market's vault.
    pub vault_lamports: u64,
}

/// `a - b`, or zero when `b` exceeds `a`.
pub open spec fn sat_sub(a: int, b: int) -> int {
    if a >= b {
        a - b
    } else {
        0
    }
}

/// The total of `side`'s shares outstanding in `market`.
pub open spec fn total_on(market: Market, side: Outcome) -> u64 {
    match side {
        Outcome::Yes => market.total_yes_shares,
        Outcome::No => market.total_no_shares,
    }
}

/// `market` with `side`'s outstanding total set to `total`.
pub open spec fn with_total(market: Market, side: Outcome, total: int) -> Market {
    match side {
        Outcome::Yes => Market { total_yes_shares: total as u64, ..market },
        Outcome::No => Market { total_no_shares: total as u64, ..market },
    }
}

/// `pool` with the reserve of `side` set to `own` and the other to `other`.
pub open spec fn with_reserves(pool: Pool, side: Outcome, own: int, other: int) -> Pool {
    match side {
        Outcome::Yes => Pool { yes_reserve: own as u64, no_reserve: other as u64, ..pool },
        Outcome::No => Pool { no_reserve: own as u64, yes_reserve: other as u64, ..pool },
    }
}

/// The average entry price of `side` in `position`.
pub open spec fn avg_on(position: Position, side: Outcome) -> u64 {
    match side {
        Outcome::Yes => position.yes_avg_price,
        Outcome::No => position.no_avg_price,
    }
}

/// `position` with `side`'s shares and average price replaced.
pub open spec fn with_holding(position: Position, side: Outcome, shares: int, avg: int) -> Position {
    match side {
        Outcome::Yes => Position { yes_shares: shares as u64, yes_avg_price: avg as u64, ..position },
        Outcome::No => Position { no_shares: shares as u64, no_avg_price: avg as u64, ..position },
    }
}

/// A never-used position takes its owner, market and bump on first trade.
pub open spec fn opened(position: Position, user: Pubkey, market: Pubkey, bump: u8) -> Position {
    if position.user.is_zero_spec() {
        Position { user, market, bump, ..position }
    } else {
        position
    }
}

/// What a buy of `amount_in` pays into the curve once the fee is taken.
pub open spec fn buy_input(amount_in: u64) -> int {
    amount_in - fee_on(amount_in as int)
}

/// Shares a buy of `amount_in` on `side` takes out of `pool`.
pub open spec fn buy_output(pool: Pool, side: Outcome, amount_in: u64) -> int {
    let (rin, rout) = buy_reserves(pool, side);
    swap_output(rin as int, rout as int, buy_input(amount_in))
}

/// The pool after a buy of `amount_in` on `side`: the payment net of fees
/// enters the opposite reserve, the shares leave `side`'s reserve, and the
/// fee is recorded.
pub open spec fn pool_after_buy(pool: Pool, side: Outcome, amount_in: u64) -> Pool {
    let (rin, rout) = buy_reserves(pool, side);
    let paid = buy_input(amount_in);
    let moved = with_reserves(
        pool,
        side,
        curve_out(rin as int, rout as int, paid),
        rin + paid,
    );
    Pool { total_fees_collected: (pool.total_fees_collected + fee_on(amount_in as int)) as u64, ..moved }
}

/// Whether recording a buy of `amount_in` on `side` would push a balance
/// out of range.
pub open spec fn buy_record_overflows(ctx: Trade, side: Outcome, amount_in: u64) -> bool {
    let shares = buy_output(ctx.pool, side, amount_in);
    let price = price_of(pool_after_buy(ctx.pool, side, amount_in), side);
    let held = ctx.position.shares_on(side);
    ||| ctx.pool.total_fees_collected + fee_on(amount_in as int) > u64::MAX
    ||| total_on(ctx.market, side) + shares > u64::MAX
    ||| held + shares > u64::MAX
    ||| avg_on(ctx.position, side) * held + price * shares > u128::MAX
}

/// Why a buy is refused, checked in this order; `None` when it goes through.
pub open spec fn buy_error(ctx: Trade, side: Outcome, amount_in: u64, min_shares_out: u64) -> Option<
    MarketError,
> {
    let (rin, rout) = buy_reserves(ctx.pool, side);
    let shares = buy_output(ctx.pool, side, amount_in);
    if ctx.market.status != MarketStatus::Active {
        Some(MarketError::MarketNotActive)
    } else if amount_in == 0 {
        Some(MarketError::InvalidAmount)
    } else if amount_in > max_trade_for(ctx.pool.total_liquidity as int) {
        Some(MarketError::TradeExceedsMaxSize)
    } else if ctx.pool.yes_reserve == 0 || ctx.pool.no_reserve == 0 {
        Some(MarketError::PoolNotInitialized)
    } else if rin + buy_input(amount_in) > u64::MAX {
        Some(MarketError::MathOverflow)
    } else if shares < min_shares_out {
        Some(MarketError::SlippageExceeded)
    } else if shares < MIN_SHARES_OUTPUT {
        Some(MarketError::OutputTooSmall)
    } else if buy_record_overflows(ctx, side, amount_in) {
        Some(MarketError::MathOverflow)
    } else {
        None
    }
}

/// The accounts after an accepted buy: the pool moves along its curve, the
/// market's outstanding total and the trader's shares grow by the shares
/// bought, and the trader's average price on `side` becomes the
/// volume-weighted mean with the post-trade price of `side`.
pub open spec fn buy_applied(ctx: Trade, side: Outcome, amount_in: u64) -> Trade {
    let shares = buy_output(ctx.pool, side, amount_in);
    let pool = pool_after_buy(ctx.pool, side, amount_in);
    let position = opened(ctx.position, ctx.user, ctx.market_key, ctx.position_bump);
    let held = position.shares_on(side);
    let avg = weighted_average(
        avg_on(position, side) as int,
        held as int,
        price_of(pool, side),
        shares,
    );
    Trade {
        pool,
        market: with_total(ctx.market, side, total_on(ctx.market, side) + shares),
        position: with_holding(position, side, held + shares, avg),
        ..ctx
    }
}

/// Buys `side` shares for `amount_in` of collateral and returns how many
/// were bought. The fee is taken from `amount_in` before the swap.
/// On success the host moves `amount_in` from the trader to the vault.
pub fn buy_shares(ctx: &mut Trade, side: Outcome, amount_in: u64, min_shares_out: u64) -> (r: Result<
    u64,
    MarketError,
>)
    ensures
        match buy_error(*old(ctx), side, amount_in, min_shares_out) {
            Some(e) => r == Err::<u64, MarketError>(e) && *final(ctx) == *old(ctx),
            None => {
                &&& r == Ok::<u64, MarketError>(buy_output(old(ctx).pool, side, amount_in) as u64)
                &&& *final(ctx) == buy_applied(*old(ctx), side, amount_in)
            },
        },
        old(ctx).pool.wf() ==> final(ctx).pool.wf(),
{
    if ctx.market.status != MarketStatus::Active {
        return Err(MarketError::MarketNotActive);
    }
    if amount_in == 0 {
        return Err(MarketError::InvalidAmount);
    }
    if amount_in > max_trade_size(ctx.pool.total_liquidity) {
        return Err(MarketError::TradeExceedsMaxSize);
    }
    if ctx.pool.yes_reserve == 0 || ctx.pool.no_reserve == 0 {
        return Err(MarketError::PoolNotInitialized);
    }
    let fee = fee_for(amount_in);
    let amount_after_fee = amount_in - fee;
    let (reserve_in, reserve_out) = match side {
        Outcome::Yes => (ctx.pool.no_reserve, ctx.pool.yes_reserve),
        Outcome::No => (ctx.pool.yes_reserve, ctx.pool.no_reserve),
    };
    let quote = match swap(reserve_in, reserve_out, amount_after_fee) {
        Some(q) => q,
        None => {
            return Err(MarketError::MathOverflow);
        },
    };
    let shares_out = quote.output;
    if shares_out < min_shares_out {
        return Err(MarketError::SlippageExceeded);
    }
    if shares_out < MIN_SHARES_OUTPUT {
        return Err(MarketError::OutputTooSmall);
    }
    // Every update below is checked before any of them is made.

    if ctx.pool.total_fees_collected > u64::MAX - fee {
        return Err(MarketError::MathOverflow);
    }
    let market_total = match side {
        Outcome::Yes => ctx.market.total_yes_shares,
        Outcome::No => ctx.market.total_no_shares,
    };
    if market_total > u64::MAX - shares_out {
        return Err(MarketError::MathOverflow);
    }
    let held = ctx.position.shares(side);
    if held > u64::MAX - shares_out {
        return Err(MarketError::MathOverflow);
    }
    let mut pool = ctx.pool;
    match side {
        Outcome::Yes => {
            pool.no_reserve = quote.new_reserve_in;
            pool.yes_reserve = quote.new_reserve_out;
        },
        Outcome::No => {
            pool.yes_reserve = quote.new_reserve_in;
            pool.no_reserve = quote.new_reserve_out;
        },
    }
    pool.total_fees_collected = pool.total_fees_collected + fee;
    let current_price = get_price_for_side(&pool, side);
    let old_avg = match side {
        Outcome::Yes => ctx.position.yes_avg_price,
        Outcome::No => ctx.position.no_avg_price,
    };
    let new_avg = match weighted_average_price(old_avg, held, current_price, shares_out) {
        Some(a) => a,
        None => {
            return Err(MarketError::MathOverflow);
        },
    };
    ctx.pool = pool;
    match side {
        Outcome::Yes => ctx.market.total_yes_shares = market_total + shares_out,
        Outcome::No => ctx.market.total_no_shares = market_total + shares_out,
    }
    if ctx.position.user.is_zero() {
        ctx.position.user = ctx.user;
        ctx.position.market = ctx.market_key;
        ctx.position.bump = ctx.position_bump;
    }
    match side {
        Outcome::Yes => {
            ctx.position.yes_shares = held + shares_out;
            ctx.position.yes_avg_price = new_avg;
        },
        Outcome::No => {
            ctx.position.no_shares = held + shares_out;
            ctx.position.no_avg_price = new_avg;
        },
    }
    Ok(shares_out)
}

/// Collateral a sale of `shares_in` on `side` takes out of `pool`, before the fee.
pub open spec fn sell_gross(pool: Pool, side: Outcome, shares_in: u64) -> int {
    let (rin, rout) = sell_reserves(pool, side);
    swap_output(rin as int, rout as int, shares_in as int)
}

/// Collateral paid to the seller of `shares_in` on `side`: the swap's
/// output less the fee taken from it.
pub open spec fn sell_output(pool: Pool, side: Outcome, shares_in: u64) -> int {
    let gross = sell_gross(pool, side, shares_in);
    gross - fee_on(gross)
}

/// Why a sale is refused, checked in this order; `None` when it goes through.
pub open spec fn sell_error(ctx: Trade, side: Outcome, shares_in: u64, min_amount_out: u64) -> Option<
    MarketError,
> {
    let (rin, rout) = sell_reserves(ctx.pool, side);
    let amount_out = sell_output(ctx.pool, side, shares_in);
    if ctx.market.status != MarketStatus::Active {
        Some(MarketError::MarketNotActive)
    } else if shares_in == 0 {
        Some(MarketError::InvalidAmount)
    } else if ctx.position.shares_on(side) < shares_in {
        Some(MarketError::InsufficientShares)
    } else if ctx.pool.yes_reserve == 0 || ctx.pool.no_reserve == 0 {
        Some(MarketError::PoolNotInitialized)
    } else if rin + shares_in > u64::MAX {
        Some(MarketError::MathOverflow)
    } else if amount_out < min_amount_out {
        Some(MarketError::SlippageExceeded)
    } else if amount_out < MIN_SHARES_OUTPUT {
        Some(MarketError::OutputTooSmall)
    } else if ctx.vault_lamports < amount_out {
        Some(MarketError::InsufficientVaultFunds)
    } else if ctx.pool.total_fees_collected + fee_on(sell_gross(ctx.pool, side, shares_in))
        > u64::MAX {
        Some(MarketError::MathOverflow)
    } else {
        None
    }
}

/// The accounts after an accepted sale: the shares enter `side`'s reserve,
/// the collateral leaves the opposite one, the fee is recorded, and the
/// market's outstanding total and the seller's shares shrink by `shares_in`.
/// The seller's average price is left as it was.
pub open spec fn sell_applied(ctx: Trade, side: Outcome, shares_in: u64) -> Trade {
    let (rin, rout) = sell_reserves(ctx.pool, side);
    let gross = sell_gross(ctx.pool, side, shares_in);
    let moved = with_reserves(
        ctx.pool,
        side,
        rin + shares_in,
        curve_out(rin as int, rout as int, shares_in as int),
    );
    let held = ctx.position.shares_on(side);
    Trade {
        pool: Pool {
            total_fees_collected: (ctx.pool.total_fees_collected + fee_on(gross)) as u64,
            ..moved
        },
        market: with_total(ctx.market, side, sat_sub(total_on(ctx.market, side) as int, shares_in as int)),
        position: with_holding(ctx.position, side, held - shares_in, avg_on(ctx.position, side) as int),
        ..ctx
    }
}

/// Sells `shares_in` shares of `side` back to the pool and returns the
/// collateral owed to the seller. The fee is taken from the swap's output.
/// On success the host moves the returned amount from the vault to the seller.
pub fn sell_shares(ctx: &mut Trade, side: Outcome, shares_in: u64, min_amount_out: u64) -> (r: Result<
    u64,
    MarketError,
>)
    ensures
        match sell_error(*old(ctx), side, shares_in, min_amount_out) {
            Some(e) => r == Err::<u64, MarketError>(e) && *final(ctx) == *old(ctx),
            None => {
                &&& r == Ok::<u64, MarketError>(sell_output(old(ctx).pool, side, shares_in) as u64)
                &&& *final(ctx) == sell_applied(*old(ctx), side, shares_in)
            },
        },
        old(ctx).pool.wf() ==> final(ctx).pool.wf(),
{
    if ctx.market.status != MarketStatus::Active {
        return Err(MarketError::MarketNotActive);
    }
    if shares_in == 0 {
        return Err(MarketError::InvalidAmount);
    }
    let held = ctx.position.shares(side);
    if held < shares_in {
        return Err(MarketError::InsufficientShares);
    }
    if ctx.pool.yes_reserve == 0 || ctx.pool.no_reserve == 0 {
        return Err(MarketError::PoolNotInitialized);
    }
    let (reserve_in, reserve_out) = match side {
        Outcome::Yes => (ctx.pool.yes_reserve, ctx.pool.no_reserve),
        Outcome::No => (ctx.pool.no_reserve, ctx.pool.yes_reserve),
    };
    let quote = match swap(reserve_in, reserve_out, shares_in) {
        Some(q) => q,
        None => {
            return Err(MarketError::MathOverflow);
        },
    };
    let fee = fee_for(quote.output);
    let amount_out = quote.output - fee;
    if amount_out < min_amount_out {
        return Err(MarketError::SlippageExceeded);
    }
    if amount_out < MIN_SHARES_OUTPUT {
        return Err(MarketError::OutputTooSmall);
    }
    if ctx.vault_lamports < amount_out {
        return Err(MarketError::InsufficientVaultFunds);
    }
    if ctx.pool.total_fees_collected > u64::MAX - fee {
        return Err(MarketError::MathOverflow);
    }
    match side {
        Outcome::Yes => {
            ctx.pool.yes_reserve = quote.new_reserve_in;
            ctx.pool.no_reserve = quote.new_reserve_out;
            ctx.market.total_yes_shares = ctx.market.total_yes_shares.saturating_sub(shares_in);
            ctx.position.yes_shares = held - shares_in;
        },
        Outcome::No => {
            ctx.pool.no_reserve = quote.new_reserve_in;
            ctx.pool.yes_reserve = quote.new_reserve_out;
            ctx.market.total_no_shares = ctx.market.total_no_shares.saturating_sub(shares_in);
            ctx.position.no_shares = held - shares_in;
        },
    }
    ctx.pool.total_fees_collected = ctx.pool.total_fees_collected + fee;
    Ok(amount_out)
}

} // verus!
