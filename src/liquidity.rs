//! Opening a pool, and depositing into or withdrawing from it.

use vstd::prelude::*;

use crate::amm::{lp_tokens_for, lp_tokens_to_mint, withdrawal_amount, withdrawal_for};
use crate::state::{LPPosition, Market, MarketError, MarketStatus, Pool, Pubkey};
use crate::trading::sat_sub;
use crate::MIN_LIQUIDITY;

verus! {

/// The addresses a new pool is created under, as plain values.
#[derive(Clone, Copy, Debug)]
pub struct InitializePool {
    /// Address of the market account.
    pub market_key: Pubkey,
    /// Address of the new pool account.
    pub pool_key: Pubkey,
    /// The initial liquidity provider.
    pub authority: Pubkey,
    pub pool_bump: u8,
    pub lp_position_bump: u8,
}

/// The accounts a deposit or withdrawal reads and writes, as plain values.
#[derive(Debug)]
pub struct ModifyLiquidity {
    pub market: Market,
    pub pool: Pool,
    /// The provider's position; all zero when the provider never deposited here.
    pub lp_position: LPPosition,
    /// The liquidity provider.
    pub user: Pubkey,
    /// Address of the pool account.
    pub pool_key: Pubkey,
    /// Bump of the position's address, recorded when the position is opened.
    pub lp_position_bump: u8,
    /// Collateral held by the market's vault.
    pub vault_lamports: u64,
}

/// Why opening a pool with `initial_liquidity` per side is refused.
pub open spec fn initialize_pool_error(initial_liquidity: u64) -> Option<MarketError> {
    if initial_liquidity < MIN_LIQUIDITY {
        Some(MarketError::InsufficientLiquidity)
    } else if 2 * initial_liquidity > u64::MAX {
        Some(MarketError::MathOverflow)
    } else {
        None
    }
}

/// Opens the pool of a market with `initial_liquidity` on each side. The
/// provider deposits twice that amount and receives as many liquidity
/// tokens. On success the host moves `pool.total_liquidity` from the
/// authority to the vault.
pub fn initialize_pool(ctx: &InitializePool, initial_liquidity: u64) -> (r: Result<
    (Pool, LPPosition),
    MarketError,
>)
    ensures
        match initialize_pool_error(initial_liquidity) {
            Some(e) => r == Err::<(Pool, LPPosition), MarketError>(e),
            None => r matches Ok((pool, lp)) && {
                &&& pool.market == ctx.market_key
                &&& pool.yes_reserve == initial_liquidity
                &&& pool.no_reserve == initial_liquidity
                &&& pool.total_liquidity == 2 * initial_liquidity
                &&& pool.total_fees_collected == 0
                &&& pool.lp_token_supply == 2 * initial_liquidity
                &&& pool.bump == ctx.pool_bump
                &&& lp.user == ctx.authority
                &&& lp.pool == ctx.pool_key
                &&& lp.lp_tokens == 2 * initial_liquidity
                &&& lp.bump == ctx.lp_position_bump
                &&& pool.wf()
            },
        },
{
    if initial_liquidity < MIN_LIQUIDITY {
        return Err(MarketError::InsufficientLiquidity);
    }
    if initial_liquidity > u64::MAX / 2 {
        return Err(MarketError::MathOverflow);
    }
    let deposit = initial_liquidity * 2;
    let pool = Pool {
        market: ctx.market_key,
        yes_reserve: initial_liquidity,
        no_reserve: initial_liquidity,
        total_liquidity: deposit,
        total_fees_collected: 0,
        lp_token_supply: deposit,
        bump: ctx.pool_bump,
    };
    let lp = LPPosition {
        user: ctx.authority,
        pool: ctx.pool_key,
        lp_tokens: deposit,
        bump: ctx.lp_position_bump,
    };
    Ok((pool, lp))
}

/// Liquidity tokens a deposit of `amount` into `pool` mints.
pub open spec fn deposit_minted(pool: Pool, amount: u64) -> int {
    lp_tokens_for(amount as int, pool.total_liquidity as int, pool.lp_token_supply as int)
}

/// Why a deposit is refused, checked in this order; `None` when it goes through.
pub open spec fn add_liquidity_error(ctx: ModifyLiquidity, amount: u64, min_lp_tokens: u64) -> Option<
    MarketError,
> {
    let minted = deposit_minted(ctx.pool, amount);
    let half = amount / 2;
    if ctx.market.status != MarketStatus::Active {
        Some(MarketError::MarketNotActive)
    } else if amount == 0 {
        Some(MarketError::InvalidAmount)
    } else if minted > u64::MAX {
        Some(MarketError::MathOverflow)
    } else if minted < min_lp_tokens {
        Some(MarketError::SlippageExceeded)
    } else if ctx.pool.yes_reserve + half > u64::MAX || ctx.pool.no_reserve + (amount - half)
        > u64::MAX || ctx.pool.total_liquidity + amount > u64::MAX || ctx.pool.lp_token_supply
        + minted > u64::MAX || ctx.lp_position.lp_tokens + minted > u64::MAX {
        Some(MarketError::MathOverflow)
    } else {
        None
    }
}

/// The accounts after an accepted deposit: the amount is split between the
/// reserves, the odd unit going to NO; liquidity, supply and the provider's
/// tokens grow; a never-used position takes its owner, pool and bump.
pub open spec fn add_liquidity_applied(ctx: ModifyLiquidity, amount: u64) -> ModifyLiquidity {
    let minted = deposit_minted(ctx.pool, amount);
    let half = amount / 2;
    let lp = if ctx.lp_position.user.is_zero_spec() {
        LPPosition {
            user: ctx.user,
            pool: ctx.pool_key,
            bump: ctx.lp_position_bump,
            ..ctx.lp_position
        }
    } else {
        ctx.lp_position
    };
    ModifyLiquidity {
        pool: Pool {
            yes_reserve: (ctx.pool.yes_reserve + half) as u64,
            no_reserve: (ctx.pool.no_reserve + (amount - half)) as u64,
            total_liquidity: (ctx.pool.total_liquidity + amount) as u64,
            lp_token_supply: (ctx.pool.lp_token_supply + minted) as u64,
            ..ctx.pool
        },
        lp_position: LPPosition { lp_tokens: (lp.lp_tokens + minted) as u64, ..lp },
        ..ctx
    }
}

/// Deposits `amount` into the pool and returns the liquidity tokens minted
/// for it. On success the host moves `amount` from the provider to the vault.
pub fn add_liquidity(ctx: &mut ModifyLiquidity, amount: u64, min_lp_tokens: u64) -> (r: Result<
    u64,
    MarketError,
>)
    ensures
        match add_liquidity_error(*old(ctx), amount, min_lp_tokens) {
            Some(e) => r == Err::<u64, MarketError>(e) && *final(ctx) == *old(ctx),
            None => {
                &&& r == Ok::<u64, MarketError>(deposit_minted(old(ctx).pool, amount) as u64)
                &&& *final(ctx) == add_liquidity_applied(*old(ctx), amount)
            },
        },
        old(ctx).pool.wf() ==> final(ctx).pool.wf(),
{
    if ctx.market.status != MarketStatus::Active {
        return Err(MarketError::MarketNotActive);
    }
    if amount == 0 {
        return Err(MarketError::InvalidAmount);
    }
    let minted = match lp_tokens_to_mint(amount, ctx.pool.total_liquidity, ctx.pool.lp_token_supply) {
        Some(m) => m,
        None => {
            return Err(MarketError::MathOverflow);
        },
    };
    if minted < min_lp_tokens {
        return Err(MarketError::SlippageExceeded);
    }
    let half = amount / 2;
    if ctx.pool.yes_reserve > u64::MAX - half || ctx.pool.no_reserve > u64::MAX - (amount - half)
        || ctx.pool.total_liquidity > u64::MAX - amount || ctx.pool.lp_token_supply > u64::MAX
        - minted || ctx.lp_position.lp_tokens > u64::MAX - minted {
        return Err(MarketError::MathOverflow);
    }
    ctx.pool.yes_reserve = ctx.pool.yes_reserve + half;
    ctx.pool.no_reserve = ctx.pool.no_reserve + (amount - half);
    ctx.pool.total_liquidity = ctx.pool.total_liquidity + amount;
    ctx.pool.lp_token_supply = ctx.pool.lp_token_supply + minted;
    ctx.lp_position.lp_tokens = ctx.lp_position.lp_tokens + minted;
    if ctx.lp_position.user.is_zero() {
        ctx.lp_position.user = ctx.user;
        ctx.lp_position.pool = ctx.pool_key;
        ctx.lp_position.bump = ctx.lp_position_bump;
    }
    Ok(minted)
}

/// Collateral returned for burning `lp_tokens` from `pool`.
pub open spec fn withdrawn(pool: Pool, lp_tokens: u64) -> int {
    withdrawal_for(lp_tokens as int, pool.total_liquidity as int, pool.lp_token_supply as int)
}

/// Why a withdrawal is refused, checked in this order; `None` when it goes through.
pub open spec fn remove_liquidity_error(
    ctx: ModifyLiquidity,
    lp_tokens: u64,
    min_amount_out: u64,
) -> Option<MarketError> {
    let amount_out = withdrawn(ctx.pool, lp_tokens);
    if lp_tokens == 0 {
        Some(MarketError::InvalidAmount)
    } else if ctx.lp_position.lp_tokens < lp_tokens {
        Some(MarketError::InsufficientShares)
    } else if ctx.pool.lp_token_supply == 0 {
        Some(MarketError::InsufficientLiquidity)
    } else if amount_out > u64::MAX {
        Some(MarketError::MathOverflow)
    } else if amount_out < min_amount_out {
        Some(MarketError::SlippageExceeded)
    } else if ctx.vault_lamports < amount_out {
        Some(MarketError::InsufficientVaultFunds)
    } else {
        None
    }
}

/// The accounts after an accepted withdrawal: the amount leaves the
/// reserves half and half (the odd unit from NO), and liquidity, supply and
/// the provider's tokens shrink; the pool's fields stop at zero.
pub open spec fn remove_liquidity_applied(ctx: ModifyLiquidity, lp_tokens: u64) -> ModifyLiquidity {
    let amount_out = withdrawn(ctx.pool, lp_tokens);
    let half = amount_out / 2;
    ModifyLiquidity {
        pool: Pool {
            yes_reserve: sat_sub(ctx.pool.yes_reserve as int, half) as u64,
            no_reserve: sat_sub(ctx.pool.no_reserve as int, amount_out - half) as u64,
            total_liquidity: sat_sub(ctx.pool.total_liquidity as int, amount_out) as u64,
            lp_token_supply: sat_sub(ctx.pool.lp_token_supply as int, lp_tokens as int) as u64,
            ..ctx.pool
        },
        lp_position: LPPosition {
            lp_tokens: (ctx.lp_position.lp_tokens - lp_tokens) as u64,
            ..ctx.lp_position
        },
        ..ctx
    }
}

/// Burns `lp_tokens` of the provider's liquidity tokens and returns the
/// collateral owed for them. On success the host moves the returned amount
/// from the vault to the provider.
pub fn remove_liquidity(ctx: &mut ModifyLiquidity, lp_tokens: u64, min_amount_out: u64) -> (r:
    Result<u64, MarketError>)
    ensures
        match remove_liquidity_error(*old(ctx), lp_tokens, min_amount_out) {
            Some(e) => r == Err::<u64, MarketError>(e) && *final(ctx) == *old(ctx),
            None => {
                &&& r == Ok::<u64, MarketError>(withdrawn(old(ctx).pool, lp_tokens) as u64)
                &&& *final(ctx) == remove_liquidity_applied(*old(ctx), lp_tokens)
            },
        },
        old(ctx).pool.wf() ==> final(ctx).pool.wf(),
{
    if lp_tokens == 0 {
        return Err(MarketError::InvalidAmount);
    }
    if ctx.lp_position.lp_tokens < lp_tokens {
        return Err(MarketError::InsufficientShares);
    }
    if ctx.pool.lp_token_supply == 0 {
        return Err(MarketError::InsufficientLiquidity);
    }
    let amount_out = match withdrawal_amount(
        lp_tokens,
        ctx.pool.total_liquidity,
        ctx.pool.lp_token_supply,
    ) {
        Some(a) => a,
        None => {
            return Err(MarketError::MathOverflow);
        },
    };
    if amount_out < min_amount_out {
        return Err(MarketError::SlippageExceeded);
    }
    if ctx.vault_lamports < amount_out {
        return Err(MarketError::InsufficientVaultFunds);
    }
    proof {
        if lp_tokens >= ctx.pool.lp_token_supply {
            lemma_burning_all_takes_all(
                lp_tokens as int,
                ctx.pool.total_liquidity as int,
                ctx.pool.lp_token_supply as int,
            );
        }
    }
    let half = amount_out / 2;
    ctx.pool.yes_reserve = ctx.pool.yes_reserve.saturating_sub(half);
    ctx.pool.no_reserve = ctx.pool.no_reserve.saturating_sub(amount_out - half);
    ctx.pool.total_liquidity = ctx.pool.total_liquidity.saturating_sub(amount_out);
    ctx.pool.lp_token_supply = ctx.pool.lp_token_supply.saturating_sub(lp_tokens);
    ctx.lp_position.lp_tokens = ctx.lp_position.lp_tokens - lp_tokens;
    Ok(amount_out)
}

/// Burning at least the whole supply claims at least the whole liquidity.
proof fn lemma_burning_all_takes_all(lp_tokens: int, liquidity: int, supply: int)
    requires
        lp_tokens >= supply > 0,
        liquidity >= 0,
    ensures
        withdrawal_for(lp_tokens, liquidity, supply) >= liquidity,
{
    assert(lp_tokens * liquidity >= supply * liquidity) by (nonlinear_arith)
        requires
            lp_tokens >= supply > 0,
            liquidity >= 0,
    ;
    assert(lp_tokens * liquidity / supply >= supply * liquidity / supply) by (nonlinear_arith)
        requires
            lp_tokens * liquidity >= supply * liquidity,
            supply > 0,
    ;
    assert(supply * liquidity / supply == liquidity) by (nonlinear_arith)
        requires
            supply > 0,
    ;
}

} // verus!
