//! Properties that hold across instructions and sequences of them.

use vstd::arithmetic::div_mod::lemma_fundamental_div_mod;
use vstd::prelude::*;

use crate::amm::{buy_reserves, curve_out, lp_tokens_for, sell_reserves, withdrawal_for};
use crate::lifecycle::{
    claim_winnings_error, resolve_market_error, resolved, winning_shares, ClaimWinnings,
    ResolveMarket,
};
use crate::liquidity::{
    add_liquidity_applied, add_liquidity_error, remove_liquidity_applied, remove_liquidity_error,
    ModifyLiquidity,
};
use crate::math::lemma_mul_div_le;
use crate::state::{MarketError, MarketStatus, OraclePrice, Outcome, Pool, Position};
use crate::trading::{
    buy_applied, buy_error, buy_input, sat_sub, sell_applied, sell_error, with_reserves, Trade,
};

verus! {

/// The product of a pool's two reserves.
pub open spec fn reserve_product(pool: Pool) -> int {
    pool.yes_reserve * pool.no_reserve
}

/// Liquidity per liquidity token never falls from `before` to `after`:
/// `after.total_liquidity / after.lp_token_supply` is at least
/// `before.total_liquidity / before.lp_token_supply`, cross-multiplied so
/// that an empty supply needs no special case.
pub open spec fn token_value_kept(before: Pool, after: Pool) -> bool {
    after.total_liquidity * before.lp_token_supply >= before.total_liquidity * after.lp_token_supply
}

/// Re-deriving the output reserve by rounded-down division leaves the new
/// product at or below the old one, short of it by less than the grown
/// input reserve, and equal to it when that reserve divides the old product.
pub proof fn lemma_curve_product(reserve_in: int, reserve_out: int, added: int)
    requires
        reserve_in > 0,
        reserve_out >= 0,
        added >= 0,
    ensures
        (reserve_in + added) * curve_out(reserve_in, reserve_out, added) <= reserve_in * reserve_out,
        reserve_in * reserve_out - (reserve_in + added) * curve_out(reserve_in, reserve_out, added)
            < reserve_in + added,
        (reserve_in * reserve_out) % (reserve_in + added) == 0 ==> (reserve_in + added) * curve_out(
            reserve_in,
            reserve_out,
            added,
        ) == reserve_in * reserve_out,
        0 <= curve_out(reserve_in, reserve_out, added) <= reserve_out,
{
    let n = reserve_in + added;
    let k = reserve_in * reserve_out;
    lemma_fundamental_div_mod(k, n);
    assert(0 <= k % n < n) by (nonlinear_arith)
        requires
            n > 0,
    ;
    assert(k == reserve_out * reserve_in) by (nonlinear_arith)
        requires
            k == reserve_in * reserve_out,
    ;
    lemma_mul_div_le(reserve_out, reserve_in, n);
}

/// How a trade moves the reserve product: the pool's reserves after it are
/// `own` on `side` and `other` opposite, and their product is `own * other`.
proof fn lemma_with_reserves_product(pool: Pool, side: Outcome, own: int, other: int)
    requires
        0 <= own <= u64::MAX,
        0 <= other <= u64::MAX,
    ensures
        reserve_product(with_reserves(pool, side, own, other)) == own * other,
{
    assert(own * other == other * own) by (nonlinear_arith);
}

/// A buy that goes through does not lower the
/// product of the reserves, whenever the grown input reserve divides that
/// product so that the re-derived reserve is exact.
pub proof fn buy_keeps_reserve_product(
    ctx: Trade,
    side: Outcome,
    amount_in: u64,
    min_shares_out: u64,
)
    requires
        buy_error(ctx, side, amount_in, min_shares_out) is None,
        reserve_product(ctx.pool) % (buy_reserves(ctx.pool, side).0 + buy_input(amount_in)) == 0,
    ensures
        reserve_product(buy_applied(ctx, side, amount_in).pool) >= reserve_product(ctx.pool),
{
    buy_product_rounding(ctx, side, amount_in, min_shares_out);
}

/// On any buy that goes through, rounding the re-derived reserve down can
/// only lower the product of the reserves, and by less than the grown input
/// reserve; it is unchanged exactly when that reserve divides the old product.
pub proof fn buy_product_rounding(ctx: Trade, side: Outcome, amount_in: u64, min_shares_out: u64)
    requires
        buy_error(ctx, side, amount_in, min_shares_out) is None,
    ensures
        ({
            let (rin, rout) = buy_reserves(ctx.pool, side);
            let grown = rin + buy_input(amount_in);
            let before = reserve_product(ctx.pool);
            let after = reserve_product(buy_applied(ctx, side, amount_in).pool);
            &&& after <= before
            &&& before - after < grown
            &&& (before % grown == 0 ==> after == before)
        }),
{
    let (rin, rout) = buy_reserves(ctx.pool, side);
    let paid = buy_input(amount_in);
    lemma_curve_product(rin as int, rout as int, paid);
    let out = curve_out(rin as int, rout as int, paid);
    lemma_with_reserves_product(ctx.pool, side, out, rin + paid);
    assert(reserve_product(ctx.pool) == rin * rout) by (nonlinear_arith)
        requires
            (side == Outcome::Yes && rin == ctx.pool.no_reserve && rout == ctx.pool.yes_reserve) || (
            side == Outcome::No && rin == ctx.pool.yes_reserve && rout == ctx.pool.no_reserve),
    ;
    assert(out * (rin + paid) == (rin + paid) * out) by (nonlinear_arith);
}

/// A sale that goes through does not lower the
/// product of the reserves, whenever the grown input reserve divides that
/// product so that the re-derived reserve is exact.
pub proof fn sell_keeps_reserve_product(
    ctx: Trade,
    side: Outcome,
    shares_in: u64,
    min_amount_out: u64,
)
    requires
        sell_error(ctx, side, shares_in, min_amount_out) is None,
        reserve_product(ctx.pool) % (sell_reserves(ctx.pool, side).0 + shares_in) == 0,
    ensures
        reserve_product(sell_applied(ctx, side, shares_in).pool) >= reserve_product(ctx.pool),
{
    sell_product_rounding(ctx, side, shares_in, min_amount_out);
}

/// On any sale that goes through, rounding the re-derived reserve down can
/// only lower the product of the reserves, and by less than the grown input
/// reserve; it is unchanged exactly when that reserve divides the old product.
pub proof fn sell_product_rounding(ctx: Trade, side: Outcome, shares_in: u64, min_amount_out: u64)
    requires
        sell_error(ctx, side, shares_in, min_amount_out) is None,
    ensures
        ({
            let (rin, rout) = sell_reserves(ctx.pool, side);
            let grown = rin + shares_in;
            let before = reserve_product(ctx.pool);
            let after = reserve_product(sell_applied(ctx, side, shares_in).pool);
            &&& after <= before
            &&& before - after < grown
            &&& (before % grown == 0 ==> after == before)
        }),
{
    let (rin, rout) = sell_reserves(ctx.pool, side);
    lemma_curve_product(rin as int, rout as int, shares_in as int);
    let out = curve_out(rin as int, rout as int, shares_in as int);
    lemma_with_reserves_product(ctx.pool, side, rin + shares_in, out);
    assert(reserve_product(ctx.pool) == rin * rout) by (nonlinear_arith)
        requires
            (side == Outcome::Yes && rin == ctx.pool.yes_reserve && rout == ctx.pool.no_reserve) || (
            side == Outcome::No && rin == ctx.pool.no_reserve && rout == ctx.pool.yes_reserve),
    ;
}

/// Trading never moves liquidity-provider claims: a buy or a sale that goes
/// through leaves the pool's total liquidity and token supply as they were
/// (and touches no liquidity position), so every provider's share
/// `lp_tokens / lp_token_supply` of the pool's equity is unchanged by it.
pub proof fn trades_keep_lp_claims(
    ctx: Trade,
    side: Outcome,
    amount_in: u64,
    min_shares_out: u64,
    shares_in: u64,
    min_amount_out: u64,
)
    ensures
        buy_error(ctx, side, amount_in, min_shares_out) is None ==> {
            let after = buy_applied(ctx, side, amount_in).pool;
            &&& after.lp_token_supply == ctx.pool.lp_token_supply
            &&& after.total_liquidity == ctx.pool.total_liquidity
        },
        sell_error(ctx, side, shares_in, min_amount_out) is None ==> {
            let after = sell_applied(ctx, side, shares_in).pool;
            &&& after.lp_token_supply == ctx.pool.lp_token_supply
            &&& after.total_liquidity == ctx.pool.total_liquidity
        },
{
}

/// Deposits never dilute existing providers: minting rounds down, so the
/// liquidity behind each token does not fall.
pub proof fn deposit_keeps_token_value(ctx: ModifyLiquidity, amount: u64, min_lp_tokens: u64)
    requires
        add_liquidity_error(ctx, amount, min_lp_tokens) is None,
    ensures
        token_value_kept(ctx.pool, add_liquidity_applied(ctx, amount).pool),
{
    let l = ctx.pool.total_liquidity as int;
    let s = ctx.pool.lp_token_supply as int;
    let a = amount as int;
    let m = lp_tokens_for(a, l, s);
    if l != 0 {
        lemma_fundamental_div_mod(a * s, l);
        assert(0 <= (a * s) % l) by (nonlinear_arith)
            requires
                l > 0,
        ;
        assert(l * m <= a * s);
    }
    assert((l + a) * s >= l * (s + m)) by (nonlinear_arith)
        requires
            l == 0 || l * m <= a * s,
            l >= 0,
            a >= 0,
            s >= 0,
    ;
}

/// Withdrawals never take more than their share: the amount paid out
/// rounds down, so the liquidity behind each remaining token does not fall.
pub proof fn withdrawal_keeps_token_value(ctx: ModifyLiquidity, lp_tokens: u64, min_amount_out: u64)
    requires
        remove_liquidity_error(ctx, lp_tokens, min_amount_out) is None,
    ensures
        token_value_kept(ctx.pool, remove_liquidity_applied(ctx, lp_tokens).pool),
{
    let l = ctx.pool.total_liquidity as int;
    let s = ctx.pool.lp_token_supply as int;
    let t = lp_tokens as int;
    let out = withdrawal_for(t, l, s);
    lemma_fundamental_div_mod(t * l, s);
    assert(0 <= (t * l) % s) by (nonlinear_arith)
        requires
            s > 0,
    ;
    assert(s * out <= t * l);
    assert(0 <= out) by (nonlinear_arith)
        requires
            out == t * l / s,
            t >= 0,
            l >= 0,
            s > 0,
    ;
    let after = remove_liquidity_applied(ctx, lp_tokens).pool;
    let l2 = after.total_liquidity as int;
    let s2 = after.lp_token_supply as int;
    if t <= s {
        lemma_mul_div_le(l, t, s);
        assert(t * l == l * t) by (nonlinear_arith);
        assert(out <= l);
        assert(l2 == l - out && s2 == s - t);
        assert(l2 * s >= l * s2) by (nonlinear_arith)
            requires
                s * out <= t * l,
                l2 == l - out,
                s2 == s - t,
        ;
    } else {
        assert(s2 == 0);
        assert(l2 * s >= l * s2) by (nonlinear_arith)
            requires
                s2 == 0,
                l2 >= 0,
                s > 0,
        ;
    }
}

/// A market resolves at most once: after a resolution goes through, any
/// further attempt, whatever the oracle says and whenever it is made, is
/// refused with `MarketNotActive`.
pub proof fn resolution_is_final(ctx: ResolveMarket, oracle: Option<OraclePrice>, now: i64)
    requires
        resolve_market_error(ctx) is None,
    ensures
        resolve_market_error(ResolveMarket { market: resolved(ctx), oracle, now }) == Some(
            MarketError::MarketNotActive,
        ),
{
}

/// Winnings are paid once: a claim that goes through pays exactly the
/// position's shares on the winning side, and a second claim on the
/// position it leaves is refused with `AlreadyClaimed`, whatever the vault
/// then holds.
pub proof fn claim_is_once(ctx: ClaimWinnings, vault_lamports: u64)
    requires
        claim_winnings_error(ctx) is None,
    ensures
        winning_shares(ctx.market, ctx.position) == ctx.position.shares_on(
            ctx.market.outcome.unwrap(),
        ),
        claim_winnings_error(
            ClaimWinnings {
                position: Position { claimed: true, ..ctx.position },
                vault_lamports,
                ..ctx
            },
        ) == Some(MarketError::AlreadyClaimed),
{
}

/// Balances freeze once a market leaves `Active`: every buy and every sale
/// on a resolved or cancelled market is refused with `MarketNotActive`, so
/// the shares a claim pays are those held when the market resolved.
pub proof fn settled_markets_refuse_trades(
    ctx: Trade,
    side: Outcome,
    amount: u64,
    min_out: u64,
)
    requires
        ctx.market.status != MarketStatus::Active,
    ensures
        buy_error(ctx, side, amount, min_out) == Some(MarketError::MarketNotActive),
        sell_error(ctx, side, amount, min_out) == Some(MarketError::MarketNotActive),
{
}

} // verus!
