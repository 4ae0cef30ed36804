//! Constant-product pricing, share prices, and liquidity-token amounts.

use vstd::prelude::*;

use crate::math::{lemma_mul_div_le, lemma_mul_u64_fits, mul_div};
use crate::state::{Outcome, Pool};
use crate::PRICE_DECIMALS;

verus! {

/// The reserve that grows when `added` is paid into `reserve_in`, and the
/// other reserve re-derived from the product `reserve_in * reserve_out`,
/// rounded down.
pub open spec fn curve_out(reserve_in: int, reserve_out: int, added: int) -> int {
    reserve_in * reserve_out / (reserve_in + added)
}

/// What leaves `reserve_out` when `added` enters `reserve_in`.
pub open spec fn swap_output(reserve_in: int, reserve_out: int, added: int) -> int {
    reserve_out - curve_out(reserve_in, reserve_out, added)
}

/// The reserves a buy of `side` trades against, as `(reserve_in, reserve_out)`:
/// the payment enters the opposite reserve, the shares leave this side's.
pub open spec fn buy_reserves(pool: Pool, side: Outcome) -> (u64, u64) {
    match side {
        Outcome::Yes => (pool.no_reserve, pool.yes_reserve),
        Outcome::No => (pool.yes_reserve, pool.no_reserve),
    }
}

/// The reserves a sale of `side` trades against, as `(reserve_in, reserve_out)`:
/// the shares enter this side's reserve, the collateral leaves the opposite one.
pub open spec fn sell_reserves(pool: Pool, side: Outcome) -> (u64, u64) {
    match side {
        Outcome::Yes => (pool.yes_reserve, pool.no_reserve),
        Outcome::No => (pool.no_reserve, pool.yes_reserve),
    }
}

/// The price of `side`: the opposite reserve's fraction of both reserves,
/// scaled by `PRICE_DECIMALS`; one half when the pool is empty.
pub open spec fn price_of(pool: Pool, side: Outcome) -> int {
    let total = pool.yes_reserve + pool.no_reserve;
    if total == 0 {
        (PRICE_DECIMALS as int) / 2
    } else {
        match side {
            Outcome::Yes => pool.no_reserve * PRICE_DECIMALS / total,
            Outcome::No => pool.yes_reserve * PRICE_DECIMALS / total,
        }
    }
}

/// The mean of `old_avg` over `old_qty` units and `price` over `qty` units.
pub open spec fn weighted_average(old_avg: int, old_qty: int, price: int, qty: int) -> int {
    (old_avg * old_qty + price * qty) / (old_qty + qty)
}

/// Liquidity tokens minted for a deposit of `amount`: one per unit into an
/// empty pool, else the deposit's share of the liquidity applied to the
/// supply, rounded down.
pub open spec fn lp_tokens_for(amount: int, liquidity: int, supply: int) -> int {
    if liquidity == 0 {
        amount
    } else {
        amount * supply / liquidity
    }
}

/// Collateral returned for burning `lp_tokens`: their share of the supply
/// applied to the liquidity, rounded down.
pub open spec fn withdrawal_for(lp_tokens: int, liquidity: int, supply: int) -> int {
    lp_tokens * liquidity / supply
}

/// The reserves after a constant-product swap, and what it pays out.
#[derive(Clone, Copy, Debug)]
pub struct Swap {
    pub new_reserve_in: u64,
    pub new_reserve_out: u64,
    pub output: u64,
}

/// Pays `added` into `reserve_in` and re-derives `reserve_out` from the
/// product `reserve_in * reserve_out`, computed in 128 bits. `None` when the
/// grown reserve would not fit in 64 bits.
pub fn swap(reserve_in: u64, reserve_out: u64, added: u64) -> (r: Option<Swap>)
    requires
        reserve_in > 0,
    ensures
        r is Some <==> reserve_in + added <= u64::MAX,
        r matches Some(s) ==> {
            &&& s.new_reserve_in == reserve_in + added
            &&& s.new_reserve_out == curve_out(reserve_in as int, reserve_out as int, added as int)
            &&& s.output == swap_output(reserve_in as int, reserve_out as int, added as int)
            &&& s.new_reserve_out <= reserve_out
        },
{
    if added > u64::MAX - reserve_in {
        return None;
    }
    let new_reserve_in = reserve_in + added;
    proof {
        lemma_mul_u64_fits(reserve_in, reserve_out);
        assert((reserve_in as int) * (reserve_out as int) == (reserve_out as int) * (
        reserve_in as int)) by (nonlinear_arith);
        lemma_mul_div_le(reserve_out as int, reserve_in as int, new_reserve_in as int);
    }
    let k: u128 = (reserve_in as u128) * (reserve_out as u128);
    let new_reserve_out = (k / (new_reserve_in as u128)) as u64;
    Some(Swap { new_reserve_in, new_reserve_out, output: reserve_out - new_reserve_out })
}

/// The price of `side` in `pool`, scaled by `PRICE_DECIMALS`.
pub fn get_price_for_side(pool: &Pool, side: Outcome) -> (p: u64)
    ensures
        p == price_of(*pool, side),
        p <= PRICE_DECIMALS,
{
    let total: u128 = pool.yes_reserve as u128 + pool.no_reserve as u128;
    if total == 0 {
        return PRICE_DECIMALS / 2;
    }
    let opposite = match side {
        Outcome::Yes => pool.no_reserve,
        Outcome::No => pool.yes_reserve,
    };
    proof {
        lemma_mul_div_le(PRICE_DECIMALS as int, opposite as int, total as int);
        assert((opposite as int) * (PRICE_DECIMALS as int) == (PRICE_DECIMALS as int) * (
        opposite as int)) by (nonlinear_arith);
    }
    ((opposite as u128) * (PRICE_DECIMALS as u128) / total) as u64
}

/// The weighted mean of `old_avg` over `old_qty` units and `price` over
/// `qty` units, rounded down; `None` when the weighted sum leaves 128 bits.
pub fn weighted_average_price(old_avg: u64, old_qty: u64, price: u64, qty: u64) -> (r: Option<
    u64,
>)
    requires
        old_qty + qty > 0,
    ensures
        r is Some <==> old_avg * old_qty + price * qty <= u128::MAX,
        r matches Some(a) ==> a == weighted_average(
            old_avg as int,
            old_qty as int,
            price as int,
            qty as int,
        ),
{
    proof {
        lemma_mul_u64_fits(old_avg, old_qty);
        lemma_mul_u64_fits(price, qty);
    }
    let held: u128 = (old_avg as u128) * (old_qty as u128);
    let bought: u128 = (price as u128) * (qty as u128);
    if held > u128::MAX - bought {
        return None;
    }
    let units: u128 = old_qty as u128 + qty as u128;
    proof {
        lemma_average_bounded(old_avg as int, old_qty as int, price as int, qty as int);
    }
    Some(((held + bought) / units) as u64)
}

/// A weighted mean lies below the larger of the two values.
proof fn lemma_average_bounded(a: int, q: int, p: int, s: int)
    requires
        0 <= a <= u64::MAX,
        0 <= p <= u64::MAX,
        0 <= q,
        0 <= s,
        q + s > 0,
    ensures
        0 <= weighted_average(a, q, p, s) <= u64::MAX,
{
    let m: int = if a >= p { a } else { p };
    assert(0 <= a * q + p * s <= m * (q + s)) by (nonlinear_arith)
        requires
            0 <= a <= m,
            0 <= p <= m,
            0 <= q,
            0 <= s,
    ;
    assert((a * q + p * s) / (q + s) <= m * (q + s) / (q + s)) by (nonlinear_arith)
        requires
            0 <= a * q + p * s <= m * (q + s),
            q + s > 0,
    ;
    assert(m * (q + s) / (q + s) == m) by (nonlinear_arith)
        requires
            q + s > 0,
    ;
    assert(0 <= (a * q + p * s) / (q + s)) by (nonlinear_arith)
        requires
            0 <= a * q + p * s,
            q + s > 0,
    ;
}

/// Liquidity tokens to mint for a deposit of `amount`; `None` when the
/// count does not fit in 64 bits.
pub fn lp_tokens_to_mint(amount: u64, liquidity: u64, supply: u64) -> (r: Option<u64>)
    ensures
        r is Some <==> lp_tokens_for(amount as int, liquidity as int, supply as int) <= u64::MAX,
        r matches Some(m) ==> m == lp_tokens_for(amount as int, liquidity as int, supply as int),
{
    if liquidity == 0 {
        Some(amount)
    } else {
        mul_div(amount, supply, liquidity)
    }
}

/// Collateral owed for burning `lp_tokens`; `None` when the amount does
/// not fit in 64 bits.
pub fn withdrawal_amount(lp_tokens: u64, liquidity: u64, supply: u64) -> (r: Option<u64>)
    requires
        supply > 0,
    ensures
        r is Some <==> withdrawal_for(lp_tokens as int, liquidity as int, supply as int) <= u64::MAX,
        r matches Some(a) ==> a == withdrawal_for(lp_tokens as int, liquidity as int, supply as int),
{
    mul_div(lp_tokens, liquidity, supply)
}

} // verus!
