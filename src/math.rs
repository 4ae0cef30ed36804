//! Fixed-point helpers: products of 64-bit amounts are formed in 128 bits
//! and narrowed back only where the result is known, or checked, to fit.

use vstd::prelude::*;

use crate::{BASIS_POINTS, LP_FEE_BPS, MAX_TRADE_SIZE_BPS};

verus! {

/// `amount` scaled by `bps` basis points, rounded down.
pub open spec fn bps_of(amount: int, bps: int) -> int {
    amount * bps / (BASIS_POINTS as int)
}

/// The trading fee charged on `amount`.
pub open spec fn fee_on(amount: int) -> int {
    bps_of(amount, LP_FEE_BPS as int)
}

/// The largest amount a single buy may put into a pool holding `liquidity`.
pub open spec fn max_trade_for(liquidity: int) -> int {
    bps_of(liquidity, MAX_TRADE_SIZE_BPS as int)
}

/// A product of two 64-bit values fits in 128 bits.
pub proof fn lemma_mul_u64_fits(a: u64, b: u64)
    ensures
        0 <= a * b <= (u64::MAX as int) * (u64::MAX as int),
        (a as int) * (b as int) <= u128::MAX,
{
    assert(0 <= a * b <= (u64::MAX as int) * (u64::MAX as int)) by (nonlinear_arith);
}

/// `x * y / d` never exceeds `x` when `y <= d`.
pub proof fn lemma_mul_div_le(x: int, y: int, d: int)
    requires
        0 <= x,
        0 <= y <= d,
        0 < d,
    ensures
        0 <= x * y / d <= x,
{
    assert(0 <= x * y <= x * d) by (nonlinear_arith)
        requires
            0 <= x,
            0 <= y <= d,
    ;
    assert(x * y / d <= x * d / d) by (nonlinear_arith)
        requires
            0 <= x * y <= x * d,
            0 < d,
    ;
    assert(x * d / d == x) by (nonlinear_arith)
        requires
            0 < d,
    ;
    assert(0 <= x * y / d) by (nonlinear_arith)
        requires
            0 <= x * y,
            0 < d,
    ;
}

/// `a * b / c`, rounded down, or `None` when it does not fit in 64 bits.
pub fn mul_div(a: u64, b: u64, c: u64) -> (r: Option<u64>)
    requires
        c > 0,
    ensures
        r is Some <==> (a as int) * (b as int) / (c as int) <= u64::MAX,
        r matches Some(q) ==> q == (a as int) * (b as int) / (c as int),
{
    proof {
        lemma_mul_u64_fits(a, b);
    }
    let q: u128 = (a as u128) * (b as u128) / (c as u128);
    if q > u64::MAX as u128 {
        None
    } else {
        Some(q as u64)
    }
}

/// The trading fee on `amount`: `amount * LP_FEE_BPS / BASIS_POINTS`,
/// rounded down so that truncation favours the pool.
pub fn fee_for(amount: u64) -> (f: u64)
    ensures
        f == fee_on(amount as int),
        f <= amount,
{
    proof {
        lemma_mul_div_le(amount as int, LP_FEE_BPS as int, BASIS_POINTS as int);
    }
    ((amount as u128) * (LP_FEE_BPS as u128) / (BASIS_POINTS as u128)) as u64
}

/// The largest amount a single buy may bring into a pool whose total
/// liquidity is `liquidity`.
pub fn max_trade_size(liquidity: u64) -> (m: u64)
    ensures
        m == max_trade_for(liquidity as int),
        m <= liquidity,
{
    proof {
        lemma_mul_div_le(liquidity as int, MAX_TRADE_SIZE_BPS as int, BASIS_POINTS as int);
    }
    ((liquidity as u128) * (MAX_TRADE_SIZE_BPS as u128) / (BASIS_POINTS as u128)) as u64
}

} // verus!
