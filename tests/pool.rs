use prediction_market::amm::{swap, weighted_average_price};
use prediction_market::math::{fee_for, max_trade_size, mul_div};
use prediction_market::{
    add_liquidity, buy_shares, get_price_for_side, initialize_pool, remove_liquidity, sell_shares,
    InitializePool, LPPosition, Market, MarketError, MarketStatus, ModifyLiquidity, Outcome, Pool,
    Position, Pubkey, Trade,
};

fn key(b: u8) -> Pubkey {
    Pubkey { bytes: [b; 32] }
}

fn active_market() -> Market {
    Market {
        authority: key(1),
        market_id: [7; 32],
        strike_price: 50_000_000,
        expiration: 1_000,
        pyth_price_account: key(2),
        max_confidence: 200_000,
        status: MarketStatus::Active,
        outcome: None,
        resolution_price: None,
        resolution_timestamp: None,
        total_yes_shares: 0,
        total_no_shares: 0,
        description: String::from("BTC above 50k"),
        bump: 255,
    }
}

fn pool(yes: u64, no: u64, liquidity: u64) -> Pool {
    Pool {
        market: key(3),
        yes_reserve: yes,
        no_reserve: no,
        total_liquidity: liquidity,
        total_fees_collected: 0,
        lp_token_supply: liquidity,
        bump: 254,
    }
}

fn empty_position() -> Position {
    Position {
        user: Pubkey::zero(),
        market: Pubkey::zero(),
        yes_shares: 0,
        no_shares: 0,
        yes_avg_price: 0,
        no_avg_price: 0,
        claimed: false,
        bump: 0,
    }
}

fn trade(pool: Pool) -> Trade {
    Trade {
        market: active_market(),
        pool,
        position: empty_position(),
        user: key(9),
        market_key: key(3),
        position_bump: 253,
        vault_lamports: 1_000_000,
    }
}

fn liquidity_ctx(pool: Pool, lp_tokens: u64) -> ModifyLiquidity {
    ModifyLiquidity {
        market: active_market(),
        pool,
        lp_position: LPPosition { user: key(9), pool: key(4), lp_tokens, bump: 250 },
        user: key(9),
        pool_key: key(4),
        lp_position_bump: 250,
        vault_lamports: 1_000_000,
    }
}

#[test]
fn quote_for_thousand_into_even_pool() {
    assert_eq!(fee_for(1_000), 3);
    let s = swap(10_000, 10_000, 997).unwrap();
    assert_eq!(s.new_reserve_in, 10_997);
    assert_eq!(s.new_reserve_out, 9_093);
    assert_eq!(s.output, 907);
}

#[test]
fn buy_below_requested_minimum_is_slippage() {
    let mut ctx = trade(pool(10_000, 10_000, 20_000));
    assert_eq!(buy_shares(&mut ctx, Outcome::Yes, 1_000, 908), Err(MarketError::SlippageExceeded));
    assert_eq!(ctx.pool.yes_reserve, 10_000);
    assert_eq!(ctx.pool.no_reserve, 10_000);
}

#[test]
fn dust_output_fails_even_without_slippage_bound() {
    let mut ctx = trade(pool(10_000, 10_000, 20_000));
    assert_eq!(buy_shares(&mut ctx, Outcome::Yes, 1_000, 0), Err(MarketError::OutputTooSmall));
    assert_eq!(ctx.pool.total_fees_collected, 0);
    assert_eq!(ctx.position.yes_shares, 0);
}

#[test]
fn initialize_pool_example() {
    let ctx = InitializePool {
        market_key: key(3),
        pool_key: key(4),
        authority: key(1),
        pool_bump: 10,
        lp_position_bump: 11,
    };
    let (p, lp) = initialize_pool(&ctx, 10_000).unwrap();
    assert_eq!(p.yes_reserve, 10_000);
    assert_eq!(p.no_reserve, 10_000);
    assert_eq!(p.total_liquidity, 20_000);
    assert_eq!(p.lp_token_supply, 20_000);
    assert_eq!(p.total_fees_collected, 0);
    assert_eq!(p.market, key(3));
    assert_eq!(lp.lp_tokens, 20_000);
    assert_eq!(lp.user, key(1));
    assert_eq!(lp.pool, key(4));
    assert_eq!(initialize_pool(&ctx, 999).unwrap_err(), MarketError::InsufficientLiquidity);
    assert_eq!(initialize_pool(&ctx, u64::MAX / 2 + 1).unwrap_err(), MarketError::MathOverflow);
}

#[test]
fn buy_moves_reserves_and_records_position() {
    let mut ctx = trade(pool(100_000, 100_000, 200_000));
    assert_eq!(buy_shares(&mut ctx, Outcome::Yes, 10_000, 9_000), Ok(9_067));
    assert_eq!(ctx.pool.no_reserve, 109_970);
    assert_eq!(ctx.pool.yes_reserve, 90_933);
    assert_eq!(ctx.pool.total_fees_collected, 30);
    assert_eq!(ctx.market.total_yes_shares, 9_067);
    assert_eq!(ctx.market.total_no_shares, 0);
    assert_eq!(ctx.position.yes_shares, 9_067);
    assert_eq!(ctx.position.yes_avg_price, 547_378);
    assert_eq!(ctx.position.user, key(9));
    assert_eq!(ctx.position.market, key(3));
    assert_eq!(ctx.position.bump, 253);
}

#[test]
fn buy_product_never_rises() {
    let mut ctx = trade(pool(100_000, 100_000, 200_000));
    let before = ctx.pool.yes_reserve as u128 * ctx.pool.no_reserve as u128;
    buy_shares(&mut ctx, Outcome::Yes, 10_000, 0).unwrap();
    let after = ctx.pool.yes_reserve as u128 * ctx.pool.no_reserve as u128;
    assert_eq!(after, 9_999_902_010);
    assert!(after <= before);
    assert!(before - after < ctx.pool.no_reserve as u128);
}

#[test]
fn buy_product_kept_on_exact_division() {
    let mut ctx = trade(pool(100_000, 100_000, 300_000));
    assert_eq!(buy_shares(&mut ctx, Outcome::No, 25_075, 0), Ok(20_000));
    assert_eq!(ctx.pool.yes_reserve, 125_000);
    assert_eq!(ctx.pool.no_reserve, 80_000);
    assert!(ctx.pool.yes_reserve as u128 * ctx.pool.no_reserve as u128 >= 10_000_000_000);
    assert_eq!(ctx.market.total_no_shares, 20_000);
    assert_eq!(ctx.position.no_shares, 20_000);
}

#[test]
fn buy_rejections() {
    let mut ctx = trade(pool(100_000, 100_000, 200_000));
    assert_eq!(buy_shares(&mut ctx, Outcome::Yes, 0, 0), Err(MarketError::InvalidAmount));
    assert_eq!(buy_shares(&mut ctx, Outcome::Yes, 20_001, 0), Err(MarketError::TradeExceedsMaxSize));
    ctx.market.status = MarketStatus::Cancelled;
    assert_eq!(buy_shares(&mut ctx, Outcome::Yes, 10_000, 0), Err(MarketError::MarketNotActive));
    let mut empty = trade(pool(0, 100_000, 200_000));
    assert_eq!(buy_shares(&mut empty, Outcome::Yes, 10_000, 0), Err(MarketError::PoolNotInitialized));
    let mut huge = trade(pool(u64::MAX - 10, 1_000_000, 100_000));
    assert_eq!(buy_shares(&mut huge, Outcome::No, 10_000, 0), Err(MarketError::MathOverflow));
}

#[test]
fn sell_returns_collateral_net_of_fee() {
    let mut ctx = trade(pool(100_000, 100_000, 200_000));
    buy_shares(&mut ctx, Outcome::Yes, 10_000, 0).unwrap();
    let avg = ctx.position.yes_avg_price;
    assert_eq!(sell_shares(&mut ctx, Outcome::Yes, 5_000, 5_000), Ok(5_715));
    assert_eq!(ctx.pool.yes_reserve, 95_933);
    assert_eq!(ctx.pool.no_reserve, 104_238);
    assert_eq!(ctx.pool.total_fees_collected, 30 + 17);
    assert_eq!(ctx.market.total_yes_shares, 4_067);
    assert_eq!(ctx.position.yes_shares, 4_067);
    assert_eq!(ctx.position.yes_avg_price, avg);
    assert_eq!(ctx.pool.lp_token_supply, 200_000);
    assert_eq!(ctx.pool.total_liquidity, 200_000);
}

#[test]
fn sell_rejections() {
    let mut ctx = trade(pool(100_000, 100_000, 200_000));
    buy_shares(&mut ctx, Outcome::Yes, 10_000, 0).unwrap();
    assert_eq!(sell_shares(&mut ctx, Outcome::Yes, 0, 0), Err(MarketError::InvalidAmount));
    assert_eq!(sell_shares(&mut ctx, Outcome::Yes, 9_068, 0), Err(MarketError::InsufficientShares));
    assert_eq!(sell_shares(&mut ctx, Outcome::No, 1, 0), Err(MarketError::InsufficientShares));
    assert_eq!(sell_shares(&mut ctx, Outcome::Yes, 5_000, 5_716), Err(MarketError::SlippageExceeded));
    assert_eq!(sell_shares(&mut ctx, Outcome::Yes, 500, 0), Err(MarketError::OutputTooSmall));
    ctx.vault_lamports = 5_714;
    assert_eq!(sell_shares(&mut ctx, Outcome::Yes, 5_000, 0), Err(MarketError::InsufficientVaultFunds));
    ctx.market.status = MarketStatus::Resolved;
    assert_eq!(sell_shares(&mut ctx, Outcome::Yes, 5_000, 0), Err(MarketError::MarketNotActive));
    assert_eq!(ctx.position.yes_shares, 9_067);
}

#[test]
fn add_liquidity_splits_and_mints() {
    let mut ctx = liquidity_ctx(pool(10_000, 10_000, 20_000), 20_000);
    assert_eq!(add_liquidity(&mut ctx, 1_001, 1_001), Ok(1_001));
    assert_eq!(ctx.pool.yes_reserve, 10_500);
    assert_eq!(ctx.pool.no_reserve, 10_501);
    assert_eq!(ctx.pool.total_liquidity, 21_001);
    assert_eq!(ctx.pool.lp_token_supply, 21_001);
    assert_eq!(ctx.lp_position.lp_tokens, 21_001);
}

#[test]
fn add_liquidity_opens_new_position() {
    let mut ctx = liquidity_ctx(pool(10_000, 10_000, 20_000), 0);
    ctx.lp_position.user = Pubkey::zero();
    ctx.pool.lp_token_supply = 10_000;
    assert_eq!(add_liquidity(&mut ctx, 4_000, 0), Ok(2_000));
    assert_eq!(ctx.lp_position.user, key(9));
    assert_eq!(ctx.lp_position.pool, key(4));
    assert_eq!(ctx.lp_position.lp_tokens, 2_000);
}

#[test]
fn add_liquidity_rejections() {
    let mut ctx = liquidity_ctx(pool(10_000, 10_000, 20_000), 20_000);
    assert_eq!(add_liquidity(&mut ctx, 0, 0), Err(MarketError::InvalidAmount));
    assert_eq!(add_liquidity(&mut ctx, 1_000, 1_001), Err(MarketError::SlippageExceeded));
    ctx.market.status = MarketStatus::Resolved;
    assert_eq!(add_liquidity(&mut ctx, 1_000, 0), Err(MarketError::MarketNotActive));
    assert_eq!(ctx.pool.total_liquidity, 20_000);
}

#[test]
fn remove_liquidity_pays_share() {
    let mut ctx = liquidity_ctx(pool(10_000, 10_000, 20_000), 20_000);
    assert_eq!(remove_liquidity(&mut ctx, 5_000, 5_000), Ok(5_000));
    assert_eq!(ctx.pool.yes_reserve, 7_500);
    assert_eq!(ctx.pool.no_reserve, 7_500);
    assert_eq!(ctx.pool.total_liquidity, 15_000);
    assert_eq!(ctx.pool.lp_token_supply, 15_000);
    assert_eq!(ctx.lp_position.lp_tokens, 15_000);
}

#[test]
fn remove_liquidity_rejections() {
    let mut ctx = liquidity_ctx(pool(10_000, 10_000, 20_000), 20_000);
    assert_eq!(remove_liquidity(&mut ctx, 0, 0), Err(MarketError::InvalidAmount));
    assert_eq!(remove_liquidity(&mut ctx, 20_001, 0), Err(MarketError::InsufficientShares));
    assert_eq!(remove_liquidity(&mut ctx, 5_000, 5_001), Err(MarketError::SlippageExceeded));
    ctx.vault_lamports = 4_999;
    assert_eq!(remove_liquidity(&mut ctx, 5_000, 0), Err(MarketError::InsufficientVaultFunds));
    ctx.pool.lp_token_supply = 0;
    assert_eq!(remove_liquidity(&mut ctx, 5_000, 0), Err(MarketError::InsufficientLiquidity));
    assert_eq!(ctx.lp_position.lp_tokens, 20_000);
}

#[test]
fn trades_leave_lp_claims_alone() {
    let mut ctx = trade(pool(100_000, 100_000, 200_000));
    buy_shares(&mut ctx, Outcome::No, 10_000, 0).unwrap();
    sell_shares(&mut ctx, Outcome::No, 4_000, 0).unwrap();
    assert_eq!(ctx.pool.lp_token_supply, 200_000);
    assert_eq!(ctx.pool.total_liquidity, 200_000);
}

#[test]
fn deposit_and_withdrawal_keep_token_value() {
    let mut p = pool(10_000, 10_000, 30_000);
    p.lp_token_supply = 20_000;
    let mut ctx = liquidity_ctx(p, 20_000);
    // 1_001 * 20_000 / 30_000 rounds down to 667.
    assert_eq!(add_liquidity(&mut ctx, 1_001, 0), Ok(667));
    let (l, s) = (ctx.pool.total_liquidity as u128, ctx.pool.lp_token_supply as u128);
    assert!(l * 20_000 >= 30_000 * s);
    assert_eq!(remove_liquidity(&mut ctx, 333, 0), Ok(333 * 31_001 / 20_667));
    let (l2, s2) = (ctx.pool.total_liquidity as u128, ctx.pool.lp_token_supply as u128);
    assert!(l2 * s >= l * s2);
}

#[test]
fn price_for_side() {
    let p = pool(1, 3, 4);
    assert_eq!(get_price_for_side(&p, Outcome::Yes), 750_000);
    assert_eq!(get_price_for_side(&p, Outcome::No), 250_000);
    assert_eq!(get_price_for_side(&pool(0, 0, 0), Outcome::Yes), 500_000);
    assert_eq!(get_price_for_side(&pool(u64::MAX, u64::MAX, 0), Outcome::No), 500_000);
}

#[test]
fn fixed_point_helpers() {
    assert_eq!(fee_for(u64::MAX), (u64::MAX as u128 * 30 / 10_000) as u64);
    assert_eq!(max_trade_size(200_000), 20_000);
    assert_eq!(mul_div(u64::MAX, u64::MAX, u64::MAX), Some(u64::MAX));
    assert_eq!(mul_div(u64::MAX, 2, 1), None);
    assert_eq!(weighted_average_price(500_000, 1_000, 600_000, 1_000), Some(550_000));
    assert_eq!(weighted_average_price(0, 0, 420_000, 7), Some(420_000));
    assert_eq!(swap(10, 10, u64::MAX).map(|s| s.output), None);
}
