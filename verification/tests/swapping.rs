use swapverse::error::SwapverseError;
use swapverse::instructions::{CreateSwapPool, InvestSwapPool, SwapToken};
use swapverse::math::{mul_div, product};
use swapverse::pubkey::Pubkey;
use swapverse::spl_token_utils::{Holder, TokenAccount, TokenInstruction};
use swapverse::states::{GlobalState, SwapPool};

const ASSET_A: Pubkey = Pubkey([1; 32]);
const ASSET_B: Pubkey = Pubkey([2; 32]);
const SHARE_A: Pubkey = Pubkey([101; 32]);
const SHARE_B: Pubkey = Pubkey([102; 32]);

fn account(amount: u64) -> TokenAccount {
    TokenAccount { amount, is_frozen: false }
}

fn new_pool(target: u64, swap_fee_percentage: u8) -> SwapPool {
    let mut global_state = GlobalState::default();
    assert_eq!(
        global_state.initialize(
            [ASSET_A, ASSET_B, Pubkey([3; 32]), Pubkey([4; 32]), Pubkey([5; 32])],
            &255
        ),
        Ok(())
    );
    let mut ctx = CreateSwapPool {
        global_state,
        swap_pool: SwapPool::default(),
        token_a_mint: ASSET_A,
        token_b_mint: ASSET_B,
        pool_share_token_a_mint: SHARE_A,
        pool_share_token_b_mint: SHARE_B,
    };
    assert_eq!(
        ctx.create_swap_pool(target, target, swap_fee_percentage, 10, 1, 3, 30, 1_000),
        Ok(())
    );
    ctx.swap_pool
}

/// A pool of 1000 and 1000 that two investors have funded with 500 of each
/// asset each.
fn active_pool(swap_fee_percentage: u8) -> SwapPool {
    let mut pool = new_pool(1000, swap_fee_percentage);
    let mut now = 2_000;
    for _investor in 0..2 {
        for asset in [ASSET_A, ASSET_B] {
            let mut ctx = InvestSwapPool {
                swap_pool: pool,
                token_mint: asset,
                investor_token_account: account(500),
                investor_pool_share_token_account: account(0),
            };
            assert!(ctx.invest_swap_pool(500, now).is_ok());
            pool = ctx.swap_pool;
            now += 1;
        }
    }
    assert!(pool.active_for_swap);
    assert_eq!(pool.activated_at, 2_003);
    pool
}

fn swap(swap_pool: SwapPool, reserve_a: u64, reserve_b: u64) -> SwapToken {
    SwapToken {
        swap_pool,
        user_token_a_account: account(10_000),
        user_token_b_account: account(10_000),
        swap_pool_token_a_account: account(reserve_a),
        swap_pool_token_b_account: account(reserve_b),
    }
}

fn transfers(
    asset_in: Pubkey,
    asset_out: Pubkey,
    amount: u64,
    user_share: u64,
    treasury_share: u64,
) -> Vec<TokenInstruction> {
    vec![
        TokenInstruction::Transfer {
            mint: asset_out,
            from: Holder::PoolReserve,
            to: Holder::User,
            amount: user_share,
            signed: true,
        },
        TokenInstruction::Transfer {
            mint: asset_out,
            from: Holder::PoolReserve,
            to: Holder::PoolTreasury,
            amount: treasury_share,
            signed: true,
        },
        TokenInstruction::Transfer {
            mint: asset_in,
            from: Holder::User,
            to: Holder::PoolReserve,
            amount,
            signed: false,
        },
    ]
}

#[test]
fn a_swap_of_100_into_a_fresh_pool_of_1000_pays_91() {
    // constant product 1_000_000; 1_000_000 / 1100 = 909; 1000 - 909 = 91;
    // one per cent of 91 rounds down to nothing
    let pool = active_pool(1);
    let mut ctx = swap(pool, 1000, 1000);
    assert_eq!(product(pool.initial_amount_a, pool.initial_amount_b), 1_000_000);
    assert_eq!(mul_div(1000, 1000, 1100), 909);
    assert_eq!(mul_div(91, 1, 100), 0);
    assert!(ctx.check_in_range(100, 0, true));
    assert_eq!(ctx.swap_token(100, 0, true), Ok(transfers(ASSET_A, ASSET_B, 100, 91, 0)));
    assert_eq!(ctx.swap_pool, pool);
    assert_eq!(ctx.swap_pool.profit_of_token_a_amount_to_be_distributed, 0);
    assert_eq!(ctx.swap_pool.profit_of_token_b_amount_to_be_distributed, 0);
}

#[test]
fn the_fee_is_taken_from_the_output_and_booked_in_the_asset_paid_out() {
    let mut ctx = swap(active_pool(10), 1000, 1000);
    // 91 out, of which 9 are fee
    assert_eq!(ctx.swap_token(100, 82, true), Ok(transfers(ASSET_A, ASSET_B, 100, 82, 9)));
    assert_eq!(ctx.swap_pool.profit_of_token_a_amount_to_be_distributed, 0);
    assert_eq!(ctx.swap_pool.profit_of_token_b_amount_to_be_distributed, 9);
    assert!(ctx.swap_pool.check_wf());
}

#[test]
fn a_swap_of_asset_b_pays_asset_a() {
    let mut ctx = swap(active_pool(1), 1000, 1000);
    // 1_000_000 / 1250 = 800; 200 out, of which 2 are fee
    assert_eq!(ctx.swap_token(250, 198, false), Ok(transfers(ASSET_B, ASSET_A, 250, 198, 2)));
    assert_eq!(ctx.swap_pool.profit_of_token_a_amount_to_be_distributed, 2);
    assert_eq!(ctx.swap_pool.profit_of_token_b_amount_to_be_distributed, 0);
}

#[test]
fn the_price_follows_the_product_of_the_targets_not_of_the_reserves() {
    let mut ctx = swap(active_pool(10), 1000, 1000);
    assert!(ctx.swap_token(100, 0, true).is_ok());
    // the reserves now stand at 1100 and 909
    ctx.swap_pool_token_a_account = account(1100);
    ctx.swap_pool_token_b_account = account(909);
    // 1_000_000 / 1200 = 833; 909 - 833 = 76 out, of which 7 are fee
    assert_eq!(ctx.swap_token(100, 0, true), Ok(transfers(ASSET_A, ASSET_B, 100, 69, 7)));
    assert_eq!(ctx.swap_pool.profit_of_token_b_amount_to_be_distributed, 16);
}

#[test]
fn a_swap_that_divides_the_product_conserves_it() {
    let mut ctx = swap(active_pool(1), 1000, 1000);
    // 1_000_000 / 2000 = 500 exactly
    let instructions = ctx.swap_token(1000, 0, true);
    assert_eq!(instructions, Ok(transfers(ASSET_A, ASSET_B, 1000, 495, 5)));
    let reserve_a = 1000u128 + 1000;
    let reserve_b = 1000u128 - 495 - 5;
    assert_eq!(reserve_a * reserve_b, 1_000_000);
}

#[test]
fn rounding_keeps_the_product_of_the_reserves_just_below_the_constant() {
    let mut ctx = swap(active_pool(1), 1000, 1000);
    assert_eq!(ctx.swap_token(100, 0, true), Ok(transfers(ASSET_A, ASSET_B, 100, 91, 0)));
    let reserve_a = 1000u128 + 100;
    let reserve_b = 1000u128 - 91;
    assert_eq!(reserve_b, 1_000_000 / reserve_a);
    assert_eq!(reserve_a * reserve_b, 999_900);
    assert!(reserve_a * reserve_b <= 1_000_000);
    assert!(reserve_a * reserve_b + reserve_a > 1_000_000);
}

#[test]
fn a_swap_of_nothing_moves_nothing() {
    let mut ctx = swap(active_pool(10), 1000, 1000);
    assert_eq!(ctx.swap_token(0, 0, true), Ok(transfers(ASSET_A, ASSET_B, 0, 0, 0)));
}

#[test]
fn a_pool_that_is_not_active_does_not_swap() {
    let pool = new_pool(1000, 1);
    let mut ctx = swap(pool, 1000, 1000);
    assert!(ctx.check_in_range(100, 0, true));
    assert_eq!(ctx.swap_token(100, 0, true), Err(SwapverseError::SwapPoolNotActivated));
    assert_eq!(ctx.swap_pool, pool);
}

#[test]
fn a_trader_who_holds_too_little_is_rejected() {
    let pool = active_pool(10);
    let mut ctx = swap(pool, 1000, 1000);
    ctx.user_token_a_account = account(99);
    assert_eq!(ctx.swap_token(100, 0, true), Err(SwapverseError::NotEnoughTokens));
    assert_eq!(ctx.swap_pool, pool);
    // the other asset is not short
    assert!(ctx.swap_token(100, 0, false).is_ok());
}

#[test]
fn a_swap_below_the_floor_is_rejected_whole() {
    let pool = active_pool(10);
    let mut ctx = swap(pool, 1000, 1000);
    let before = ctx;
    assert_eq!(ctx.swap_token(100, 83, true), Err(SwapverseError::NotEnoughOutput));
    assert_eq!(ctx, before);
    assert!(ctx.swap_token(100, 82, true).is_ok());
}

#[test]
fn the_floor_is_held_against_the_share_after_the_fee() {
    let mut ctx = swap(active_pool(10), 1000, 1000);
    // 91 leave the reserve, but the trader gets 82
    assert_eq!(ctx.swap_token(100, 91, true), Err(SwapverseError::NotEnoughOutput));
}

#[test]
fn a_short_balance_is_reported_before_a_low_output() {
    let mut ctx = swap(active_pool(10), 1000, 1000);
    ctx.user_token_a_account = account(0);
    assert_eq!(ctx.swap_token(100, u64::MAX, true), Err(SwapverseError::NotEnoughTokens));
}

#[test]
fn a_price_out_of_range_is_found_by_the_check() {
    let pool = active_pool(10);
    // the reserve paid out of cannot cover 1_000_000 / 110
    assert!(!swap(pool, 10, 10).check_in_range(100, 0, true));
    // the reserve paid into would leave 64 bits
    assert!(!swap(pool, u64::MAX, 1000).check_in_range(1, 0, true));
    // nothing to divide by
    assert!(!swap(pool, 0, 1000).check_in_range(0, 0, true));
    // but none of that matters to a trader who is rejected anyway
    let mut rejected = swap(pool, 10, 10);
    rejected.user_token_a_account = account(0);
    assert!(rejected.check_in_range(100, 0, true));
    assert_eq!(rejected.swap_token(100, 0, true), Err(SwapverseError::NotEnoughTokens));
}

#[test]
fn a_fee_above_the_output_is_found_by_the_check() {
    let pool = active_pool(200);
    assert!(!swap(pool, 1000, 1000).check_in_range(100, 0, true));
    // a fee of 101 per cent of 50 is still 50
    let mut small = swap(pool, 1000, 1000);
    small.swap_pool.swap_fee_percentage = 101;
    // 1_000_000 / 1052 = 950; 50 out
    assert!(small.check_in_range(52, 0, true));
    assert_eq!(small.swap_token(52, 0, true), Ok(transfers(ASSET_A, ASSET_B, 52, 0, 50)));
}

#[test]
fn fees_that_do_not_fit_are_found_by_the_check() {
    let mut pool = active_pool(10);
    pool.profit_of_token_b_amount_to_be_distributed = u64::MAX - 8;
    assert!(!swap(pool, 1000, 1000).check_in_range(100, 0, true));
    // a swap that is rejected for its output books no fee
    assert!(swap(pool, 1000, 1000).check_in_range(100, 83, true));
    pool.profit_of_token_b_amount_to_be_distributed = u64::MAX - 9;
    let mut ctx = swap(pool, 1000, 1000);
    assert!(ctx.check_in_range(100, 0, true));
    assert!(ctx.swap_token(100, 0, true).is_ok());
    assert_eq!(ctx.swap_pool.profit_of_token_b_amount_to_be_distributed, u64::MAX);
}

#[test]
fn the_largest_pool_can_be_priced() {
    let mut pool = active_pool(100);
    pool.initial_amount_a = u64::MAX;
    pool.initial_amount_b = u64::MAX;
    pool.token_a_amount_to_be_distributed = u64::MAX;
    pool.token_b_amount_to_be_distributed = u64::MAX;
    assert!(pool.check_wf());
    let mut ctx = swap(pool, u64::MAX - 1, u64::MAX);
    ctx.user_token_a_account = account(1);
    assert!(ctx.check_in_range(1, 0, true));
    // (2^64 - 1)^2 / (2^64 - 1) = 2^64 - 1: nothing leaves
    assert_eq!(ctx.swap_token(1, 0, true), Ok(transfers(ASSET_A, ASSET_B, 1, 0, 0)));
}
