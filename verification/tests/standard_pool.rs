use meme_launchpad::address::Address;
use meme_launchpad::amm::{
    add_liquidity, initialize_pool, remove_liquidity, swap_sol_for_tokens, swap_tokens_for_sol,
    AmmPool, LiquidityAdded, LiquidityRemoved, PoolInitialized, PoolKeys, SwapExecuted,
};
use meme_launchpad::engine::{Reserves, SwapDirection};
use meme_launchpad::errors::AmmError;

fn key(tag: u8) -> Address {
    Address { bytes: [tag; 32] }
}

fn keys() -> PoolKeys {
    PoolKeys { token_mint: key(1), lp_mint: key(2), sol_vault: key(3), token_vault: key(4) }
}

fn seeded_pool() -> AmmPool {
    let mut pool = AmmPool::new();
    initialize_pool(&mut pool, key(9), keys(), 254, 1_000_000, 1_000_000_000).unwrap();
    pool
}

#[test]
fn a_new_pool_is_empty_and_uninitialized() {
    let pool = AmmPool::new();
    assert!(!pool.is_initialized);
    assert_eq!((pool.sol_reserve, pool.token_reserve, pool.lp_supply), (0, 0, 0));
    assert_eq!((pool.fee_numerator, pool.fee_denominator), (3, 1000));
}

#[test]
fn initialize_pool_seeds_reserves_and_mints_the_geometric_mean() {
    let mut pool = AmmPool::new();
    let event = initialize_pool(&mut pool, key(9), keys(), 254, 1_000_000, 1_000_000_000);
    assert_eq!(
        event,
        Ok(PoolInitialized {
            pool: key(9),
            token_mint: key(1),
            lp_mint: key(2),
            initial_sol: 1_000_000,
            initial_tokens: 1_000_000_000,
            lp_minted: 31_622_776,
        })
    );
    assert_eq!(
        pool,
        AmmPool {
            token_mint: key(1),
            lp_mint: key(2),
            sol_vault: key(3),
            token_vault: key(4),
            sol_reserve: 1_000_000,
            token_reserve: 1_000_000_000,
            lp_supply: 31_622_776,
            fee_numerator: 3,
            fee_denominator: 1000,
            bump: 254,
            is_initialized: true,
        }
    );
    assert_eq!(
        pool.reserves(),
        Reserves { base: 1_000_000, quote: 1_000_000_000, shares: 31_622_776 }
    );
}

#[test]
fn initialize_pool_rejects_a_zero_seed() {
    let mut pool = AmmPool::new();
    assert_eq!(
        initialize_pool(&mut pool, key(9), keys(), 254, 0, 5),
        Err(AmmError::InvalidAmount)
    );
    assert_eq!(
        initialize_pool(&mut pool, key(9), keys(), 254, 5, 0),
        Err(AmmError::InvalidAmount)
    );
    assert_eq!(pool, AmmPool::new());
}

#[test]
fn initialize_pool_happens_once() {
    let mut pool = seeded_pool();
    let before = pool;
    assert_eq!(
        initialize_pool(&mut pool, key(9), keys(), 1, 7, 7),
        Err(AmmError::AlreadyInitialized)
    );
    assert_eq!(pool, before);
    // A zero seed is reported even then.
    assert_eq!(
        initialize_pool(&mut pool, key(9), keys(), 1, 0, 7),
        Err(AmmError::InvalidAmount)
    );
}

#[test]
fn add_liquidity_takes_the_proportional_tokens() {
    let mut pool = seeded_pool();
    let event = add_liquidity(&mut pool, key(9), key(7), 1000, 1_000_000, 31_622);
    assert_eq!(
        event,
        Ok(LiquidityAdded {
            pool: key(9),
            user: key(7),
            sol_amount: 1000,
            token_amount: 1_000_000,
            lp_minted: 31_622,
        })
    );
    assert_eq!(
        (pool.sol_reserve, pool.token_reserve, pool.lp_supply),
        (1_001_000, 1_001_000_000, 31_654_398)
    );
}

#[test]
fn add_liquidity_failures_leave_the_pool_untouched() {
    let mut pool = seeded_pool();
    let before = pool;
    assert_eq!(
        add_liquidity(&mut pool, key(9), key(7), 0, u64::MAX, 0),
        Err(AmmError::InvalidAmount)
    );
    assert_eq!(
        add_liquidity(&mut pool, key(9), key(7), 1000, 999_999, 0),
        Err(AmmError::SlippageExceeded)
    );
    assert_eq!(
        add_liquidity(&mut pool, key(9), key(7), 1000, u64::MAX, 31_623),
        Err(AmmError::SlippageExceeded)
    );
    assert_eq!(pool, before);
}

#[test]
fn liquidity_needs_an_initialized_pool() {
    let mut pool = AmmPool::new();
    assert_eq!(
        add_liquidity(&mut pool, key(9), key(7), 1000, u64::MAX, 0),
        Err(AmmError::NotInitialized)
    );
    assert_eq!(
        remove_liquidity(&mut pool, key(9), key(7), 1000, 0, 0),
        Err(AmmError::NotInitialized)
    );
    // A zero amount is reported first.
    assert_eq!(
        add_liquidity(&mut pool, key(9), key(7), 0, u64::MAX, 0),
        Err(AmmError::InvalidAmount)
    );
    assert_eq!(
        remove_liquidity(&mut pool, key(9), key(7), 0, 0, 0),
        Err(AmmError::InvalidAmount)
    );
    assert_eq!(pool, AmmPool::new());
}

#[test]
fn remove_liquidity_pays_the_proportional_part() {
    let mut pool = seeded_pool();
    let event = remove_liquidity(&mut pool, key(9), key(7), 1_000_000, 31_622, 31_622_777);
    assert_eq!(
        event,
        Ok(LiquidityRemoved {
            pool: key(9),
            user: key(7),
            sol_amount: 31_622,
            token_amount: 31_622_777,
            lp_burned: 1_000_000,
        })
    );
    assert_eq!(
        (pool.sol_reserve, pool.token_reserve, pool.lp_supply),
        (968_378, 968_377_223, 30_622_776)
    );
}

#[test]
fn remove_liquidity_failures_leave_the_pool_untouched() {
    let mut pool = seeded_pool();
    let before = pool;
    assert_eq!(
        remove_liquidity(&mut pool, key(9), key(7), 1_000_000, 31_623, 0),
        Err(AmmError::SlippageExceeded)
    );
    assert_eq!(
        remove_liquidity(&mut pool, key(9), key(7), 1_000_000, 0, 31_622_778),
        Err(AmmError::SlippageExceeded)
    );
    assert_eq!(
        remove_liquidity(&mut pool, key(9), key(7), 31_622_777, 0, 0),
        Err(AmmError::ArithmeticUnderflow)
    );
    assert_eq!(pool, before);
}

#[test]
fn removing_every_share_is_refused() {
    let mut pool = seeded_pool();
    let before = pool;
    assert_eq!(
        remove_liquidity(&mut pool, key(9), key(7), 31_622_776, 0, 0),
        Err(AmmError::InsufficientLiquidity)
    );
    assert_eq!(pool, before);
    // All but one share can go; the pool stays alive.
    let event = remove_liquidity(&mut pool, key(9), key(7), 31_622_775, 0, 0).unwrap();
    assert_eq!((event.sol_amount, event.token_amount), (999_999, 999_999_968));
    assert_eq!((pool.sol_reserve, pool.token_reserve, pool.lp_supply), (1, 32, 1));
    assert!(pool.is_initialized);
    // The last share cannot be redeemed either.
    let last = pool;
    assert_eq!(
        remove_liquidity(&mut pool, key(9), key(7), 1, 0, 0),
        Err(AmmError::InsufficientLiquidity)
    );
    assert_eq!(pool, last);
    // And the pool still trades and takes liquidity.
    let swapped = swap_tokens_for_sol(&mut pool, key(9), key(7), 1_000, 0).unwrap();
    assert_eq!(swapped.output_amount, 0);
    assert_eq!((pool.sol_reserve, pool.token_reserve), (1, 1_032));
    let added = add_liquidity(&mut pool, key(9), key(7), 10, u64::MAX, 0).unwrap();
    assert_eq!((added.token_amount, added.lp_minted), (10_320, 10));
    assert_eq!((pool.sol_reserve, pool.token_reserve, pool.lp_supply), (11, 11_352, 11));
}

#[test]
fn add_then_remove_returns_no_more_than_was_added() {
    let mut pool = seeded_pool();
    let added = add_liquidity(&mut pool, key(9), key(7), 1000, u64::MAX, 0).unwrap();
    let removed = remove_liquidity(&mut pool, key(9), key(7), added.lp_minted, 0, 0).unwrap();
    assert_eq!((removed.sol_amount, removed.token_amount), (999, 999_975));
    assert!(removed.sol_amount <= added.sol_amount);
    assert!(removed.token_amount <= added.token_amount);
    assert_eq!(
        (pool.sol_reserve, pool.token_reserve, pool.lp_supply),
        (1_000_001, 1_000_000_025, 31_622_776)
    );
}

#[test]
fn swap_sol_for_tokens_follows_the_curve() {
    let mut pool = seeded_pool();
    let event = swap_sol_for_tokens(&mut pool, key(9), key(7), 1000, 996_006);
    assert_eq!(
        event,
        Ok(SwapExecuted {
            pool: key(9),
            user: key(7),
            input_token: String::from("SOL"),
            input_amount: 1000,
            output_amount: 996_006,
            fee: 3,
        })
    );
    assert_eq!((pool.sol_reserve, pool.token_reserve), (1_001_000, 999_003_994));
    assert_eq!(pool.lp_supply, 31_622_776);
}

#[test]
fn swap_tokens_for_sol_follows_the_curve() {
    let mut pool = seeded_pool();
    let event = swap_tokens_for_sol(&mut pool, key(9), key(7), 1_000_000, 996);
    assert_eq!(
        event,
        Ok(SwapExecuted {
            pool: key(9),
            user: key(7),
            input_token: String::from("TOKEN"),
            input_amount: 1_000_000,
            output_amount: 996,
            fee: 3000,
        })
    );
    assert_eq!((pool.sol_reserve, pool.token_reserve), (999_004, 1_001_000_000));
}

#[test]
fn swap_failures_leave_the_pool_untouched() {
    let mut pool = seeded_pool();
    let before = pool;
    assert_eq!(
        swap_sol_for_tokens(&mut pool, key(9), key(7), 0, 0),
        Err(AmmError::InvalidAmount)
    );
    assert_eq!(
        swap_sol_for_tokens(&mut pool, key(9), key(7), 1000, 996_007),
        Err(AmmError::SlippageExceeded)
    );
    assert_eq!(
        swap_tokens_for_sol(&mut pool, key(9), key(7), 1_000_000, 997),
        Err(AmmError::SlippageExceeded)
    );
    assert_eq!(pool, before);
}

#[test]
fn swaps_need_an_initialized_pool() {
    let mut pool = AmmPool::new();
    assert_eq!(
        swap_sol_for_tokens(&mut pool, key(9), key(7), 1000, 0),
        Err(AmmError::NotInitialized)
    );
    assert_eq!(
        swap_tokens_for_sol(&mut pool, key(9), key(7), 1000, 0),
        Err(AmmError::NotInitialized)
    );
    assert_eq!(pool.quote(1000, SwapDirection::BaseForQuote), Err(AmmError::NotInitialized));
    assert_eq!(pool.quote(0, SwapDirection::BaseForQuote), Err(AmmError::InvalidAmount));
}

#[test]
fn quote_reads_and_swap_reproduces_it() {
    let mut pool = seeded_pool();
    let before = pool;
    let first = pool.quote(5000, SwapDirection::BaseForQuote);
    let second = pool.quote(5000, SwapDirection::BaseForQuote);
    assert_eq!(first, Ok(4_960_273));
    assert_eq!(first, second);
    assert_eq!(pool, before);
    let done = pool.swap(5000, SwapDirection::BaseForQuote, 0).unwrap();
    assert_eq!(Ok(done.quote.output_amount), first);
    assert_eq!(pool.quote(1_000_000, SwapDirection::QuoteForBase), Ok(1005));
}

#[test]
fn successive_swaps_never_lower_the_product() {
    let mut pool = seeded_pool();
    let mut product = (pool.sol_reserve as u128) * (pool.token_reserve as u128);
    swap_sol_for_tokens(&mut pool, key(9), key(7), 1000, 0).unwrap();
    let second = swap_sol_for_tokens(&mut pool, key(9), key(7), 5000, 0).unwrap();
    assert_eq!((second.fee, second.output_amount), (15, 4_950_406));
    assert_eq!((pool.sol_reserve, pool.token_reserve), (1_006_000, 994_053_588));
    for _ in 0..20 {
        swap_tokens_for_sol(&mut pool, key(9), key(7), 3_000_000, 0).unwrap();
        swap_sol_for_tokens(&mut pool, key(9), key(7), 2_000, 0).unwrap();
        let next = (pool.sol_reserve as u128) * (pool.token_reserve as u128);
        assert!(next > product);
        assert!(pool.sol_reserve > 0 && pool.token_reserve > 0);
        product = next;
    }
}

#[test]
fn a_fee_free_pool_still_never_loses_on_a_swap() {
    let mut pool = seeded_pool();
    pool.fee_numerator = 0;
    let before = (pool.sol_reserve as u128) * (pool.token_reserve as u128);
    let event = swap_sol_for_tokens(&mut pool, key(9), key(7), 1000, 0).unwrap();
    assert_eq!((event.fee, event.output_amount), (0, 999_000));
    assert!((pool.sol_reserve as u128) * (pool.token_reserve as u128) >= before);
}
