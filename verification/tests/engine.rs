use meme_launchpad::engine::{
    deposit, initial_shares, quote_swap, swap, withdraw, Deposit, Reserves, SwapOutcome,
    SwapQuote, Withdrawal, FEE_DENOMINATOR, FEE_NUMERATOR,
};
use meme_launchpad::errors::AmmError;
use meme_launchpad::math::mul_div_floor;

const BASE: u64 = 1_000_000;
const QUOTE: u64 = 1_000_000_000;

#[test]
fn default_fee_is_three_in_a_thousand() {
    assert_eq!(FEE_NUMERATOR, 3);
    assert_eq!(FEE_DENOMINATOR, 1000);
}

#[test]
fn quote_swap_prices_a_thousand_base_units() {
    assert_eq!(
        quote_swap(1000, BASE, QUOTE, 3, 1000, 0),
        Ok(SwapQuote { fee_amount: 3, input_after_fee: 997, output_amount: 996_006 })
    );
}

#[test]
fn swap_moves_the_whole_input_in_and_the_payout_out() {
    assert_eq!(
        swap(1000, BASE, QUOTE, 3, 1000, 0),
        Ok(SwapOutcome {
            quote: SwapQuote { fee_amount: 3, input_after_fee: 997, output_amount: 996_006 },
            input_reserve: 1_001_000,
            output_reserve: 999_003_994,
        })
    );
}

#[test]
fn swap_is_symmetric_in_the_two_sides() {
    assert_eq!(
        swap(1_000_000, QUOTE, BASE, 3, 1000, 0),
        Ok(SwapOutcome {
            quote: SwapQuote { fee_amount: 3000, input_after_fee: 997_000, output_amount: 996 },
            input_reserve: 1_001_000_000,
            output_reserve: 999_004,
        })
    );
}

#[test]
fn swap_rejects_a_zero_input() {
    assert_eq!(quote_swap(0, BASE, QUOTE, 3, 1000, 0), Err(AmmError::InvalidAmount));
    assert_eq!(swap(0, BASE, QUOTE, 3, 1000, 0), Err(AmmError::InvalidAmount));
}

#[test]
fn swap_rejects_a_payout_below_the_minimum() {
    assert_eq!(quote_swap(1000, BASE, QUOTE, 3, 1000, 996_007), Err(AmmError::SlippageExceeded));
    assert!(quote_swap(1000, BASE, QUOTE, 3, 1000, 996_006).is_ok());
}

#[test]
fn swap_rejects_a_payout_that_reaches_the_reserve() {
    // An empty input side makes the rule pay the whole output side.
    assert_eq!(quote_swap(10, 0, 500, 0, 1000, 0), Err(AmmError::InsufficientLiquidity));
    // An empty output side pays nothing, which already is all of it.
    assert_eq!(quote_swap(10, 500, 0, 0, 1000, 0), Err(AmmError::InsufficientLiquidity));
}

#[test]
fn slippage_is_tested_before_liquidity() {
    assert_eq!(quote_swap(10, 0, 500, 0, 1000, 501), Err(AmmError::SlippageExceeded));
    assert_eq!(quote_swap(10, 0, 500, 0, 1000, 500), Err(AmmError::InsufficientLiquidity));
}

#[test]
fn swap_rejects_a_zero_fee_denominator() {
    assert_eq!(quote_swap(1000, BASE, QUOTE, 3, 0, 0), Err(AmmError::ArithmeticOverflow));
}

#[test]
fn swap_rejects_a_fee_above_the_input() {
    assert_eq!(quote_swap(1000, BASE, QUOTE, 2, 1, 0), Err(AmmError::ArithmeticUnderflow));
}

#[test]
fn swap_rejects_an_input_reserve_that_would_overflow() {
    assert_eq!(quote_swap(1000, u64::MAX, QUOTE, 0, 1000, 0), Err(AmmError::ArithmeticOverflow));
    // Priced on the input net of the fee, but the whole input must fit.
    assert!(quote_swap(1000, u64::MAX - 999, QUOTE, 1, 1000, 0).is_ok());
    assert_eq!(swap(1000, u64::MAX - 999, QUOTE, 1, 1000, 0), Err(AmmError::ArithmeticOverflow));
}

#[test]
fn swap_with_nothing_to_price_against_is_an_overflow() {
    // The whole input is fee and the input reserve is empty: division by zero.
    assert_eq!(quote_swap(10, 0, 500, 1, 1, 0), Err(AmmError::ArithmeticOverflow));
}

#[test]
fn swap_raises_the_product_when_a_fee_is_withheld() {
    let after = swap(1000, BASE, QUOTE, 3, 1000, 0).unwrap();
    let before = (BASE as u128) * (QUOTE as u128);
    let product = (after.input_reserve as u128) * (after.output_reserve as u128);
    assert_eq!(before, 1_000_000_000_000_000);
    assert_eq!(product, 1_000_002_997_994_000);
    assert!(product > before);
}

#[test]
fn swap_without_fee_can_keep_the_product_exactly() {
    let after = swap(1, 1, 2, 0, 1000, 0).unwrap();
    assert_eq!(after.quote.fee_amount, 0);
    assert_eq!(after.quote.output_amount, 1);
    assert_eq!((after.input_reserve, after.output_reserve), (2, 1));
}

#[test]
fn quote_is_repeatable_and_swap_pays_what_it_announced() {
    let first = quote_swap(5000, BASE, QUOTE, 3, 1000, 0);
    let second = quote_swap(5000, BASE, QUOTE, 3, 1000, 0);
    assert_eq!(first, second);
    let done = swap(5000, BASE, QUOTE, 3, 1000, 0).unwrap();
    assert_eq!(Ok(done.quote), first);
}

#[test]
fn initial_shares_are_the_geometric_mean_rounded_down() {
    assert_eq!(initial_shares(BASE, QUOTE), 31_622_776);
    assert_eq!(initial_shares(1, 1), 1);
    assert_eq!(initial_shares(2, 8), 4);
    assert_eq!(initial_shares(u64::MAX, u64::MAX), u64::MAX);
    assert_eq!(initial_shares(0, 7), 0);
}

fn seeded() -> Reserves {
    Reserves { base: BASE, quote: QUOTE, shares: 31_622_776 }
}

#[test]
fn deposit_mints_the_lesser_share_count() {
    assert_eq!(
        deposit(seeded(), 1000, u64::MAX, 0),
        Ok(Deposit {
            quote_in: 1_000_000,
            minted: 31_622,
            reserves: Reserves { base: 1_001_000, quote: 1_001_000_000, shares: 31_654_398 },
        })
    );
    // A rounded-down quote contribution mints fewer shares than the base side alone would.
    let lopsided = Reserves { base: 3, quote: 10, shares: 30 };
    let added = deposit(lopsided, 1, u64::MAX, 0).unwrap();
    assert_eq!(added.quote_in, 3);
    assert_eq!(added.minted, 9);
}

#[test]
fn deposit_rejects_a_zero_contribution() {
    assert_eq!(deposit(seeded(), 0, u64::MAX, 0), Err(AmmError::InvalidAmount));
}

#[test]
fn deposit_rejects_more_quote_than_allowed() {
    assert_eq!(deposit(seeded(), 1000, 999_999, 0), Err(AmmError::SlippageExceeded));
    assert!(deposit(seeded(), 1000, 1_000_000, 0).is_ok());
}

#[test]
fn deposit_rejects_fewer_shares_than_wanted() {
    assert_eq!(deposit(seeded(), 1000, u64::MAX, 31_623), Err(AmmError::SlippageExceeded));
    assert!(deposit(seeded(), 1000, u64::MAX, 31_622).is_ok());
}

#[test]
fn deposit_into_empty_reserves_is_an_overflow() {
    let empty = Reserves { base: 0, quote: 0, shares: 0 };
    assert_eq!(deposit(empty, 1000, u64::MAX, 0), Err(AmmError::ArithmeticOverflow));
}

#[test]
fn deposit_rejects_a_quote_contribution_beyond_64_bits() {
    let steep = Reserves { base: 1, quote: 1 << 63, shares: 1 };
    assert_eq!(deposit(steep, 4, u64::MAX, 0), Err(AmmError::ArithmeticOverflow));
}

#[test]
fn deposit_rejects_reserves_that_would_overflow() {
    let full = Reserves { base: u64::MAX, quote: 1, shares: 1 };
    assert_eq!(deposit(full, 1, u64::MAX, 0), Err(AmmError::ArithmeticOverflow));
}

#[test]
fn withdraw_pays_the_proportional_part_rounded_down() {
    assert_eq!(
        withdraw(seeded(), 1_000_000, 0, 0),
        Ok(Withdrawal {
            base_out: 31_622,
            quote_out: 31_622_777,
            reserves: Reserves { base: 968_378, quote: 968_377_223, shares: 30_622_776 },
        })
    );
}

#[test]
fn withdraw_rejects_a_zero_redemption() {
    assert_eq!(withdraw(seeded(), 0, 0, 0), Err(AmmError::InvalidAmount));
}

#[test]
fn withdraw_rejects_payouts_below_their_minimum() {
    assert_eq!(withdraw(seeded(), 1_000_000, 31_623, 0), Err(AmmError::SlippageExceeded));
    assert_eq!(withdraw(seeded(), 1_000_000, 0, 31_622_778), Err(AmmError::SlippageExceeded));
    assert!(withdraw(seeded(), 1_000_000, 31_622, 31_622_777).is_ok());
}

#[test]
fn withdraw_rejects_more_shares_than_exist() {
    assert_eq!(withdraw(seeded(), 31_622_777, 0, 0), Err(AmmError::ArithmeticUnderflow));
}

#[test]
fn withdraw_without_shares_outstanding_is_an_overflow() {
    let none = Reserves { base: 10, quote: 10, shares: 0 };
    assert_eq!(withdraw(none, 1, 0, 0), Err(AmmError::ArithmeticOverflow));
}

#[test]
fn withdrawing_what_a_deposit_minted_returns_no_more() {
    let added = deposit(seeded(), 1000, u64::MAX, 0).unwrap();
    let back = withdraw(added.reserves, added.minted, 0, 0).unwrap();
    assert_eq!((back.base_out, back.quote_out), (999, 999_975));
    assert!(back.base_out <= 1000);
    assert!(back.quote_out <= added.quote_in);
}

#[test]
fn both_share_counts_of_a_deposit_round_down() {
    assert_eq!(mul_div_floor(1000, QUOTE, BASE), Ok(1_000_000));
    assert_eq!(mul_div_floor(1000, 31_622_776, BASE), Ok(31_622));
    assert_eq!(mul_div_floor(1_000_000, 31_622_776, QUOTE), Ok(31_622));
}

#[test]
fn withdraw_refuses_to_empty_the_pool() {
    assert_eq!(withdraw(seeded(), 31_622_776, 0, 0), Err(AmmError::InsufficientLiquidity));
    assert_eq!(
        withdraw(seeded(), 31_622_775, 0, 0),
        Ok(Withdrawal {
            base_out: 999_999,
            quote_out: 999_999_968,
            reserves: Reserves { base: 1, quote: 32, shares: 1 },
        })
    );
    // A reserve that is already empty cannot be left empty.
    let hollow = Reserves { base: 0, quote: 100, shares: 10 };
    assert_eq!(withdraw(hollow, 1, 0, 0), Err(AmmError::InsufficientLiquidity));
}

#[test]
fn withdraw_tests_slippage_then_underflow_then_liquidity() {
    assert_eq!(
        withdraw(seeded(), 31_622_776, 1_000_001, 0),
        Err(AmmError::SlippageExceeded)
    );
    // One side exactly spent, the shares overdrawn: the overdraft is reported.
    let thin = Reserves { base: 1, quote: 1, shares: 10 };
    assert_eq!(withdraw(thin, 11, 0, 0), Err(AmmError::ArithmeticUnderflow));
    assert_eq!(withdraw(thin, 10, 0, 0), Err(AmmError::InsufficientLiquidity));
    // Rounded down to nothing, a small redemption still leaves everything in place.
    assert_eq!(
        withdraw(thin, 9, 0, 0),
        Ok(Withdrawal {
            base_out: 0,
            quote_out: 0,
            reserves: Reserves { base: 1, quote: 1, shares: 1 },
        })
    );
}
