//! The pricing engine: fee-adjusted constant-product swaps and proportional
//! issue and redemption of liquidity shares.
//!
//! Every function here is pure. It reads the reserves it is handed and returns
//! the amounts to move together with the reserves that result; committing them
//! is the caller's business.

use crate::errors::AmmError;
use crate::math::{
    checked_add, checked_sub, floor_mul_div, floor_sqrt, integer_sqrt, lemma_floor_div_at_most,
    lemma_floor_div_below, lemma_floor_div_bounds, lemma_floor_sqrt_bounds, lemma_product_fits,
    mul_div_floor,
};
use vstd::prelude::*;

verus! {

/// The default fee rate on the input of a swap: three parts in a thousand.
pub const FEE_NUMERATOR: u64 = 3;

pub const FEE_DENOMINATOR: u64 = 1000;

/// Which side of the pool a trader pays into.
#[derive(Clone, Copy, Debug, PartialEq, Eq, Structural)]
pub enum SwapDirection {
    /// Pay the base asset, receive the quote asset.
    BaseForQuote,
    /// Pay the quote asset, receive the base asset.
    QuoteForBase,
}

/// The amounts of a priced swap.
#[derive(Clone, Copy, Debug, PartialEq, Eq, Structural)]
pub struct SwapQuote {
    /// Part of the input retained as fee.
    pub fee_amount: u64,
    /// Input that takes part in pricing.
    pub input_after_fee: u64,
    /// Amount paid out from the opposing reserve.
    pub output_amount: u64,
}

/// A priced swap together with the reserves it leaves behind.
#[derive(Clone, Copy, Debug, PartialEq, Eq, Structural)]
pub struct SwapOutcome {
    pub quote: SwapQuote,
    /// Input-side reserve after the whole input, fee included, came in.
    pub input_reserve: u64,
    /// Output-side reserve after the payout left.
    pub output_reserve: u64,
}

/// Both reserves and the outstanding liquidity shares of a pool.
#[derive(Clone, Copy, Debug, PartialEq, Eq, Structural)]
pub struct Reserves {
    pub base: u64,
    pub quote: u64,
    pub shares: u64,
}

/// A contribution of liquidity: what it costs, what it mints, what it leaves.
#[derive(Clone, Copy, Debug, PartialEq, Eq, Structural)]
pub struct Deposit {
    /// Quote asset owed alongside the base contribution.
    pub quote_in: u64,
    /// Shares issued to the contributor.
    pub minted: u64,
    /// Reserves and share supply after the contribution.
    pub reserves: Reserves,
}

/// A redemption of shares: what it pays out and what it leaves.
#[derive(Clone, Copy, Debug, PartialEq, Eq, Structural)]
pub struct Withdrawal {
    pub base_out: u64,
    pub quote_out: u64,
    /// Reserves and share supply after the redemption.
    pub reserves: Reserves,
}

/// The fee withheld from an input, rounded down.
pub open spec fn fee_share(input_amount: int, fee_numerator: int, fee_denominator: int) -> int {
    floor_mul_div(input_amount, fee_numerator, fee_denominator)
}

/// What the constant-product rule pays for an input net of the fee: the
/// largest output that keeps the product of the reserves from falling.
pub open spec fn constant_product_output(
    input_after_fee: int,
    input_reserve: int,
    output_reserve: int,
) -> int {
    floor_mul_div(input_after_fee, output_reserve, input_reserve + input_after_fee)
}

/// The result of [`quote_swap`], with every rejection in the order in which
/// it is tested.
pub open spec fn quote_swap_spec(
    input_amount: u64,
    input_reserve: u64,
    output_reserve: u64,
    fee_numerator: u64,
    fee_denominator: u64,
    min_output: u64,
) -> Result<SwapQuote, AmmError> {
    let fee = fee_share(input_amount as int, fee_numerator as int, fee_denominator as int);
    let net = input_amount - fee;
    let output = constant_product_output(net, input_reserve as int, output_reserve as int);
    if input_amount == 0 {
        Err(AmmError::InvalidAmount)
    } else if fee_denominator == 0 || fee > u64::MAX {
        Err(AmmError::ArithmeticOverflow)
    } else if fee > input_amount {
        Err(AmmError::ArithmeticUnderflow)
    } else if input_reserve + net > u64::MAX || input_reserve + net == 0 {
        Err(AmmError::ArithmeticOverflow)
    } else if output < min_output {
        Err(AmmError::SlippageExceeded)
    } else if output >= output_reserve {
        Err(AmmError::InsufficientLiquidity)
    } else {
        Ok(
            SwapQuote {
                fee_amount: fee as u64,
                input_after_fee: net as u64,
                output_amount: output as u64,
            },
        )
    }
}

/// The result of [`swap`]: the quote, then the reserves with the whole input
/// added on one side and the payout taken from the other.
pub open spec fn swap_spec(
    input_amount: u64,
    input_reserve: u64,
    output_reserve: u64,
    fee_numerator: u64,
    fee_denominator: u64,
    min_output: u64,
) -> Result<SwapOutcome, AmmError> {
    match quote_swap_spec(
        input_amount,
        input_reserve,
        output_reserve,
        fee_numerator,
        fee_denominator,
        min_output,
    ) {
        Err(e) => Err(e),
        Ok(quote) => if input_reserve + input_amount > u64::MAX {
            Err(AmmError::ArithmeticOverflow)
        } else {
            Ok(
                SwapOutcome {
                    quote,
                    input_reserve: (input_reserve + input_amount) as u64,
                    output_reserve: (output_reserve - quote.output_amount) as u64,
                },
            )
        },
    }
}

/// The shares a first contribution of `seed_base` and `seed_quote` mints: the
/// geometric mean of the two, rounded down.
pub open spec fn initial_shares_spec(seed_base: u64, seed_quote: u64) -> nat {
    floor_sqrt((seed_base * seed_quote) as nat)
}

/// The result of [`deposit`], with every rejection in the order in which it
/// is tested.
pub open spec fn deposit_spec(
    reserves: Reserves,
    base_in: u64,
    max_quote_in: u64,
    min_shares_out: u64,
) -> Result<Deposit, AmmError> {
    let quote_in = floor_mul_div(base_in as int, reserves.quote as int, reserves.base as int);
    let from_base = floor_mul_div(base_in as int, reserves.shares as int, reserves.base as int);
    let from_quote = floor_mul_div(quote_in, reserves.shares as int, reserves.quote as int);
    let minted = if from_base <= from_quote {
        from_base
    } else {
        from_quote
    };
    if base_in == 0 {
        Err(AmmError::InvalidAmount)
    } else if reserves.base == 0 || quote_in > u64::MAX {
        Err(AmmError::ArithmeticOverflow)
    } else if quote_in > max_quote_in {
        Err(AmmError::SlippageExceeded)
    } else if from_base > u64::MAX || reserves.quote == 0 || from_quote > u64::MAX {
        Err(AmmError::ArithmeticOverflow)
    } else if minted < min_shares_out {
        Err(AmmError::SlippageExceeded)
    } else if reserves.base + base_in > u64::MAX || reserves.quote + quote_in > u64::MAX
        || reserves.shares + minted > u64::MAX {
        Err(AmmError::ArithmeticOverflow)
    } else {
        Ok(
            Deposit {
                quote_in: quote_in as u64,
                minted: minted as u64,
                reserves: Reserves {
                    base: (reserves.base + base_in) as u64,
                    quote: (reserves.quote + quote_in) as u64,
                    shares: (reserves.shares + minted) as u64,
                },
            },
        )
    }
}

/// The result of [`withdraw`], with every rejection in the order in which it
/// is tested. The last one keeps the pool alive: a redemption that would
/// leave a reserve or the share supply at zero is refused.
pub open spec fn withdraw_spec(
    reserves: Reserves,
    shares_in: u64,
    min_base_out: u64,
    min_quote_out: u64,
) -> Result<Withdrawal, AmmError> {
    let base_out = floor_mul_div(shares_in as int, reserves.base as int, reserves.shares as int);
    let quote_out = floor_mul_div(shares_in as int, reserves.quote as int, reserves.shares as int);
    if shares_in == 0 {
        Err(AmmError::InvalidAmount)
    } else if reserves.shares == 0 || base_out > u64::MAX || quote_out > u64::MAX {
        Err(AmmError::ArithmeticOverflow)
    } else if base_out < min_base_out || quote_out < min_quote_out {
        Err(AmmError::SlippageExceeded)
    } else if base_out > reserves.base || quote_out > reserves.quote || shares_in
        > reserves.shares {
        Err(AmmError::ArithmeticUnderflow)
    } else if base_out == reserves.base || quote_out == reserves.quote || shares_in
        == reserves.shares {
        Err(AmmError::InsufficientLiquidity)
    } else {
        Ok(
            Withdrawal {
                base_out: base_out as u64,
                quote_out: quote_out as u64,
                reserves: Reserves {
                    base: (reserves.base - base_out) as u64,
                    quote: (reserves.quote - quote_out) as u64,
                    shares: (reserves.shares - shares_in) as u64,
                },
            },
        )
    }
}

/// The constant-product payout never reaches past the opposing reserve, and
/// stays strictly inside it while the input-side reserve is not empty.
pub proof fn lemma_output_within_reserve(input_after_fee: int, input_reserve: int, output_reserve: int)
    requires
        0 <= input_after_fee,
        0 <= input_reserve,
        0 <= output_reserve,
        0 < input_reserve + input_after_fee,
    ensures
        0 <= constant_product_output(input_after_fee, input_reserve, output_reserve)
            <= output_reserve,
        input_reserve > 0 && output_reserve > 0 ==> constant_product_output(
            input_after_fee,
            input_reserve,
            output_reserve,
        ) < output_reserve,
{
    let divisor = input_reserve + input_after_fee;
    let product = input_after_fee * output_reserve;
    assert(0 <= product && product <= output_reserve * divisor) by (nonlinear_arith)
        requires
            0 <= input_after_fee,
            0 <= input_reserve,
            0 <= output_reserve,
            divisor == input_reserve + input_after_fee,
            product == input_after_fee * output_reserve,
    ;
    lemma_floor_div_bounds(product, divisor);
    lemma_floor_div_at_most(product, divisor, output_reserve);
    if input_reserve > 0 && output_reserve > 0 {
        assert(product < output_reserve * divisor) by (nonlinear_arith)
            requires
                0 <= input_after_fee,
                0 < input_reserve,
                0 < output_reserve,
                divisor == input_reserve + input_after_fee,
                product == input_after_fee * output_reserve,
        ;
        lemma_floor_div_below(product, divisor, output_reserve);
    }
}

/// Prices a swap of `input_amount` against the two reserves.
///
/// The fee is `input_amount * fee_numerator / fee_denominator`, rounded down,
/// and is taken from the input before pricing. The payout is
/// `net * output_reserve / (input_reserve + net)`, rounded down, where `net`
/// is the input less the fee. The swap is rejected when the payout is below
/// `min_output`, and after that when it would take the whole opposing reserve
/// or more.
pub fn quote_swap(
    input_amount: u64,
    input_reserve: u64,
    output_reserve: u64,
    fee_numerator: u64,
    fee_denominator: u64,
    min_output: u64,
) -> (r: Result<SwapQuote, AmmError>)
    ensures
        r == quote_swap_spec(
            input_amount,
            input_reserve,
            output_reserve,
            fee_numerator,
            fee_denominator,
            min_output,
        ),
{
    if input_amount == 0 {
        return Err(AmmError::InvalidAmount);
    }
    let fee_amount = mul_div_floor(input_amount, fee_numerator, fee_denominator)?;
    let input_after_fee = checked_sub(input_amount, fee_amount)?;
    let divisor = checked_add(input_reserve, input_after_fee)?;
    proof {
        if divisor > 0 {
            lemma_output_within_reserve(
                input_after_fee as int,
                input_reserve as int,
                output_reserve as int,
            );
        }
    }
    let output_amount = mul_div_floor(input_after_fee, output_reserve, divisor)?;
    if output_amount < min_output {
        return Err(AmmError::SlippageExceeded);
    }
    if output_amount >= output_reserve {
        return Err(AmmError::InsufficientLiquidity);
    }
    Ok(SwapQuote { fee_amount, input_after_fee, output_amount })
}

/// A successful swap never lowers the product of the two reserves, and raises
/// it whenever a fee was withheld.
pub proof fn swap_never_lowers_product(
    input_amount: u64,
    input_reserve: u64,
    output_reserve: u64,
    fee_numerator: u64,
    fee_denominator: u64,
    min_output: u64,
)
    requires
        swap_spec(
            input_amount,
            input_reserve,
            output_reserve,
            fee_numerator,
            fee_denominator,
            min_output,
        ) is Ok,
    ensures
        ({
            let after = swap_spec(
                input_amount,
                input_reserve,
                output_reserve,
                fee_numerator,
                fee_denominator,
                min_output,
            )->Ok_0;
            &&& after.input_reserve * after.output_reserve >= input_reserve * output_reserve
            &&& after.quote.fee_amount > 0 ==> after.input_reserve * after.output_reserve
                > input_reserve * output_reserve
        }),
{
    let after = swap_spec(
        input_amount,
        input_reserve,
        output_reserve,
        fee_numerator,
        fee_denominator,
        min_output,
    )->Ok_0;
    let x = input_reserve as int;
    let y = output_reserve as int;
    let fee = after.quote.fee_amount as int;
    let net = after.quote.input_after_fee as int;
    let out = after.quote.output_amount as int;
    assert(net * y >= 0) by (nonlinear_arith)
        requires
            net >= 0,
            y >= 0,
    ;
    lemma_floor_div_bounds(net * y, x + net);
    assert(out * (x + net) <= net * y);
    assert((x + net + fee) * (y - out) >= x * y + fee * (y - out)) by (nonlinear_arith)
        requires
            out * (x + net) <= net * y,
            fee >= 0,
            out < y,
    ;
    assert(fee > 0 ==> fee * (y - out) > 0) by (nonlinear_arith)
        requires
            out < y,
    ;
    assert(fee * (y - out) >= 0) by (nonlinear_arith)
        requires
            fee >= 0,
            out < y,
    ;
}

/// A successful swap leaves both reserves above zero.
pub proof fn swap_leaves_reserves_positive(
    input_amount: u64,
    input_reserve: u64,
    output_reserve: u64,
    fee_numerator: u64,
    fee_denominator: u64,
    min_output: u64,
)
    requires
        swap_spec(
            input_amount,
            input_reserve,
            output_reserve,
            fee_numerator,
            fee_denominator,
            min_output,
        ) is Ok,
    ensures
        ({
            let after = swap_spec(
                input_amount,
                input_reserve,
                output_reserve,
                fee_numerator,
                fee_denominator,
                min_output,
            )->Ok_0;
            after.input_reserve > 0 && after.output_reserve > 0
        }),
{
}

/// The steps before pricing pass: the input is positive, the fee can be
/// computed and does not exceed the input, and the input net of the fee fits
/// beside a reserve that is not left empty.
pub open spec fn swap_is_priced(
    input_amount: u64,
    input_reserve: u64,
    fee_numerator: u64,
    fee_denominator: u64,
) -> bool {
    let fee = fee_share(input_amount as int, fee_numerator as int, fee_denominator as int);
    &&& input_amount > 0
    &&& fee_denominator > 0
    &&& fee <= input_amount
    &&& 0 < input_reserve + input_amount - fee <= u64::MAX
}

/// A swap cannot take the whole opposing reserve. Where the payout computed
/// for it reaches the reserve, the swap is rejected: for want of liquidity
/// if that payout meets the caller's minimum, for slippage if it does not.
/// A swap that is accepted pays less than the reserve.
pub proof fn swap_cannot_drain_reserve(
    input_amount: u64,
    input_reserve: u64,
    output_reserve: u64,
    fee_numerator: u64,
    fee_denominator: u64,
    min_output: u64,
)
    ensures
        quote_swap_spec(
            input_amount,
            input_reserve,
            output_reserve,
            fee_numerator,
            fee_denominator,
            min_output,
        ) matches Ok(quote) ==> quote.output_amount < output_reserve,
        swap_is_priced(input_amount, input_reserve, fee_numerator, fee_denominator)
            && constant_product_output(
            input_amount - fee_share(
                input_amount as int,
                fee_numerator as int,
                fee_denominator as int,
            ),
            input_reserve as int,
            output_reserve as int,
        ) >= output_reserve ==> quote_swap_spec(
            input_amount,
            input_reserve,
            output_reserve,
            fee_numerator,
            fee_denominator,
            min_output,
        ) == Err::<SwapQuote, AmmError>(
            if output_reserve < min_output {
                AmmError::SlippageExceeded
            } else {
                AmmError::InsufficientLiquidity
            },
        ),
{
    if swap_is_priced(input_amount, input_reserve, fee_numerator, fee_denominator) {
        let fee = fee_share(input_amount as int, fee_numerator as int, fee_denominator as int);
        assert(input_amount * fee_numerator >= 0) by (nonlinear_arith);
        lemma_floor_div_bounds(input_amount * fee_numerator, fee_denominator as int);
        lemma_output_within_reserve(
            input_amount - fee,
            input_reserve as int,
            output_reserve as int,
        );
    }
}

/// Success is owed on a live pool: with both reserves positive, a fee rate of
/// at most the whole input, no minimum, and room for the input on its side, a
/// swap of a positive amount is accepted.
pub proof fn swap_succeeds_on_live_reserves(
    input_amount: u64,
    input_reserve: u64,
    output_reserve: u64,
    fee_numerator: u64,
    fee_denominator: u64,
)
    requires
        input_amount > 0,
        input_reserve > 0,
        output_reserve > 0,
        0 < fee_denominator,
        fee_numerator <= fee_denominator,
        input_reserve + input_amount <= u64::MAX,
    ensures
        swap_spec(input_amount, input_reserve, output_reserve, fee_numerator, fee_denominator, 0)
            is Ok,
{
    let fee = fee_share(input_amount as int, fee_numerator as int, fee_denominator as int);
    assert(0 <= input_amount * fee_numerator <= input_amount * fee_denominator)
        by (nonlinear_arith)
        requires
            0 <= fee_numerator <= fee_denominator,
            0 <= input_amount,
    ;
    lemma_floor_div_bounds(input_amount * fee_numerator, fee_denominator as int);
    lemma_floor_div_at_most(
        input_amount * fee_numerator,
        fee_denominator as int,
        input_amount as int,
    );
    lemma_output_within_reserve(input_amount - fee, input_reserve as int, output_reserve as int);
}

/// Pricing a swap and carrying it out agree: a swap that succeeds with no
/// minimum pays exactly what the quote for the same input on the same
/// reserves announces.
pub proof fn swap_pays_what_was_quoted(
    input_amount: u64,
    input_reserve: u64,
    output_reserve: u64,
    fee_numerator: u64,
    fee_denominator: u64,
)
    requires
        swap_spec(input_amount, input_reserve, output_reserve, fee_numerator, fee_denominator, 0)
            is Ok,
    ensures
        quote_swap_spec(
            input_amount,
            input_reserve,
            output_reserve,
            fee_numerator,
            fee_denominator,
            0,
        ) == Ok::<SwapQuote, AmmError>(
            swap_spec(
                input_amount,
                input_reserve,
                output_reserve,
                fee_numerator,
                fee_denominator,
                0,
            )->Ok_0.quote,
        ),
{
}

/// The shares minted for a contribution never exceed the contributor's
/// proportional claim on either side of the pool.
pub proof fn deposit_never_dilutes(
    reserves: Reserves,
    base_in: u64,
    max_quote_in: u64,
    min_shares_out: u64,
)
    ensures
        deposit_spec(reserves, base_in, max_quote_in, min_shares_out) matches Ok(done) ==> {
            &&& reserves.base > 0
            &&& reserves.quote > 0
            &&& done.minted * reserves.base <= base_in * reserves.shares
            &&& done.minted * reserves.quote <= done.quote_in * reserves.shares
        },
{
    if deposit_spec(reserves, base_in, max_quote_in, min_shares_out) is Ok {
        let done = deposit_spec(reserves, base_in, max_quote_in, min_shares_out)->Ok_0;
        let base = reserves.base as int;
        let quote = reserves.quote as int;
        let shares = reserves.shares as int;
        let quote_in = done.quote_in as int;
        assert(base_in * shares >= 0 && quote_in * shares >= 0) by (nonlinear_arith)
            requires
                base_in >= 0,
                quote_in >= 0,
                shares >= 0,
        ;
        lemma_floor_div_bounds(base_in * shares, base);
        lemma_floor_div_bounds(quote_in * shares, quote);
        let from_base = (base_in * shares) / base;
        let from_quote = (quote_in * shares) / quote;
        let minted = done.minted as int;
        assert(minted * base <= from_base * base) by (nonlinear_arith)
            requires
                minted <= from_base,
                base > 0,
        ;
        assert(minted * quote <= from_quote * quote) by (nonlinear_arith)
            requires
                minted <= from_quote,
                quote > 0,
        ;
    }
}

/// A redemption pays out at most the proportional share of each reserve, and
/// never empties the pool: both reserves and the share supply stay above
/// zero.
pub proof fn withdraw_pays_at_most_pro_rata(
    reserves: Reserves,
    shares_in: u64,
    min_base_out: u64,
    min_quote_out: u64,
)
    ensures
        withdraw_spec(reserves, shares_in, min_base_out, min_quote_out) matches Ok(done) ==> {
            &&& done.base_out * reserves.shares <= shares_in * reserves.base
            &&& done.quote_out * reserves.shares <= shares_in * reserves.quote
            &&& done.reserves.base > 0
            &&& done.reserves.quote > 0
            &&& done.reserves.shares > 0
        },
{
    if withdraw_spec(reserves, shares_in, min_base_out, min_quote_out) is Ok {
        let base = reserves.base as int;
        let quote = reserves.quote as int;
        let shares = reserves.shares as int;
        assert(shares_in * base >= 0 && shares_in * quote >= 0) by (nonlinear_arith)
            requires
                shares_in >= 0,
                base >= 0,
                quote >= 0,
        ;
        lemma_floor_div_bounds(shares_in * base, shares);
        lemma_floor_div_bounds(shares_in * quote, shares);
    }
}

/// Rounding never favours the depositor: redeeming at once exactly the shares
/// that a contribution minted pays back no more than was contributed, on
/// either side. Where shares were minted at all, that redemption succeeds
/// when no minimum is set.
pub proof fn deposit_then_withdraw_returns_no_more(
    reserves: Reserves,
    base_in: u64,
    max_quote_in: u64,
    min_shares_out: u64,
    min_base_out: u64,
    min_quote_out: u64,
)
    requires
        deposit_spec(reserves, base_in, max_quote_in, min_shares_out) is Ok,
    ensures
        ({
            let added = deposit_spec(reserves, base_in, max_quote_in, min_shares_out)->Ok_0;
            &&& withdraw_spec(added.reserves, added.minted, min_base_out, min_quote_out) matches Ok(
                back,
            ) ==> back.base_out <= base_in && back.quote_out <= added.quote_in
            &&& added.minted > 0 ==> withdraw_spec(added.reserves, added.minted, 0, 0) is Ok
        }),
{
    let added = deposit_spec(reserves, base_in, max_quote_in, min_shares_out)->Ok_0;
    deposit_never_dilutes(reserves, base_in, max_quote_in, min_shares_out);
    let base = reserves.base as int;
    let quote = reserves.quote as int;
    let shares = reserves.shares as int;
    let minted = added.minted as int;
    let quote_in = added.quote_in as int;
    if minted > 0 {
        let supply = shares + minted;
        assert(minted * (base + base_in) <= base_in * supply) by (nonlinear_arith)
            requires
                minted * base <= base_in * shares,
                supply == shares + minted,
        ;
        assert(minted * (quote + quote_in) <= quote_in * supply) by (nonlinear_arith)
            requires
                minted * quote <= quote_in * shares,
                supply == shares + minted,
        ;
        assert(minted * (base + base_in) >= 0 && minted * (quote + quote_in) >= 0)
            by (nonlinear_arith)
            requires
                minted >= 0,
                base >= 0,
                base_in >= 0,
                quote >= 0,
                quote_in >= 0,
        ;
        lemma_floor_div_at_most(minted * (base + base_in), supply, base_in as int);
        lemma_floor_div_at_most(minted * (quote + quote_in), supply, quote_in);
        lemma_floor_div_bounds(minted * (base + base_in), supply);
        lemma_floor_div_bounds(minted * (quote + quote_in), supply);
        // Shares were minted, so some were outstanding before, and both
        // reserves were positive: the redemption leaves all three above zero.
        assert(shares > 0) by (nonlinear_arith)
            requires
                minted > 0,
                minted * base <= base_in * shares,
                base > 0,
                base_in >= 0,
                shares >= 0,
        ;
    }
}

/// Carries out a swap on the two reserves: prices it as [`quote_swap`] does,
/// then adds the whole input, fee included, to the input side and takes the
/// payout from the output side.
pub fn swap(
    input_amount: u64,
    input_reserve: u64,
    output_reserve: u64,
    fee_numerator: u64,
    fee_denominator: u64,
    min_output: u64,
) -> (r: Result<SwapOutcome, AmmError>)
    ensures
        r == swap_spec(
            input_amount,
            input_reserve,
            output_reserve,
            fee_numerator,
            fee_denominator,
            min_output,
        ),
        r matches Ok(after) ==> {
            &&& after.input_reserve > 0
            &&& after.output_reserve > 0
            &&& after.input_reserve * after.output_reserve >= input_reserve * output_reserve
            &&& after.quote.fee_amount > 0 ==> after.input_reserve * after.output_reserve
                > input_reserve * output_reserve
        },
{
    let quote = quote_swap(
        input_amount,
        input_reserve,
        output_reserve,
        fee_numerator,
        fee_denominator,
        min_output,
    )?;
    let input_after = checked_add(input_reserve, input_amount)?;
    let output_after = checked_sub(output_reserve, quote.output_amount)?;
    proof {
        swap_never_lowers_product(
            input_amount,
            input_reserve,
            output_reserve,
            fee_numerator,
            fee_denominator,
            min_output,
        );
    }
    Ok(SwapOutcome { quote, input_reserve: input_after, output_reserve: output_after })
}

/// The shares minted by the first contribution to a pool:
/// `floor(sqrt(seed_base * seed_quote))`, computed exactly.
pub fn initial_shares(seed_base: u64, seed_quote: u64) -> (r: u64)
    ensures
        r == initial_shares_spec(seed_base, seed_quote),
        r * r <= seed_base * seed_quote < (r + 1) * (r + 1),
        seed_base > 0 && seed_quote > 0 ==> r > 0,
{
    proof {
        lemma_product_fits(seed_base, seed_quote);
    }
    let product: u128 = (seed_base as u128) * (seed_quote as u128);
    let root = integer_sqrt(product);
    proof {
        if seed_base > 0 && seed_quote > 0 {
            assert(product >= 1) by (nonlinear_arith)
                requires
                    product == seed_base * seed_quote,
                    seed_base >= 1,
                    seed_quote >= 1,
            ;
            lemma_floor_sqrt_bounds(product as nat);
        }
    }
    root
}

/// Prices and carries out a contribution of `base_in` to the reserves.
///
/// The quote asset owed is `base_in * quote / base`, rounded down, and must
/// not exceed `max_quote_in`. The shares minted are the lesser of
/// `base_in * shares / base` and `quote_in * shares / quote`, both rounded
/// down, and must not fall below `min_shares_out`.
pub fn deposit(reserves: Reserves, base_in: u64, max_quote_in: u64, min_shares_out: u64) -> (r:
    Result<Deposit, AmmError>)
    ensures
        r == deposit_spec(reserves, base_in, max_quote_in, min_shares_out),
        r matches Ok(done) ==> {
            &&& done.minted * reserves.base <= base_in * reserves.shares
            &&& done.minted * reserves.quote <= done.quote_in * reserves.shares
        },
{
    proof {
        deposit_never_dilutes(reserves, base_in, max_quote_in, min_shares_out);
    }
    if base_in == 0 {
        return Err(AmmError::InvalidAmount);
    }
    let quote_in = mul_div_floor(base_in, reserves.quote, reserves.base)?;
    if quote_in > max_quote_in {
        return Err(AmmError::SlippageExceeded);
    }
    let from_base = mul_div_floor(base_in, reserves.shares, reserves.base)?;
    let from_quote = mul_div_floor(quote_in, reserves.shares, reserves.quote)?;
    let minted = if from_base <= from_quote {
        from_base
    } else {
        from_quote
    };
    if minted < min_shares_out {
        return Err(AmmError::SlippageExceeded);
    }
    let base = checked_add(reserves.base, base_in)?;
    let quote = checked_add(reserves.quote, quote_in)?;
    let shares = checked_add(reserves.shares, minted)?;
    Ok(Deposit { quote_in, minted, reserves: Reserves { base, quote, shares } })
}

/// Prices and carries out a redemption of `shares_in` shares.
///
/// Each side pays out `shares_in * reserve / shares`, rounded down, so a
/// holder never receives more than the proportional claim. Either payout
/// below its minimum rejects the redemption. So does, for want of liquidity,
/// a redemption that would leave either reserve or the share supply at zero:
/// a pool is never drained.
pub fn withdraw(reserves: Reserves, shares_in: u64, min_base_out: u64, min_quote_out: u64) -> (r:
    Result<Withdrawal, AmmError>)
    ensures
        r == withdraw_spec(reserves, shares_in, min_base_out, min_quote_out),
        r matches Ok(done) ==> {
            &&& done.base_out * reserves.shares <= shares_in * reserves.base
            &&& done.quote_out * reserves.shares <= shares_in * reserves.quote
            &&& done.reserves.base > 0
            &&& done.reserves.quote > 0
            &&& done.reserves.shares > 0
        },
{
    proof {
        withdraw_pays_at_most_pro_rata(reserves, shares_in, min_base_out, min_quote_out);
    }
    if shares_in == 0 {
        return Err(AmmError::InvalidAmount);
    }
    let base_out = mul_div_floor(shares_in, reserves.base, reserves.shares)?;
    let quote_out = mul_div_floor(shares_in, reserves.quote, reserves.shares)?;
    if base_out < min_base_out {
        return Err(AmmError::SlippageExceeded);
    }
    if quote_out < min_quote_out {
        return Err(AmmError::SlippageExceeded);
    }
    let base = checked_sub(reserves.base, base_out)?;
    let quote = checked_sub(reserves.quote, quote_out)?;
    let shares = checked_sub(reserves.shares, shares_in)?;
    if base == 0 || quote == 0 || shares == 0 {
        return Err(AmmError::InsufficientLiquidity);
    }
    Ok(Withdrawal { base_out, quote_out, reserves: Reserves { base, quote, shares } })
}

} // verus!
