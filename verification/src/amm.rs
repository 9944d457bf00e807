//! The standard pool: reserves backed by a supply of liquidity shares.

use crate::address::Address;
use crate::engine::{
    deposit, deposit_spec, initial_shares, initial_shares_spec, quote_swap, quote_swap_spec, swap,
    swap_spec, withdraw, withdraw_pays_at_most_pro_rata, withdraw_spec, Deposit, Reserves,
    SwapDirection, SwapOutcome, Withdrawal, FEE_DENOMINATOR, FEE_NUMERATOR,
};
use crate::errors::AmmError;
use vstd::prelude::*;
use vstd::string::*;

verus! {

/// The record of one pool of the base asset against one token.
#[derive(Clone, Copy, Debug, PartialEq, Eq)]
pub struct AmmPool {
    /// The token traded against the base asset; it names the pool.
    pub token_mint: Address,
    /// The asset in which liquidity shares are issued.
    pub lp_mint: Address,
    /// Where the pool keeps its base asset.
    pub sol_vault: Address,
    /// Where the pool keeps its tokens.
    pub token_vault: Address,
    /// Base asset held, in its smallest unit.
    pub sol_reserve: u64,
    /// Tokens held, in their smallest unit.
    pub token_reserve: u64,
    /// Liquidity shares outstanding.
    pub lp_supply: u64,
    /// The fee rate charged on the input of every swap.
    pub fee_numerator: u64,
    pub fee_denominator: u64,
    /// Bump seed of the pool's own address.
    pub bump: u8,
    /// Set once, by the first and only initialization.
    pub is_initialized: bool,
}

/// The addresses a pool is bound to at initialization.
#[derive(Clone, Copy, Debug, PartialEq, Eq)]
pub struct PoolKeys {
    pub token_mint: Address,
    pub lp_mint: Address,
    pub sol_vault: Address,
    pub token_vault: Address,
}

/// Emitted when a pool is initialized.
#[derive(Clone, Copy, Debug, PartialEq, Eq)]
pub struct PoolInitialized {
    pub pool: Address,
    pub token_mint: Address,
    pub lp_mint: Address,
    pub initial_sol: u64,
    pub initial_tokens: u64,
    pub lp_minted: u64,
}

/// Emitted when liquidity was added.
#[derive(Clone, Copy, Debug, PartialEq, Eq)]
pub struct LiquidityAdded {
    pub pool: Address,
    pub user: Address,
    pub sol_amount: u64,
    pub token_amount: u64,
    pub lp_minted: u64,
}

/// Emitted when liquidity was removed.
#[derive(Clone, Copy, Debug, PartialEq, Eq)]
pub struct LiquidityRemoved {
    pub pool: Address,
    pub user: Address,
    pub sol_amount: u64,
    pub token_amount: u64,
    pub lp_burned: u64,
}

/// Emitted when a swap was carried out.
#[derive(Clone, Debug, PartialEq, Eq)]
pub struct SwapExecuted {
    pub pool: Address,
    pub user: Address,
    /// `"SOL"` where the base asset was paid in, `"TOKEN"` where tokens were.
    pub input_token: String,
    pub input_amount: u64,
    pub output_amount: u64,
    pub fee: u64,
}

/// The label a swap event carries for the asset paid in.
pub open spec fn input_label(direction: SwapDirection) -> Seq<char> {
    match direction {
        SwapDirection::BaseForQuote => "SOL"@,
        SwapDirection::QuoteForBase => "TOKEN"@,
    }
}

/// The event that reports `outcome` of a swap of `input_amount`.
pub fn swap_event(
    pool: Address,
    user: Address,
    direction: SwapDirection,
    input_amount: u64,
    outcome: &SwapOutcome,
) -> (event: SwapExecuted)
    ensures
        event.pool == pool,
        event.user == user,
        event.input_token@ == input_label(direction),
        event.input_amount == input_amount,
        event.output_amount == outcome.quote.output_amount,
        event.fee == outcome.quote.fee_amount,
{
    let input_token = match direction {
        SwapDirection::BaseForQuote => String::from_str("SOL"),
        SwapDirection::QuoteForBase => String::from_str("TOKEN"),
    };
    SwapExecuted {
        pool,
        user,
        input_token,
        input_amount,
        output_amount: outcome.quote.output_amount,
        fee: outcome.quote.fee_amount,
    }
}

impl AmmPool {
    /// The two invariants of a pool: once initialized it holds both assets,
    /// and it has shares outstanding exactly when it is initialized.
    pub open spec fn wf(&self) -> bool {
        &&& self.is_initialized ==> self.sol_reserve > 0 && self.token_reserve > 0
        &&& self.lp_supply == 0 <==> !self.is_initialized
    }

    /// Reserves and share supply, as the engine reads them.
    pub open spec fn reserves_spec(&self) -> Reserves {
        Reserves { base: self.sol_reserve, quote: self.token_reserve, shares: self.lp_supply }
    }

    /// This pool with reserves and share supply replaced.
    pub open spec fn with_reserves(self, reserves: Reserves) -> AmmPool {
        AmmPool {
            sol_reserve: reserves.base,
            token_reserve: reserves.quote,
            lp_supply: reserves.shares,
            ..self
        }
    }

    /// The reserve that a swap in `direction` pays into.
    pub open spec fn input_reserve(&self, direction: SwapDirection) -> u64 {
        match direction {
            SwapDirection::BaseForQuote => self.sol_reserve,
            SwapDirection::QuoteForBase => self.token_reserve,
        }
    }

    /// The reserve that a swap in `direction` is paid from.
    pub open spec fn output_reserve(&self, direction: SwapDirection) -> u64 {
        match direction {
            SwapDirection::BaseForQuote => self.token_reserve,
            SwapDirection::QuoteForBase => self.sol_reserve,
        }
    }

    /// This pool after a swap in `direction` left `outcome`.
    pub open spec fn after_swap(self, direction: SwapDirection, outcome: SwapOutcome) -> AmmPool {
        match direction {
            SwapDirection::BaseForQuote => AmmPool {
                sol_reserve: outcome.input_reserve,
                token_reserve: outcome.output_reserve,
                ..self
            },
            SwapDirection::QuoteForBase => AmmPool {
                sol_reserve: outcome.output_reserve,
                token_reserve: outcome.input_reserve,
                ..self
            },
        }
    }

    /// The result of [`AmmPool::quote`].
    pub open spec fn quote_spec(&self, input_amount: u64, direction: SwapDirection) -> Result<
        u64,
        AmmError,
    > {
        if input_amount == 0 {
            Err(AmmError::InvalidAmount)
        } else if !self.is_initialized {
            Err(AmmError::NotInitialized)
        } else {
            match quote_swap_spec(
                input_amount,
                self.input_reserve(direction),
                self.output_reserve(direction),
                self.fee_numerator,
                self.fee_denominator,
                0,
            ) {
                Ok(quote) => Ok(quote.output_amount),
                Err(e) => Err(e),
            }
        }
    }

    /// The result of [`AmmPool::swap`]: a zero input is rejected first, an
    /// uninitialized pool next, and then the engine decides.
    pub open spec fn swap_spec(
        &self,
        input_amount: u64,
        direction: SwapDirection,
        min_output: u64,
    ) -> Result<SwapOutcome, AmmError> {
        if input_amount == 0 {
            Err(AmmError::InvalidAmount)
        } else if !self.is_initialized {
            Err(AmmError::NotInitialized)
        } else {
            swap_spec(
                input_amount,
                self.input_reserve(direction),
                self.output_reserve(direction),
                self.fee_numerator,
                self.fee_denominator,
                min_output,
            )
        }
    }

    /// A pool that has not been initialized: no reserves, no shares.
    pub fn new() -> (pool: AmmPool)
        ensures
            !pool.is_initialized,
            pool.sol_reserve == 0,
            pool.token_reserve == 0,
            pool.lp_supply == 0,
            pool.fee_numerator == FEE_NUMERATOR,
            pool.fee_denominator == FEE_DENOMINATOR,
            pool.wf(),
    {
        let nobody = Address { bytes: [0u8; 32] };
        AmmPool {
            token_mint: nobody,
            lp_mint: nobody,
            sol_vault: nobody,
            token_vault: nobody,
            sol_reserve: 0,
            token_reserve: 0,
            lp_supply: 0,
            fee_numerator: FEE_NUMERATOR,
            fee_denominator: FEE_DENOMINATOR,
            bump: 0,
            is_initialized: false,
        }
    }

    /// Reserves and share supply, as the engine reads them.
    pub fn reserves(&self) -> (r: Reserves)
        ensures
            r == self.reserves_spec(),
    {
        Reserves { base: self.sol_reserve, quote: self.token_reserve, shares: self.lp_supply }
    }

    /// What a swap of `input_amount` in `direction` would pay out now. Reads
    /// the pool and changes nothing.
    pub fn quote(&self, input_amount: u64, direction: SwapDirection) -> (r: Result<u64, AmmError>)
        ensures
            r == self.quote_spec(input_amount, direction),
    {
        if input_amount == 0 {
            return Err(AmmError::InvalidAmount);
        }
        if !self.is_initialized {
            return Err(AmmError::NotInitialized);
        }
        let (input_reserve, output_reserve) = match direction {
            SwapDirection::BaseForQuote => (self.sol_reserve, self.token_reserve),
            SwapDirection::QuoteForBase => (self.token_reserve, self.sol_reserve),
        };
        let quote = quote_swap(
            input_amount,
            input_reserve,
            output_reserve,
            self.fee_numerator,
            self.fee_denominator,
            0,
        )?;
        Ok(quote.output_amount)
    }

    /// Swaps `input_amount` in `direction` and commits the new reserves.
    ///
    /// On any failure the pool is left exactly as it was. On success both
    /// reserves stay positive and their product does not fall; it rises when
    /// a fee was withheld.
    pub fn swap(&mut self, input_amount: u64, direction: SwapDirection, min_output: u64) -> (r:
        Result<SwapOutcome, AmmError>)
        ensures
            r == old(self).swap_spec(input_amount, direction, min_output),
            match r {
                Ok(outcome) => *final(self) == old(self).after_swap(direction, outcome),
                Err(_) => *final(self) == *old(self),
            },
            r matches Ok(outcome) ==> {
                &&& final(self).sol_reserve > 0
                &&& final(self).token_reserve > 0
                &&& final(self).sol_reserve * final(self).token_reserve >= old(self).sol_reserve
                    * old(self).token_reserve
                &&& outcome.quote.fee_amount > 0 ==> old(self).sol_reserve * old(self).token_reserve
                    < final(self).sol_reserve * final(self).token_reserve
            },
            old(self).wf() ==> final(self).wf(),
    {
        if input_amount == 0 {
            return Err(AmmError::InvalidAmount);
        }
        if !self.is_initialized {
            return Err(AmmError::NotInitialized);
        }
        match direction {
            SwapDirection::BaseForQuote => {
                let outcome = swap(
                    input_amount,
                    self.sol_reserve,
                    self.token_reserve,
                    self.fee_numerator,
                    self.fee_denominator,
                    min_output,
                )?;
                self.sol_reserve = outcome.input_reserve;
                self.token_reserve = outcome.output_reserve;
                Ok(outcome)
            },
            SwapDirection::QuoteForBase => {
                let outcome = swap(
                    input_amount,
                    self.token_reserve,
                    self.sol_reserve,
                    self.fee_numerator,
                    self.fee_denominator,
                    min_output,
                )?;
                proof {
                    assert(outcome.output_reserve * outcome.input_reserve == outcome.input_reserve
                        * outcome.output_reserve) by (nonlinear_arith);
                    assert(self.sol_reserve * self.token_reserve == self.token_reserve
                        * self.sol_reserve) by (nonlinear_arith);
                }
                self.token_reserve = outcome.input_reserve;
                self.sol_reserve = outcome.output_reserve;
                Ok(outcome)
            },
        }
    }
}

/// Quoting and swapping agree: a swap that succeeds with no minimum pays
/// exactly what a quote for the same input on the same pool announces.
pub proof fn swap_pays_what_quote_announced(
    pool: AmmPool,
    input_amount: u64,
    direction: SwapDirection,
)
    requires
        pool.swap_spec(input_amount, direction, 0) is Ok,
    ensures
        pool.quote_spec(input_amount, direction) == Ok::<u64, AmmError>(
            pool.swap_spec(input_amount, direction, 0)->Ok_0.quote.output_amount,
        ),
{
}

/// The pool that a successful initialization leaves: bound to `keys`, seeded
/// with both amounts, with the geometric mean of the two as share supply and
/// the default fee rate.
pub open spec fn initialized_pool(
    keys: PoolKeys,
    bump: u8,
    initial_sol_amount: u64,
    initial_token_amount: u64,
) -> AmmPool {
    AmmPool {
        token_mint: keys.token_mint,
        lp_mint: keys.lp_mint,
        sol_vault: keys.sol_vault,
        token_vault: keys.token_vault,
        sol_reserve: initial_sol_amount,
        token_reserve: initial_token_amount,
        lp_supply: initial_shares_spec(initial_sol_amount, initial_token_amount) as u64,
        fee_numerator: FEE_NUMERATOR,
        fee_denominator: FEE_DENOMINATOR,
        bump,
        is_initialized: true,
    }
}

/// The result of [`initialize_pool`] as the next state of the pool: a zero
/// seed is rejected first, a pool that is already initialized next.
pub open spec fn initialize_pool_spec(
    pool: AmmPool,
    keys: PoolKeys,
    bump: u8,
    initial_sol_amount: u64,
    initial_token_amount: u64,
) -> Result<AmmPool, AmmError> {
    if initial_sol_amount == 0 || initial_token_amount == 0 {
        Err(AmmError::InvalidAmount)
    } else if pool.is_initialized {
        Err(AmmError::AlreadyInitialized)
    } else {
        Ok(initialized_pool(keys, bump, initial_sol_amount, initial_token_amount))
    }
}

/// The result of [`add_liquidity`]: a zero contribution is rejected first, an
/// uninitialized pool next, and then the engine decides.
pub open spec fn add_liquidity_spec(
    pool: AmmPool,
    sol_amount: u64,
    max_token_amount: u64,
    min_lp_amount: u64,
) -> Result<Deposit, AmmError> {
    if sol_amount == 0 {
        Err(AmmError::InvalidAmount)
    } else if !pool.is_initialized {
        Err(AmmError::NotInitialized)
    } else {
        deposit_spec(pool.reserves_spec(), sol_amount, max_token_amount, min_lp_amount)
    }
}

/// The result of [`remove_liquidity`]: a zero redemption is rejected first,
/// an uninitialized pool next, and then the engine decides, which refuses
/// to leave a reserve or the share supply at zero.
pub open spec fn remove_liquidity_spec(
    pool: AmmPool,
    lp_amount: u64,
    min_sol_amount: u64,
    min_token_amount: u64,
) -> Result<Withdrawal, AmmError> {
    if lp_amount == 0 {
        Err(AmmError::InvalidAmount)
    } else if !pool.is_initialized {
        Err(AmmError::NotInitialized)
    } else {
        withdraw_spec(pool.reserves_spec(), lp_amount, min_sol_amount, min_token_amount)
    }
}

/// Initializes `pool` with its first reserves and mints the first shares.
///
/// Both seeds must be positive, and the pool must not have been initialized
/// before. The shares minted, all owed to the initializer, are
/// `floor(sqrt(initial_sol_amount * initial_token_amount))`. The event names
/// the amounts to move into the vaults and the shares to mint.
pub fn initialize_pool(
    pool: &mut AmmPool,
    pool_key: Address,
    keys: PoolKeys,
    bump: u8,
    initial_sol_amount: u64,
    initial_token_amount: u64,
) -> (r: Result<PoolInitialized, AmmError>)
    ensures
        match initialize_pool_spec(
            *old(pool),
            keys,
            bump,
            initial_sol_amount,
            initial_token_amount,
        ) {
            Ok(next) => {
                &&& *final(pool) == next
                &&& final(pool).wf()
                &&& r matches Ok(event)
                &&& event.pool == pool_key
                &&& event.token_mint == keys.token_mint
                &&& event.lp_mint == keys.lp_mint
                &&& event.initial_sol == initial_sol_amount
                &&& event.initial_tokens == initial_token_amount
                &&& event.lp_minted == next.lp_supply
            },
            Err(e) => r == Err::<PoolInitialized, AmmError>(e) && *final(pool) == *old(pool),
        },
{
    if initial_sol_amount == 0 || initial_token_amount == 0 {
        return Err(AmmError::InvalidAmount);
    }
    if pool.is_initialized {
        return Err(AmmError::AlreadyInitialized);
    }
    let lp_amount = initial_shares(initial_sol_amount, initial_token_amount);
    pool.token_mint = keys.token_mint;
    pool.lp_mint = keys.lp_mint;
    pool.sol_vault = keys.sol_vault;
    pool.token_vault = keys.token_vault;
    pool.sol_reserve = initial_sol_amount;
    pool.token_reserve = initial_token_amount;
    pool.lp_supply = lp_amount;
    pool.fee_numerator = FEE_NUMERATOR;
    pool.fee_denominator = FEE_DENOMINATOR;
    pool.bump = bump;
    pool.is_initialized = true;
    Ok(
        PoolInitialized {
            pool: pool_key,
            token_mint: keys.token_mint,
            lp_mint: keys.lp_mint,
            initial_sol: initial_sol_amount,
            initial_tokens: initial_token_amount,
            lp_minted: lp_amount,
        },
    )
}

/// Adds `sol_amount` of the base asset and the proportional amount of tokens,
/// and mints shares for both.
///
/// The tokens owed must not exceed `max_token_amount` and the shares minted
/// must not fall below `min_lp_amount`. On any failure the pool is left
/// exactly as it was. The event names the amounts to move in and the shares
/// to mint.
pub fn add_liquidity(
    pool: &mut AmmPool,
    pool_key: Address,
    user: Address,
    sol_amount: u64,
    max_token_amount: u64,
    min_lp_amount: u64,
) -> (r: Result<LiquidityAdded, AmmError>)
    ensures
        match add_liquidity_spec(*old(pool), sol_amount, max_token_amount, min_lp_amount) {
            Ok(added) => {
                &&& *final(pool) == old(pool).with_reserves(added.reserves)
                &&& r matches Ok(event)
                &&& event.pool == pool_key
                &&& event.user == user
                &&& event.sol_amount == sol_amount
                &&& event.token_amount == added.quote_in
                &&& event.lp_minted == added.minted
            },
            Err(e) => r == Err::<LiquidityAdded, AmmError>(e) && *final(pool) == *old(pool),
        },
        old(pool).wf() ==> final(pool).wf(),
{
    if sol_amount == 0 {
        return Err(AmmError::InvalidAmount);
    }
    if !pool.is_initialized {
        return Err(AmmError::NotInitialized);
    }
    let added = deposit(pool.reserves(), sol_amount, max_token_amount, min_lp_amount)?;
    pool.sol_reserve = added.reserves.base;
    pool.token_reserve = added.reserves.quote;
    pool.lp_supply = added.reserves.shares;
    Ok(
        LiquidityAdded {
            pool: pool_key,
            user,
            sol_amount,
            token_amount: added.quote_in,
            lp_minted: added.minted,
        },
    )
}

/// Redeems `lp_amount` shares for the proportional part of both reserves,
/// rounded down.
///
/// Either payout below its minimum rejects the redemption, and so does a
/// redemption that would leave either reserve or the share supply at zero:
/// an initialized pool is never drained. On any failure the pool is left
/// exactly as it was. The event names the amounts to pay out and the shares
/// to burn.
pub fn remove_liquidity(
    pool: &mut AmmPool,
    pool_key: Address,
    user: Address,
    lp_amount: u64,
    min_sol_amount: u64,
    min_token_amount: u64,
) -> (r: Result<LiquidityRemoved, AmmError>)
    ensures
        match remove_liquidity_spec(*old(pool), lp_amount, min_sol_amount, min_token_amount) {
            Ok(removed) => {
                &&& *final(pool) == old(pool).with_reserves(removed.reserves)
                &&& r matches Ok(event)
                &&& event.pool == pool_key
                &&& event.user == user
                &&& event.sol_amount == removed.base_out
                &&& event.token_amount == removed.quote_out
                &&& event.lp_burned == lp_amount
            },
            Err(e) => r == Err::<LiquidityRemoved, AmmError>(e) && *final(pool) == *old(pool),
        },
        r is Ok ==> final(pool).wf(),
        old(pool).wf() ==> final(pool).wf(),
{
    if lp_amount == 0 {
        return Err(AmmError::InvalidAmount);
    }
    if !pool.is_initialized {
        return Err(AmmError::NotInitialized);
    }
    proof {
        withdraw_pays_at_most_pro_rata(
            pool.reserves_spec(),
            lp_amount,
            min_sol_amount,
            min_token_amount,
        );
    }
    let removed = withdraw(pool.reserves(), lp_amount, min_sol_amount, min_token_amount)?;
    pool.sol_reserve = removed.reserves.base;
    pool.token_reserve = removed.reserves.quote;
    pool.lp_supply = removed.reserves.shares;
    Ok(
        LiquidityRemoved {
            pool: pool_key,
            user,
            sol_amount: removed.base_out,
            token_amount: removed.quote_out,
            lp_burned: lp_amount,
        },
    )
}

/// Swaps `sol_amount` of the base asset for tokens, of which at least
/// `min_token_amount` must come out.
///
/// On any failure the pool is left exactly as it was. The event names the
/// amount to take in, the amount to pay out and the fee retained.
pub fn swap_sol_for_tokens(
    pool: &mut AmmPool,
    pool_key: Address,
    user: Address,
    sol_amount: u64,
    min_token_amount: u64,
) -> (r: Result<SwapExecuted, AmmError>)
    ensures
        match old(pool).swap_spec(sol_amount, SwapDirection::BaseForQuote, min_token_amount) {
            Ok(outcome) => {
                &&& *final(pool) == old(pool).after_swap(SwapDirection::BaseForQuote, outcome)
                &&& r matches Ok(event)
                &&& event.pool == pool_key
                &&& event.user == user
                &&& event.input_token@ == input_label(SwapDirection::BaseForQuote)
                &&& event.input_amount == sol_amount
                &&& event.output_amount == outcome.quote.output_amount
                &&& event.fee == outcome.quote.fee_amount
            },
            Err(e) => r matches Err(raised) && raised == e && *final(pool) == *old(pool),
        },
        r is Ok ==> final(pool).sol_reserve * final(pool).token_reserve >= old(pool).sol_reserve
            * old(pool).token_reserve,
        old(pool).wf() ==> final(pool).wf(),
{
    let outcome = pool.swap(sol_amount, SwapDirection::BaseForQuote, min_token_amount)?;
    Ok(swap_event(pool_key, user, SwapDirection::BaseForQuote, sol_amount, &outcome))
}

/// Swaps `token_amount` tokens for the base asset, of which at least
/// `min_sol_amount` must come out.
///
/// On any failure the pool is left exactly as it was. The event names the
/// amount to take in, the amount to pay out and the fee retained.
pub fn swap_tokens_for_sol(
    pool: &mut AmmPool,
    pool_key: Address,
    user: Address,
    token_amount: u64,
    min_sol_amount: u64,
) -> (r: Result<SwapExecuted, AmmError>)
    ensures
        match old(pool).swap_spec(token_amount, SwapDirection::QuoteForBase, min_sol_amount) {
            Ok(outcome) => {
                &&& *final(pool) == old(pool).after_swap(SwapDirection::QuoteForBase, outcome)
                &&& r matches Ok(event)
                &&& event.pool == pool_key
                &&& event.user == user
                &&& event.input_token@ == input_label(SwapDirection::QuoteForBase)
                &&& event.input_amount == token_amount
                &&& event.output_amount == outcome.quote.output_amount
                &&& event.fee == outcome.quote.fee_amount
            },
            Err(e) => r matches Err(raised) && raised == e && *final(pool) == *old(pool),
        },
        r is Ok ==> final(pool).sol_reserve * final(pool).token_reserve >= old(pool).sol_reserve
            * old(pool).token_reserve,
        old(pool).wf() ==> final(pool).wf(),
{
    let outcome = pool.swap(token_amount, SwapDirection::QuoteForBase, min_sol_amount)?;
    Ok(swap_event(pool_key, user, SwapDirection::QuoteForBase, token_amount, &outcome))
}

} // verus!
