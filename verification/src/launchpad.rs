//! The token launchpad: a fixed supply minted once per token, and a
//! bonding-curve pool per token that trades by swaps alone.
//!
//! The pool has no liquidity shares. After it is seeded its reserves move
//! only through swaps, so the price follows the curve from the net flow.

use crate::address::{derive_address, derived_address, Address, DerivedAddress};
pub use crate::amm::SwapExecuted;
use crate::amm::{input_label, swap_event};
use crate::engine::{
    quote_swap, quote_swap_spec, swap, swap_spec, swap_succeeds_on_live_reserves, SwapDirection,
    SwapOutcome, FEE_DENOMINATOR, FEE_NUMERATOR,
};
use crate::errors::{AmmError, ErrorCode};
use vstd::prelude::*;

verus! {

/// The fee for minting a token, in the smallest unit of the base asset.
pub const MINT_FEE_LAMPORTS: u64 = 10_000_000;

/// The supply minted for every token, in its smallest unit.
pub const TOTAL_SUPPLY: u64 = 1_000_000_000_000_000_000;

/// The minter receives one part in this many of the supply.
pub const MINTER_SHARE_DIVISOR: u64 = 1000;

/// Seed of a pool's base-asset vault: the bytes of `pool_sol_vault`.
pub const POOL_SOL_VAULT_SEED: [u8; 14] = [
    112, 111, 111, 108, 95, 115, 111, 108, 95, 118, 97, 117, 108, 116,
];

/// Seed of a pool's token vault: the bytes of `pool_token_vault`.
pub const POOL_TOKEN_VAULT_SEED: [u8; 16] = [
    112, 111, 111, 108, 95, 116, 111, 107, 101, 110, 95, 118, 97, 117, 108, 116,
];

/// The settings of the launchpad.
#[derive(Clone, Copy, Debug, PartialEq, Eq)]
pub struct ProtocolState {
    pub authority: Address,
    pub fee_lamports: u64,
    pub bump: u8,
}

/// The record of one launched token.
#[derive(Clone, Copy, Debug, PartialEq, Eq)]
pub struct MemeTokenState {
    pub meme_id: [u8; 32],
    pub mint: Address,
    pub minter: Address,
    pub created_at: i64,
    pub is_initialized: bool,
    pub bump: u8,
}

/// The record of one bonding-curve pool.
#[derive(Clone, Copy, Debug, PartialEq, Eq)]
pub struct AmmPool {
    /// The token traded against the base asset; it names the pool.
    pub token_mint: Address,
    /// Where the pool keeps its base asset.
    pub sol_vault: Address,
    /// Where the pool keeps its tokens.
    pub token_vault: Address,
    /// Base asset held, in its smallest unit.
    pub sol_reserve: u64,
    /// Tokens held, in their smallest unit.
    pub token_reserve: u64,
    /// The fee rate charged on the input of every swap.
    pub fee_numerator: u64,
    pub fee_denominator: u64,
    /// Bump seed of the pool's own address.
    pub bump: u8,
    /// Set once, by the first and only initialization.
    pub is_initialized: bool,
}

/// Emitted when the launchpad's settings were written.
#[derive(Clone, Copy, Debug, PartialEq, Eq)]
pub struct ProtocolInitialized {
    pub authority: Address,
    pub fee_vault: Address,
    pub fee_lamports: u64,
}

/// Emitted when a token was minted.
#[derive(Clone, Copy, Debug, PartialEq, Eq)]
pub struct Minted {
    pub meme_id: [u8; 32],
    pub minter: Address,
    pub mint_addr: Address,
}

/// Emitted when a pool is initialized.
#[derive(Clone, Copy, Debug, PartialEq, Eq)]
pub struct PoolInitialized {
    pub pool: Address,
    pub token_mint: Address,
    pub initial_sol: u64,
    pub initial_tokens: u64,
}

/// How a minted supply is divided.
#[derive(Clone, Copy, Debug, PartialEq, Eq, Structural)]
pub struct SupplySplit {
    /// The part minted to the minter.
    pub minter_share: u64,
    /// The remainder, minted to the vault that later seeds the pool.
    pub vault_share: u64,
}

/// What the ledger is to carry out for a mint that was accepted.
#[derive(Clone, Copy, Debug, PartialEq, Eq)]
pub struct MintOrder {
    /// The fee owed by the minter.
    pub fee_lamports: u64,
    /// The amounts to mint.
    pub supply: SupplySplit,
    pub event: Minted,
}

/// Divides the supply of a token: one part in [`MINTER_SHARE_DIVISOR`] to the
/// minter, all the rest to the vault.
pub fn distribute_supply() -> (split: SupplySplit)
    ensures
        split.minter_share == TOTAL_SUPPLY / MINTER_SHARE_DIVISOR,
        split.vault_share == TOTAL_SUPPLY - split.minter_share,
        split.minter_share + split.vault_share == TOTAL_SUPPLY,
{
    let minter_share = TOTAL_SUPPLY / MINTER_SHARE_DIVISOR;
    let vault_share = TOTAL_SUPPLY - minter_share;
    SupplySplit { minter_share, vault_share }
}

/// Writes the launchpad's settings: the authority, the fixed mint fee and the
/// bump seed. Calling it again overwrites them.
pub fn initialize_protocol_state(
    state: &mut ProtocolState,
    authority: Address,
    fee_vault: Address,
    bump: u8,
) -> (event: ProtocolInitialized)
    ensures
        final(state).authority == authority,
        final(state).fee_lamports == MINT_FEE_LAMPORTS,
        final(state).bump == bump,
        event.authority == authority,
        event.fee_vault == fee_vault,
        event.fee_lamports == MINT_FEE_LAMPORTS,
{
    state.authority = authority;
    state.fee_lamports = MINT_FEE_LAMPORTS;
    state.bump = bump;
    ProtocolInitialized { authority, fee_vault, fee_lamports: MINT_FEE_LAMPORTS }
}

/// Records the launch of a token and says what to charge and what to mint.
///
/// A token can be minted once: a record that is already initialized rejects
/// the mint and stays as it was. Otherwise the record takes the identity,
/// the mint, the minter, the time and the bump seed, and the order names the
/// protocol's fee and the division of the supply.
pub fn mint_meme_token(
    meme_token_state: &mut MemeTokenState,
    protocol_state: &ProtocolState,
    meme_id: [u8; 32],
    mint: Address,
    minter: Address,
    created_at: i64,
    bump: u8,
) -> (r: Result<MintOrder, ErrorCode>)
    ensures
        old(meme_token_state).is_initialized ==> {
            &&& r matches Err(e)
            &&& e == ErrorCode::MemeAlreadyMinted
            &&& *final(meme_token_state) == *old(meme_token_state)
        },
        !old(meme_token_state).is_initialized ==> {
            &&& r matches Ok(order)
            &&& order.fee_lamports == protocol_state.fee_lamports
            &&& order.supply.minter_share == TOTAL_SUPPLY / MINTER_SHARE_DIVISOR
            &&& order.supply.vault_share == TOTAL_SUPPLY - order.supply.minter_share
            &&& order.event.meme_id == meme_id
            &&& order.event.minter == minter
            &&& order.event.mint_addr == mint
            &&& final(meme_token_state).meme_id == meme_id
            &&& final(meme_token_state).mint == mint
            &&& final(meme_token_state).minter == minter
            &&& final(meme_token_state).created_at == created_at
            &&& final(meme_token_state).is_initialized
            &&& final(meme_token_state).bump == bump
        },
{
    if meme_token_state.is_initialized {
        return Err(ErrorCode::MemeAlreadyMinted);
    }
    let supply = distribute_supply();
    meme_token_state.meme_id = meme_id;
    meme_token_state.mint = mint;
    meme_token_state.minter = minter;
    meme_token_state.created_at = created_at;
    meme_token_state.is_initialized = true;
    meme_token_state.bump = bump;
    Ok(
        MintOrder {
            fee_lamports: protocol_state.fee_lamports,
            supply,
            event: Minted { meme_id, minter, mint_addr: mint },
        },
    )
}

impl AmmPool {
    /// The invariant of a pool: once initialized it holds both assets.
    pub open spec fn wf(&self) -> bool {
        self.is_initialized ==> self.sol_reserve > 0 && self.token_reserve > 0
    }

    /// The reserve that a swap in `direction` pays into.
    pub open spec fn input_reserve(&self, direction: SwapDirection) -> u64 {
        match direction {
            SwapDirection::BaseForQuote => self.sol_reserve,
            SwapDirection::QuoteForBase => self.token_reserve,
        }
    }

    /// The reserve that a swap in `direction` is paid from.
    pub open spec fn output_reserve(&self, direction: SwapDirection) -> u64 {
        match direction {
            SwapDirection::BaseForQuote => self.token_reserve,
            SwapDirection::QuoteForBase => self.sol_reserve,
        }
    }

    /// This pool after a swap in `direction` left `outcome`.
    pub open spec fn after_swap(self, direction: SwapDirection, outcome: SwapOutcome) -> AmmPool {
        match direction {
            SwapDirection::BaseForQuote => AmmPool {
                sol_reserve: outcome.input_reserve,
                token_reserve: outcome.output_reserve,
                ..self
            },
            SwapDirection::QuoteForBase => AmmPool {
                sol_reserve: outcome.output_reserve,
                token_reserve: outcome.input_reserve,
                ..self
            },
        }
    }

    /// The result of [`AmmPool::quote`].
    pub open spec fn quote_spec(&self, input_amount: u64, direction: SwapDirection) -> Result<
        u64,
        AmmError,
    > {
        if input_amount == 0 {
            Err(AmmError::InvalidAmount)
        } else if !self.is_initialized {
            Err(AmmError::NotInitialized)
        } else {
            match quote_swap_spec(
                input_amount,
                self.input_reserve(direction),
                self.output_reserve(direction),
                self.fee_numerator,
                self.fee_denominator,
                0,
            ) {
                Ok(quote) => Ok(quote.output_amount),
                Err(e) => Err(e),
            }
        }
    }

    /// The result of [`AmmPool::swap`]: a zero input is rejected first, an
    /// uninitialized pool next, and then the engine decides.
    pub open spec fn swap_spec(
        &self,
        input_amount: u64,
        direction: SwapDirection,
        min_output: u64,
    ) -> Result<SwapOutcome, AmmError> {
        if input_amount == 0 {
            Err(AmmError::InvalidAmount)
        } else if !self.is_initialized {
            Err(AmmError::NotInitialized)
        } else {
            swap_spec(
                input_amount,
                self.input_reserve(direction),
                self.output_reserve(direction),
                self.fee_numerator,
                self.fee_denominator,
                min_output,
            )
        }
    }

    /// A pool that has not been initialized: no reserves.
    pub fn new() -> (pool: AmmPool)
        ensures
            !pool.is_initialized,
            pool.sol_reserve == 0,
            pool.token_reserve == 0,
            pool.fee_numerator == FEE_NUMERATOR,
            pool.fee_denominator == FEE_DENOMINATOR,
            pool.wf(),
    {
        let nobody = Address { bytes: [0u8; 32] };
        AmmPool {
            token_mint: nobody,
            sol_vault: nobody,
            token_vault: nobody,
            sol_reserve: 0,
            token_reserve: 0,
            fee_numerator: FEE_NUMERATOR,
            fee_denominator: FEE_DENOMINATOR,
            bump: 0,
            is_initialized: false,
        }
    }

    /// What a swap of `input_amount` in `direction` would pay out now. Reads
    /// the pool and changes nothing.
    pub fn quote(&self, input_amount: u64, direction: SwapDirection) -> (r: Result<u64, AmmError>)
        ensures
            r == self.quote_spec(input_amount, direction),
    {
        if input_amount == 0 {
            return Err(AmmError::InvalidAmount);
        }
        if !self.is_initialized {
            return Err(AmmError::NotInitialized);
        }
        let (input_reserve, output_reserve) = match direction {
            SwapDirection::BaseForQuote => (self.sol_reserve, self.token_reserve),
            SwapDirection::QuoteForBase => (self.token_reserve, self.sol_reserve),
        };
        let quote = quote_swap(
            input_amount,
            input_reserve,
            output_reserve,
            self.fee_numerator,
            self.fee_denominator,
            0,
        )?;
        Ok(quote.output_amount)
    }
}

/// Quoting and swapping agree: a swap that succeeds with no minimum pays
/// exactly what a quote for the same input on the same pool announces.
pub proof fn swap_pays_what_quote_announced(
    pool: AmmPool,
    input_amount: u64,
    direction: SwapDirection,
)
    requires
        pool.swap_spec(input_amount, direction, 0) is Ok,
    ensures
        pool.quote_spec(input_amount, direction) == Ok::<u64, AmmError>(
            pool.swap_spec(input_amount, direction, 0)->Ok_0.quote.output_amount,
        ),
{
}

/// The vault of the base asset that `program_id` owns for the pool of
/// `token_mint`, with its bump seed.
pub open spec fn sol_vault_spec(token_mint: Address, program_id: Address) -> Option<
    DerivedAddress,
> {
    derived_address(POOL_SOL_VAULT_SEED@, token_mint, program_id)
}

/// The token vault that `program_id` owns for the pool of `token_mint`, with
/// its bump seed.
pub open spec fn token_vault_spec(token_mint: Address, program_id: Address) -> Option<
    DerivedAddress,
> {
    derived_address(POOL_TOKEN_VAULT_SEED@, token_mint, program_id)
}

/// Derives the vault of the base asset for the pool of `token_mint`.
pub fn find_sol_vault(token_mint: &Address, program_id: &Address) -> (r: Option<DerivedAddress>)
    ensures
        r == sol_vault_spec(*token_mint, *program_id),
{
    derive_address(POOL_SOL_VAULT_SEED.as_slice(), token_mint, program_id)
}

/// Derives the token vault for the pool of `token_mint`.
pub fn find_token_vault(token_mint: &Address, program_id: &Address) -> (r: Option<DerivedAddress>)
    ensures
        r == token_vault_spec(*token_mint, *program_id),
{
    derive_address(POOL_TOKEN_VAULT_SEED.as_slice(), token_mint, program_id)
}

/// The result of [`initialize_amm_pool_with_vaults`] as the next state of the
/// pool: a zero seed is rejected first, a pool that is already initialized
/// next, and a vault that could not be derived last.
pub open spec fn initialize_amm_pool_spec(
    pool: AmmPool,
    token_mint: Address,
    sol_vault: Option<DerivedAddress>,
    token_vault: Option<DerivedAddress>,
    bump: u8,
    initial_sol_amount: u64,
    initial_token_amount: u64,
) -> Result<AmmPool, AmmError> {
    if initial_sol_amount == 0 || initial_token_amount == 0 {
        Err(AmmError::InvalidAmount)
    } else if pool.is_initialized {
        Err(AmmError::AlreadyInitialized)
    } else if sol_vault is None || token_vault is None {
        Err(AmmError::InvalidVault)
    } else {
        Ok(
            AmmPool {
                token_mint,
                sol_vault: sol_vault->Some_0.address,
                token_vault: token_vault->Some_0.address,
                sol_reserve: initial_sol_amount,
                token_reserve: initial_token_amount,
                fee_numerator: FEE_NUMERATOR,
                fee_denominator: FEE_DENOMINATOR,
                bump,
                is_initialized: true,
            },
        )
    }
}

/// The result of [`swap_tokens_to_sol_with_vault`]: the swap is priced and
/// its bounds are tested first, then the vault named by the caller is held
/// against the derived one, and last the reserves are moved.
pub open spec fn swap_tokens_to_sol_spec(
    pool: AmmPool,
    sol_vault: Address,
    derived: Option<DerivedAddress>,
    token_amount: u64,
    min_sol_amount: u64,
) -> Result<SwapOutcome, AmmError> {
    if token_amount == 0 {
        Err(AmmError::InvalidAmount)
    } else if !pool.is_initialized {
        Err(AmmError::NotInitialized)
    } else {
        match quote_swap_spec(
            token_amount,
            pool.token_reserve,
            pool.sol_reserve,
            pool.fee_numerator,
            pool.fee_denominator,
            min_sol_amount,
        ) {
            Err(e) => Err(e),
            Ok(_) => if derived is None || derived->Some_0.address@ != sol_vault@ {
                Err(AmmError::InvalidVault)
            } else {
                swap_spec(
                    token_amount,
                    pool.token_reserve,
                    pool.sol_reserve,
                    pool.fee_numerator,
                    pool.fee_denominator,
                    min_sol_amount,
                )
            },
        }
    }
}

/// The vault check only adds a rejection: with the vault that was derived
/// for the pool, swapping tokens for the base asset is the pool's plain swap
/// in that direction.
pub proof fn swap_tokens_to_sol_with_own_vault(
    pool: AmmPool,
    sol_vault: Address,
    derived: Option<DerivedAddress>,
    token_amount: u64,
    min_sol_amount: u64,
)
    requires
        derived is Some,
        derived->Some_0.address@ == sol_vault@,
    ensures
        swap_tokens_to_sol_spec(pool, sol_vault, derived, token_amount, min_sol_amount)
            == pool.swap_spec(token_amount, SwapDirection::QuoteForBase, min_sol_amount),
{
}

/// A swap of tokens for the base asset that succeeds with no minimum pays
/// exactly what a quote for the same input on the same pool announces, takes
/// the whole input into the token reserve and the payout out of the other.
/// On an initialized pool with both reserves positive, a fee rate of at most
/// the whole input, room for the input, and the vault derived for the pool,
/// it does succeed.
pub proof fn swap_tokens_to_sol_pays_what_quote_announced(
    pool: AmmPool,
    sol_vault: Address,
    derived: Option<DerivedAddress>,
    token_amount: u64,
)
    ensures
        swap_tokens_to_sol_spec(pool, sol_vault, derived, token_amount, 0) matches Ok(outcome)
            ==> {
            &&& pool.quote_spec(token_amount, SwapDirection::QuoteForBase) == Ok::<u64, AmmError>(
                outcome.quote.output_amount,
            )
            &&& outcome.input_reserve == pool.token_reserve + token_amount
            &&& outcome.output_reserve == pool.sol_reserve - outcome.quote.output_amount
        },
        ({
            &&& pool.is_initialized
            &&& pool.sol_reserve > 0
            &&& pool.token_reserve > 0
            &&& 0 < pool.fee_denominator
            &&& pool.fee_numerator <= pool.fee_denominator
            &&& token_amount > 0
            &&& pool.token_reserve + token_amount <= u64::MAX
            &&& derived is Some
            &&& derived->Some_0.address@ == sol_vault@
        }) ==> swap_tokens_to_sol_spec(pool, sol_vault, derived, token_amount, 0) is Ok,
{
    if pool.is_initialized && pool.sol_reserve > 0 && pool.token_reserve > 0 && 0
        < pool.fee_denominator && pool.fee_numerator <= pool.fee_denominator && token_amount > 0
        && pool.token_reserve + token_amount <= u64::MAX {
        swap_succeeds_on_live_reserves(
            token_amount,
            pool.token_reserve,
            pool.sol_reserve,
            pool.fee_numerator,
            pool.fee_denominator,
        );
    }
}

/// Initializes `pool` with its first reserves and binds it to the two vaults
/// derived for it.
///
/// Both seeds must be positive, the pool must not have been initialized
/// before, and both vaults must have been found. On any failure the pool is
/// left exactly as it was. The event names the amounts to move into the
/// vaults.
pub fn initialize_amm_pool_with_vaults(
    pool: &mut AmmPool,
    pool_key: Address,
    token_mint: Address,
    sol_vault: Option<DerivedAddress>,
    token_vault: Option<DerivedAddress>,
    bump: u8,
    initial_sol_amount: u64,
    initial_token_amount: u64,
) -> (r: Result<PoolInitialized, AmmError>)
    ensures
        match initialize_amm_pool_spec(
            *old(pool),
            token_mint,
            sol_vault,
            token_vault,
            bump,
            initial_sol_amount,
            initial_token_amount,
        ) {
            Ok(next) => {
                &&& *final(pool) == next
                &&& final(pool).wf()
                &&& r matches Ok(event)
                &&& event.pool == pool_key
                &&& event.token_mint == token_mint
                &&& event.initial_sol == initial_sol_amount
                &&& event.initial_tokens == initial_token_amount
            },
            Err(e) => r == Err::<PoolInitialized, AmmError>(e) && *final(pool) == *old(pool),
        },
{
    if initial_sol_amount == 0 || initial_token_amount == 0 {
        return Err(AmmError::InvalidAmount);
    }
    if pool.is_initialized {
        return Err(AmmError::AlreadyInitialized);
    }
    let sol_vault_address = match sol_vault {
        Some(found) => found.address,
        None => {
            return Err(AmmError::InvalidVault);
        },
    };
    let token_vault_address = match token_vault {
        Some(found) => found.address,
        None => {
            return Err(AmmError::InvalidVault);
        },
    };
    pool.token_mint = token_mint;
    pool.sol_vault = sol_vault_address;
    pool.token_vault = token_vault_address;
    pool.sol_reserve = initial_sol_amount;
    pool.token_reserve = initial_token_amount;
    pool.fee_numerator = FEE_NUMERATOR;
    pool.fee_denominator = FEE_DENOMINATOR;
    pool.bump = bump;
    pool.is_initialized = true;
    Ok(
        PoolInitialized {
            pool: pool_key,
            token_mint,
            initial_sol: initial_sol_amount,
            initial_tokens: initial_token_amount,
        },
    )
}

/// Initializes `pool` as [`initialize_amm_pool_with_vaults`] does, with the
/// two vaults derived here for `token_mint` under `program_id`.
pub fn initialize_amm_pool(
    pool: &mut AmmPool,
    pool_key: Address,
    token_mint: Address,
    program_id: Address,
    bump: u8,
    initial_sol_amount: u64,
    initial_token_amount: u64,
) -> (r: Result<PoolInitialized, AmmError>)
    ensures
        match initialize_amm_pool_spec(
            *old(pool),
            token_mint,
            sol_vault_spec(token_mint, program_id),
            token_vault_spec(token_mint, program_id),
            bump,
            initial_sol_amount,
            initial_token_amount,
        ) {
            Ok(next) => {
                &&& *final(pool) == next
                &&& final(pool).wf()
                &&& r matches Ok(event)
                &&& event.pool == pool_key
                &&& event.token_mint == token_mint
                &&& event.initial_sol == initial_sol_amount
                &&& event.initial_tokens == initial_token_amount
            },
            Err(e) => r == Err::<PoolInitialized, AmmError>(e) && *final(pool) == *old(pool),
        },
{
    let sol_vault = find_sol_vault(&token_mint, &program_id);
    let token_vault = find_token_vault(&token_mint, &program_id);
    initialize_amm_pool_with_vaults(
        pool,
        pool_key,
        token_mint,
        sol_vault,
        token_vault,
        bump,
        initial_sol_amount,
        initial_token_amount,
    )
}

/// Swaps `sol_amount` of the base asset for tokens, of which at least
/// `min_token_amount` must come out.
///
/// On any failure the pool is left exactly as it was. On success both
/// reserves stay positive and their product does not fall. The event names
/// the amount to take in, the amount to pay out and the fee retained.
pub fn swap_sol_to_tokens(
    pool: &mut AmmPool,
    pool_key: Address,
    user: Address,
    sol_amount: u64,
    min_token_amount: u64,
) -> (r: Result<SwapExecuted, AmmError>)
    ensures
        match old(pool).swap_spec(sol_amount, SwapDirection::BaseForQuote, min_token_amount) {
            Ok(outcome) => {
                &&& *final(pool) == old(pool).after_swap(SwapDirection::BaseForQuote, outcome)
                &&& r matches Ok(event)
                &&& event.pool == pool_key
                &&& event.user == user
                &&& event.input_token@ == input_label(SwapDirection::BaseForQuote)
                &&& event.input_amount == sol_amount
                &&& event.output_amount == outcome.quote.output_amount
                &&& event.fee == outcome.quote.fee_amount
            },
            Err(e) => r matches Err(raised) && raised == e && *final(pool) == *old(pool),
        },
        r is Ok ==> final(pool).sol_reserve * final(pool).token_reserve >= old(pool).sol_reserve
            * old(pool).token_reserve,
        old(pool).wf() ==> final(pool).wf(),
{
    if sol_amount == 0 {
        return Err(AmmError::InvalidAmount);
    }
    if !pool.is_initialized {
        return Err(AmmError::NotInitialized);
    }
    let outcome = swap(
        sol_amount,
        pool.sol_reserve,
        pool.token_reserve,
        pool.fee_numerator,
        pool.fee_denominator,
        min_token_amount,
    )?;
    pool.sol_reserve = outcome.input_reserve;
    pool.token_reserve = outcome.output_reserve;
    Ok(swap_event(pool_key, user, SwapDirection::BaseForQuote, sol_amount, &outcome))
}

/// Swaps `token_amount` tokens for the base asset, of which at least
/// `min_sol_amount` must come out, and checks that `sol_vault`, from which
/// the payout is to be made, is the vault `derived` for the pool.
///
/// On any failure the pool is left exactly as it was. On success both
/// reserves stay positive and their product does not fall. The event names
/// the amount to take in, the amount to pay out and the fee retained.
pub fn swap_tokens_to_sol_with_vault(
    pool: &mut AmmPool,
    pool_key: Address,
    user: Address,
    sol_vault: &Address,
    derived: Option<DerivedAddress>,
    token_amount: u64,
    min_sol_amount: u64,
) -> (r: Result<SwapExecuted, AmmError>)
    ensures
        match swap_tokens_to_sol_spec(*old(pool), *sol_vault, derived, token_amount, min_sol_amount) {
            Ok(outcome) => {
                &&& *final(pool) == old(pool).after_swap(SwapDirection::QuoteForBase, outcome)
                &&& r matches Ok(event)
                &&& event.pool == pool_key
                &&& event.user == user
                &&& event.input_token@ == input_label(SwapDirection::QuoteForBase)
                &&& event.input_amount == token_amount
                &&& event.output_amount == outcome.quote.output_amount
                &&& event.fee == outcome.quote.fee_amount
            },
            Err(e) => r matches Err(raised) && raised == e && *final(pool) == *old(pool),
        },
        r is Ok ==> final(pool).sol_reserve * final(pool).token_reserve >= old(pool).sol_reserve
            * old(pool).token_reserve,
        old(pool).wf() ==> final(pool).wf(),
{
    if token_amount == 0 {
        return Err(AmmError::InvalidAmount);
    }
    if !pool.is_initialized {
        return Err(AmmError::NotInitialized);
    }
    quote_swap(
        token_amount,
        pool.token_reserve,
        pool.sol_reserve,
        pool.fee_numerator,
        pool.fee_denominator,
        min_sol_amount,
    )?;
    match derived {
        Some(found) => {
            if found.address != *sol_vault {
                return Err(AmmError::InvalidVault);
            }
        },
        None => {
            return Err(AmmError::InvalidVault);
        },
    }
    let outcome = swap(
        token_amount,
        pool.token_reserve,
        pool.sol_reserve,
        pool.fee_numerator,
        pool.fee_denominator,
        min_sol_amount,
    )?;
    proof {
        assert(outcome.output_reserve * outcome.input_reserve == outcome.input_reserve
            * outcome.output_reserve) by (nonlinear_arith);
        assert(pool.sol_reserve * pool.token_reserve == pool.token_reserve * pool.sol_reserve)
            by (nonlinear_arith);
    }
    pool.token_reserve = outcome.input_reserve;
    pool.sol_reserve = outcome.output_reserve;
    Ok(swap_event(pool_key, user, SwapDirection::QuoteForBase, token_amount, &outcome))
}

/// Swaps as [`swap_tokens_to_sol_with_vault`] does, with the vault derived
/// here for the pool's token under `program_id`.
pub fn swap_tokens_to_sol(
    pool: &mut AmmPool,
    pool_key: Address,
    user: Address,
    sol_vault: &Address,
    program_id: &Address,
    token_amount: u64,
    min_sol_amount: u64,
) -> (r: Result<SwapExecuted, AmmError>)
    ensures
        match swap_tokens_to_sol_spec(
            *old(pool),
            *sol_vault,
            sol_vault_spec(old(pool).token_mint, *program_id),
            token_amount,
            min_sol_amount,
        ) {
            Ok(outcome) => {
                &&& *final(pool) == old(pool).after_swap(SwapDirection::QuoteForBase, outcome)
                &&& r matches Ok(event)
                &&& event.pool == pool_key
                &&& event.user == user
                &&& event.input_token@ == input_label(SwapDirection::QuoteForBase)
                &&& event.input_amount == token_amount
                &&& event.output_amount == outcome.quote.output_amount
                &&& event.fee == outcome.quote.fee_amount
            },
            Err(e) => r matches Err(raised) && raised == e && *final(pool) == *old(pool),
        },
        r is Ok ==> final(pool).sol_reserve * final(pool).token_reserve >= old(pool).sol_reserve
            * old(pool).token_reserve,
        old(pool).wf() ==> final(pool).wf(),
{
    let token_mint = pool.token_mint;
    let derived = find_sol_vault(&token_mint, program_id);
    swap_tokens_to_sol_with_vault(
        pool,
        pool_key,
        user,
        sol_vault,
        derived,
        token_amount,
        min_sol_amount,
    )
}

} // verus!
