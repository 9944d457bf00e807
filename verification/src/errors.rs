//! Failure kinds surfaced by pool operations.

use vstd::prelude::*;

verus! {

/// Why a pool operation was rejected. Every failure leaves the pool untouched.
#[derive(Clone, Copy, Debug, PartialEq, Eq, Structural)]
pub enum AmmError {
    /// An amount that must be positive was zero.
    InvalidAmount,
    /// The pool has not been seeded yet.
    NotInitialized,
    /// The pool was already seeded.
    AlreadyInitialized,
    /// A computed amount violates the bound supplied by the caller.
    SlippageExceeded,
    /// The swap would claim the whole opposing reserve or more, or the
    /// redemption would leave a reserve or the share supply at zero.
    InsufficientLiquidity,
    /// A checked operation left the representable range upwards, or divided by zero.
    ArithmeticOverflow,
    /// A checked subtraction went below zero.
    ArithmeticUnderflow,
    /// The supplied vault is not the one derived for the pool.
    InvalidVault,
}

/// Why the launch of a token was rejected.
#[derive(Clone, Copy, Debug, PartialEq, Eq, Structural)]
pub enum ErrorCode {
    /// The token was minted before.
    MemeAlreadyMinted,
}

} // verus!
