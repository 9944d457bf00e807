//! A two-asset automated market maker with a token launchpad on top.
//!
//! A pool holds reserves of a base asset and of a token and trades one for
//! the other under the constant-product rule, with a fee taken from the
//! input of every swap. All amounts are integers; every quotient is rounded
//! down, which is always the side that favours the pool.
//!
//! - [`math`]: checked sums, a widening multiply-then-divide and an exact
//!   integer square root.
//! - [`engine`]: swap pricing and the minting and burning of liquidity
//!   shares, as pure functions on reserves, with the laws they obey.
//! - [`amm`]: the standard pool, whose liquidity is held through shares.
//! - [`launchpad`]: token launches and the bonding-curve pool, which trades
//!   by swaps alone.
//! - [`address`]: account addresses and their derivation.
//! - [`errors`]: why an operation was rejected.
//!
//! The library moves no value itself. An operation on a pool either fails
//! and leaves the pool untouched, or commits the new reserves and names, in
//! the event it returns, the amounts that the ledger is to move.

pub mod address;
pub mod amm;
pub mod engine;
pub mod errors;
pub mod launchpad;
pub mod math;
