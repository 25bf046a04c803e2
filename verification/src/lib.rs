//! Arion: an algebraic permutation over the BLS12-381 scalar field, with a
//! parameter builder, a plain-field permutation strategy, and a Merkle
//! annotation/opening engine built on the permutation.

use vstd::prelude::*;

pub mod constants;
pub mod field;
pub mod params;
pub mod strategies;
pub mod tree;

verus! {

/// Maximum supported input width of the permutation.
pub const MAX_WIDTH: usize = 8;

/// Maximum supported number of rounds.
pub const MAX_ROUNDS: usize = 6;

/// Active input width of the permutation.
pub const WIDTH: usize = 5;

/// Active number of rounds of the permutation.
pub const ROUNDS: usize = 5;

} // verus!
