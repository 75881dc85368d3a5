//! Rescue-Prime and Griffin permutations over prime fields, the sponge hashes
//! built on them, and the algebraic round constraints that let a proof system
//! check one round as a polynomial identity.
//!
//! - `field`: the prime fields (62, 64 and 128 bits) behind the `PrimeField` trait.
//! - `layers`: matrix-vector products, power maps and constant addition, with their
//!   models over the integers.
//! - `matrix`: when a matrix product is the identity, the two matrices undo each other.
//! - `rescue`, `griffin`: each permutation, generic over its parameter set, with the
//!   sponge, the constraint functions and the laws that relate them; one submodule per
//!   parameter set holds the constants.
//! - `utils`: index ranges, power-of-two rounding and little-endian length encoding
//!   for execution traces.

pub mod field;
pub mod layers;
pub mod matrix;
pub mod rescue;
pub mod griffin;
pub mod utils;
