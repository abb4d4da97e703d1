//! A circuit-friendly algebraic hash over the bn256 scalar field.
//!
//! The engine is a fixed-width permutation (state of three field elements,
//! alternating full and partial fifth-power rounds with a linear diffusion
//! layer) wrapped in a domain-separated sponge.  It offers a two-to-one
//! compression mode for Merkle trees and a variable-length message mode,
//! together with the circuit-row cost accounting that downstream proof
//! circuits rely on.

pub mod field;
pub mod hash;
pub mod params;
pub mod perm;
pub mod sponge;
