//! Integers modulo a modulus fixed at compile time, with ring arithmetic
//! that is exact for every modulus a `u128` can hold.

pub mod laws;
pub mod modular;
pub mod ring;

pub use ring::Zn;
