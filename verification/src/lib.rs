//! A seeded pseudo-random number generator built on the Xorshift128 algorithm,
//! reproducing the raw stream of a well-known game engine bit for bit.
//!
//! The integer core lives here: seed expansion into a four-word state, the
//! raw 32-bit stream step, and the integer range distribution. Every function
//! carries a contract that pins its result and the state it leaves behind.

pub mod crypto;
pub mod random;

pub use crate::crypto::Crypto;
pub use crate::random::{Random, State};
