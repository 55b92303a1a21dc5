//! The 32-bit reals that the scene is made of.
//!
//! Vertex components, colours and sampler bounds travel through this crate
//! as the IEEE 754 single-precision bit patterns that end up in GPU memory.
//! Nothing here computes with them.

use vstd::prelude::*;

verus! {

/// Zero.
pub const ZERO: u32 = 0x0000_0000;

/// One.
pub const ONE: u32 = 0x3F80_0000;

/// Minus one.
pub const MINUS_ONE: u32 = 0xBF80_0000;

/// One hundred.
pub const HUNDRED: u32 = 0x42C8_0000;

/// Minus one hundred.
pub const MINUS_HUNDRED: u32 = 0xC2C8_0000;

} // verus!
