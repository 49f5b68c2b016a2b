//! Ratios of two 32-bit integers, as stored in rational directory entries.

use vstd::prelude::*;

verus! {

/// A ratio of two unsigned 32-bit integers.
#[derive(Copy, Clone, Debug, PartialEq, Eq, Structural)]
pub struct URational {
    pub numerator: u32,
    pub denominator: u32,
}

/// A ratio of two signed 32-bit integers.
#[derive(Copy, Clone, Debug, PartialEq, Eq, Structural)]
pub struct IRational {
    pub numerator: i32,
    pub denominator: i32,
}

} // verus!
