//! Numbers and rectangles that attributes carry to the writer.
//!
//! Nothing in this crate computes with them. They are held as the bit
//! patterns of IEEE 754 single-precision numbers, which is what the writer
//! takes them back from.

use vstd::prelude::*;

verus! {

/// A single-precision number, held as its bit pattern.
#[derive(Debug, Copy, Clone)]
pub struct Scalar {
    bits: u32,
}

impl View for Scalar {
    type V = u32;

    /// The bit pattern of the number.
    closed spec fn view(&self) -> u32 {
        self.bits
    }
}

impl Scalar {
    /// The number with the bit pattern `bits`.
    pub fn from_bits(bits: u32) -> (r: Self)
        ensures
            r@ == bits,
    {
        Scalar { bits }
    }

    /// The bit pattern of the number.
    pub fn to_bits(self) -> (r: u32)
        ensures
            r == self@,
    {
        self.bits
    }
}

/// A rectangle, given by its four edges.
#[derive(Debug, Copy, Clone)]
pub struct Rect {
    /// The left edge.
    pub left: Scalar,
    /// The top edge.
    pub top: Scalar,
    /// The right edge.
    pub right: Scalar,
    /// The bottom edge.
    pub bottom: Scalar,
}

} // verus!
