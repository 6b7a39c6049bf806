//! List attributes: the numbering style of a list.

use vstd::prelude::*;

verus! {

/// The list numbering type.
#[derive(Debug, Copy, Clone, PartialEq, Eq, Structural, Hash)]
pub enum ListNumbering {
    /// No numbering.
    Unnumbered,
    /// Solid circular bullets.
    Disc,
    /// Open circular bullets.
    Circle,
    /// Solid square bullets.
    Square,
    /// Decimal numbers.
    Decimal,
    /// Lowercase Roman numerals.
    LowerRoman,
    /// Uppercase Roman numerals.
    UpperRoman,
    /// Lowercase letters.
    LowerAlpha,
    /// Uppercase letters.
    UpperAlpha,
}

} // verus!
