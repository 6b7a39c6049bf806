//! Layout attributes: placement and writing mode.

use vstd::prelude::*;

verus! {

/// The positioning of an element with respect to the enclosing reference
/// area and other content.
///
/// When applied to an inline-level element, any value except
/// [`Placement::Inline`] causes the element to be treated as a block-level
/// element instead.
///
/// Default value: [`Placement::Inline`].
#[derive(Debug, Copy, Clone, PartialEq, Eq, Structural)]
pub enum Placement {
    /// Stacked in the block-progression direction within an enclosing
    /// reference area or parent block-level element.
    Block,
    /// Packed in the inline-progression direction within an enclosing
    /// block-level element.
    Inline,
    /// Placed so that the before edge of the element's allocation rectangle
    /// coincides with that of the nearest enclosing reference area. The
    /// element may float, if necessary, to achieve the specified placement.
    /// It is treated as a block occupying the full extent of the enclosing
    /// reference area in the inline direction; other content is stacked so
    /// as to begin at the after edge of the element's allocation rectangle.
    Before,
    /// Placed so that the start edge of the element's allocation rectangle
    /// coincides with that of the nearest enclosing reference area. The
    /// element may float, if necessary, to achieve the specified placement.
    /// Other content that would intrude into the element's allocation
    /// rectangle is laid out as a runaround.
    Start,
    /// Placed so that the end edge of the element's allocation rectangle
    /// coincides with that of the nearest enclosing reference area. The
    /// element may float, if necessary, to achieve the specified placement.
    /// Other content that would intrude into the element's allocation
    /// rectangle is laid out as a runaround.
    End,
}

impl Default for Placement {
    fn default() -> (r: Self)
        ensures
            r == Placement::Inline,
    {
        Placement::Inline
    }
}

/// The directions of layout progression for packing of inline-level elements
/// (inline progression) and stacking of block-level elements (block
/// progression).
///
/// The directions apply to the structure element that carries them and to
/// all of its descendants, to any level of nesting, unless overridden.
///
/// Default value: [`WritingMode::LrTb`].
#[derive(Debug, Copy, Clone, PartialEq, Eq, Structural)]
pub enum WritingMode {
    /// Inline progression from left to right; block progression from top to
    /// bottom. This is the typical writing mode for Western writing systems.
    LrTb,
    /// Inline progression from right to left; block progression from top to
    /// bottom. This is the typical writing mode for Arabic and Hebrew
    /// writing systems.
    RlTb,
    /// Inline progression from top to bottom; block progression from right
    /// to left. This is the typical writing mode for Chinese and Japanese
    /// writing systems.
    TbRl,
}

impl Default for WritingMode {
    fn default() -> (r: Self)
        ensures
            r == WritingMode::LrTb,
    {
        WritingMode::LrTb
    }
}

} // verus!
