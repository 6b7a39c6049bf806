//! The attributes of a tag, in four groups.
//!
//! Each group is a closed set of variants. The ordinal of an attribute is
//! the position of its variant in the group, so a [`BSet`](crate::BSet) of
//! one group holds its attributes in the order of the variants.

use vstd::prelude::*;

use crate::bset::Ordinal;
use crate::geom::{Rect, Scalar};
use crate::layout::{Placement, WritingMode};
use crate::list::ListNumbering;
use crate::positive::Positive;
use crate::table::{TableCellSpan, TableHeaderScope};
use crate::tag_id::{TagId, TagIds};

verus! {

/// An attribute that any tag can have.
#[derive(Clone, Debug, PartialEq)]
pub enum Attr {
    /// The identifier of the tag.
    Id(TagId),
    /// The title of the tag.
    Title(String),
    /// The language of the tag's content.
    Lang(String),
    /// A description of the content for readers who cannot see it.
    AltText(String),
    /// The expanded form of an abbreviation.
    Expanded(String),
    /// The text that the content stands for.
    ActualText(String),
    /// The level of a heading.
    HeadingLevel(Positive),
}

impl Ordinal for Attr {
    open spec fn spec_ordinal(&self) -> usize {
        match self {
            Attr::Id(_) => 0,
            Attr::Title(_) => 1,
            Attr::Lang(_) => 2,
            Attr::AltText(_) => 3,
            Attr::Expanded(_) => 4,
            Attr::ActualText(_) => 5,
            Attr::HeadingLevel(_) => 6,
        }
    }

    fn ordinal(&self) -> (r: usize) {
        match self {
            Attr::Id(_) => 0,
            Attr::Title(_) => 1,
            Attr::Lang(_) => 2,
            Attr::AltText(_) => 3,
            Attr::Expanded(_) => 4,
            Attr::ActualText(_) => 5,
            Attr::HeadingLevel(_) => 6,
        }
    }
}

/// An attribute of a list.
#[derive(Clone, Debug, PartialEq)]
pub enum ListAttr {
    /// The numbering style of the list.
    Numbering(ListNumbering),
}

impl Ordinal for ListAttr {
    open spec fn spec_ordinal(&self) -> usize {
        match self {
            ListAttr::Numbering(_) => 0,
        }
    }

    fn ordinal(&self) -> (r: usize) {
        match self {
            ListAttr::Numbering(_) => 0,
        }
    }
}

/// An attribute of a table or of one of its cells.
#[derive(Clone, Debug, PartialEq)]
pub enum TableAttr {
    /// A summary of the table.
    Summary(String),
    /// What a header cell is a header of.
    HeaderScope(TableHeaderScope),
    /// The header cells that a cell belongs to.
    CellHeaders(TagIds),
    /// The rows and columns that a cell spans.
    CellSpan(TableCellSpan),
}

impl Ordinal for TableAttr {
    open spec fn spec_ordinal(&self) -> usize {
        match self {
            TableAttr::Summary(_) => 0,
            TableAttr::HeaderScope(_) => 1,
            TableAttr::CellHeaders(_) => 2,
            TableAttr::CellSpan(_) => 3,
        }
    }

    fn ordinal(&self) -> (r: usize) {
        match self {
            TableAttr::Summary(_) => 0,
            TableAttr::HeaderScope(_) => 1,
            TableAttr::CellHeaders(_) => 2,
            TableAttr::CellSpan(_) => 3,
        }
    }
}

/// An attribute of the layout of a tag's content.
#[derive(Clone, Debug)]
pub enum LayoutAttr {
    /// Where the element is placed.
    Placement(Placement),
    /// The directions in which the content progresses.
    WritingMode(WritingMode),
    /// The bounding box of the content.
    BBox(Rect),
    /// The width of the content.
    Width(Scalar),
    /// The height of the content.
    Height(Scalar),
}

impl Ordinal for LayoutAttr {
    open spec fn spec_ordinal(&self) -> usize {
        match self {
            LayoutAttr::Placement(_) => 0,
            LayoutAttr::WritingMode(_) => 1,
            LayoutAttr::BBox(_) => 2,
            LayoutAttr::Width(_) => 3,
            LayoutAttr::Height(_) => 4,
        }
    }

    fn ordinal(&self) -> (r: usize) {
        match self {
            LayoutAttr::Placement(_) => 0,
            LayoutAttr::WritingMode(_) => 1,
            LayoutAttr::BBox(_) => 2,
            LayoutAttr::Width(_) => 3,
            LayoutAttr::Height(_) => 4,
        }
    }
}

} // verus!
