//! The mapping of this crate's vocabularies into those of the PDF writer.
//!
//! This is the only module that names the writer's types. Each mapping is
//! total, and no two values of a vocabulary share an image, so the writer's
//! value determines the value it came from. The writer's vocabularies may
//! hold more values than this crate's: its numbering styles have three that
//! no [`ListNumbering`] maps to.

use vstd::prelude::*;

use pdf_writer::types::ListNumbering as PdfListNumbering;
use pdf_writer::types::Placement as PdfPlacement;
use pdf_writer::types::TableHeaderScope as PdfTableHeaderScope;
use pdf_writer::types::WritingMode as PdfWritingMode;

use crate::layout::{Placement, WritingMode};
use crate::list::ListNumbering;
use crate::table::TableHeaderScope;

verus! {

/// The writer's numbering styles, `pdf_writer::types::ListNumbering`.
///
/// The verifier reads the variants from the writer itself, so nothing is
/// assumed of them.
#[verifier::external_type_specification]
pub struct ExListNumbering(PdfListNumbering);

/// The writer's header scopes, `pdf_writer::types::TableHeaderScope`.
///
/// The verifier reads the variants from the writer itself, so nothing is
/// assumed of them.
#[verifier::external_type_specification]
pub struct ExTableHeaderScope(PdfTableHeaderScope);

/// The writer's placements, `pdf_writer::types::Placement`.
///
/// The verifier reads the variants from the writer itself, so nothing is
/// assumed of them.
#[verifier::external_type_specification]
pub struct ExPlacement(PdfPlacement);

/// The writer's writing modes, `pdf_writer::types::WritingMode`.
///
/// The verifier reads the variants from the writer itself, so nothing is
/// assumed of them.
#[verifier::external_type_specification]
pub struct ExWritingMode(PdfWritingMode);

impl ListNumbering {
    /// The writer's numbering style that stands for `self`.
    pub open spec fn to_pdf_spec(self) -> PdfListNumbering {
        match self {
            ListNumbering::Unnumbered => PdfListNumbering::None,
            ListNumbering::Disc => PdfListNumbering::Disc,
            ListNumbering::Circle => PdfListNumbering::Circle,
            ListNumbering::Square => PdfListNumbering::Square,
            ListNumbering::Decimal => PdfListNumbering::Decimal,
            ListNumbering::LowerRoman => PdfListNumbering::LowerRoman,
            ListNumbering::UpperRoman => PdfListNumbering::UpperRoman,
            ListNumbering::LowerAlpha => PdfListNumbering::LowerAlpha,
            ListNumbering::UpperAlpha => PdfListNumbering::UpperAlpha,
        }
    }

    /// Converts the numbering style into the writer's.
    pub fn to_pdf(self) -> (r: PdfListNumbering)
        ensures
            r == self.to_pdf_spec(),
    {
        match self {
            ListNumbering::Unnumbered => PdfListNumbering::None,
            ListNumbering::Disc => PdfListNumbering::Disc,
            ListNumbering::Circle => PdfListNumbering::Circle,
            ListNumbering::Square => PdfListNumbering::Square,
            ListNumbering::Decimal => PdfListNumbering::Decimal,
            ListNumbering::LowerRoman => PdfListNumbering::LowerRoman,
            ListNumbering::UpperRoman => PdfListNumbering::UpperRoman,
            ListNumbering::LowerAlpha => PdfListNumbering::LowerAlpha,
            ListNumbering::UpperAlpha => PdfListNumbering::UpperAlpha,
        }
    }

    /// Two numbering styles with the same image are the same style.
    pub proof fn lemma_to_pdf_injective(a: Self, b: Self)
        requires
            a.to_pdf_spec() == b.to_pdf_spec(),
        ensures
            a == b,
    {
    }
}

impl TableHeaderScope {
    /// The writer's header scope that stands for `self`.
    pub open spec fn to_pdf_spec(self) -> PdfTableHeaderScope {
        match self {
            TableHeaderScope::Row => PdfTableHeaderScope::Row,
            TableHeaderScope::Column => PdfTableHeaderScope::Column,
            TableHeaderScope::Both => PdfTableHeaderScope::Both,
        }
    }

    /// Converts the header scope into the writer's.
    pub fn to_pdf(self) -> (r: PdfTableHeaderScope)
        ensures
            r == self.to_pdf_spec(),
    {
        match self {
            TableHeaderScope::Row => PdfTableHeaderScope::Row,
            TableHeaderScope::Column => PdfTableHeaderScope::Column,
            TableHeaderScope::Both => PdfTableHeaderScope::Both,
        }
    }

    /// Two header scopes with the same image are the same scope.
    pub proof fn lemma_to_pdf_injective(a: Self, b: Self)
        requires
            a.to_pdf_spec() == b.to_pdf_spec(),
        ensures
            a == b,
    {
    }
}

impl Placement {
    /// The writer's placement that stands for `self`.
    pub open spec fn to_pdf_spec(self) -> PdfPlacement {
        match self {
            Placement::Block => PdfPlacement::Block,
            Placement::Inline => PdfPlacement::Inline,
            Placement::Before => PdfPlacement::Before,
            Placement::Start => PdfPlacement::Start,
            Placement::End => PdfPlacement::End,
        }
    }

    /// Converts the placement into the writer's.
    pub fn to_pdf(self) -> (r: PdfPlacement)
        ensures
            r == self.to_pdf_spec(),
    {
        match self {
            Placement::Block => PdfPlacement::Block,
            Placement::Inline => PdfPlacement::Inline,
            Placement::Before => PdfPlacement::Before,
            Placement::Start => PdfPlacement::Start,
            Placement::End => PdfPlacement::End,
        }
    }

    /// Two placements with the same image are the same placement.
    pub proof fn lemma_to_pdf_injective(a: Self, b: Self)
        requires
            a.to_pdf_spec() == b.to_pdf_spec(),
        ensures
            a == b,
    {
    }
}

impl WritingMode {
    /// The writer's writing mode that stands for `self`.
    ///
    /// The writer spells the directions out (`Ltr`, `Rtl`, `Ttb`) where this
    /// crate abbreviates them (`Lr`, `Rl`, `Tb`); the inline progression
    /// comes first in both.
    pub open spec fn to_pdf_spec(self) -> PdfWritingMode {
        match self {
            WritingMode::LrTb => PdfWritingMode::LtrTtb,
            WritingMode::RlTb => PdfWritingMode::RtlTtb,
            WritingMode::TbRl => PdfWritingMode::TtbRtl,
        }
    }

    /// Converts the writing mode into the writer's.
    pub fn to_pdf(self) -> (r: PdfWritingMode)
        ensures
            r == self.to_pdf_spec(),
    {
        match self {
            WritingMode::LrTb => PdfWritingMode::LtrTtb,
            WritingMode::RlTb => PdfWritingMode::RtlTtb,
            WritingMode::TbRl => PdfWritingMode::TtbRtl,
        }
    }

    /// Two writing modes with the same image are the same mode.
    pub proof fn lemma_to_pdf_injective(a: Self, b: Self)
        requires
            a.to_pdf_spec() == b.to_pdf_spec(),
        ensures
            a == b,
    {
    }
}

} // verus!
