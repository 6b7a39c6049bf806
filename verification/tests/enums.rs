use pdf_writer::types::ListNumbering as PdfListNumbering;
use pdf_writer::types::Placement as PdfPlacement;
use pdf_writer::types::TableHeaderScope as PdfTableHeaderScope;
use pdf_writer::types::WritingMode as PdfWritingMode;
use tagging::{ListNumbering, Placement, TableHeaderScope, WritingMode};

#[test]
fn list_numbering_maps_to_the_writer() {
    assert_eq!(ListNumbering::Unnumbered.to_pdf(), PdfListNumbering::None);
    assert_eq!(ListNumbering::Disc.to_pdf(), PdfListNumbering::Disc);
    assert_eq!(ListNumbering::Circle.to_pdf(), PdfListNumbering::Circle);
    assert_eq!(ListNumbering::Square.to_pdf(), PdfListNumbering::Square);
    assert_eq!(ListNumbering::Decimal.to_pdf(), PdfListNumbering::Decimal);
    assert_eq!(ListNumbering::LowerRoman.to_pdf(), PdfListNumbering::LowerRoman);
    assert_eq!(ListNumbering::UpperRoman.to_pdf(), PdfListNumbering::UpperRoman);
    assert_eq!(ListNumbering::LowerAlpha.to_pdf(), PdfListNumbering::LowerAlpha);
    assert_eq!(ListNumbering::UpperAlpha.to_pdf(), PdfListNumbering::UpperAlpha);
}

#[test]
fn list_numbering_images_are_distinct() {
    let all = [
        ListNumbering::Unnumbered,
        ListNumbering::Disc,
        ListNumbering::Circle,
        ListNumbering::Square,
        ListNumbering::Decimal,
        ListNumbering::LowerRoman,
        ListNumbering::UpperRoman,
        ListNumbering::LowerAlpha,
        ListNumbering::UpperAlpha,
    ];
    for (i, a) in all.iter().enumerate() {
        for (j, b) in all.iter().enumerate() {
            assert_eq!(i == j, a.to_pdf() == b.to_pdf());
        }
    }
}

#[test]
fn table_header_scope_maps_to_the_writer() {
    assert_eq!(TableHeaderScope::Row.to_pdf(), PdfTableHeaderScope::Row);
    assert_eq!(TableHeaderScope::Column.to_pdf(), PdfTableHeaderScope::Column);
    assert_eq!(TableHeaderScope::Both.to_pdf(), PdfTableHeaderScope::Both);
}

#[test]
fn table_header_scope_images_are_distinct() {
    let all = [TableHeaderScope::Row, TableHeaderScope::Column, TableHeaderScope::Both];
    for (i, a) in all.iter().enumerate() {
        for (j, b) in all.iter().enumerate() {
            assert_eq!(i == j, a.to_pdf() == b.to_pdf());
        }
    }
}

#[test]
fn placement_maps_to_the_writer() {
    assert_eq!(Placement::Block.to_pdf(), PdfPlacement::Block);
    assert_eq!(Placement::Inline.to_pdf(), PdfPlacement::Inline);
    assert_eq!(Placement::Before.to_pdf(), PdfPlacement::Before);
    assert_eq!(Placement::Start.to_pdf(), PdfPlacement::Start);
    assert_eq!(Placement::End.to_pdf(), PdfPlacement::End);
}

#[test]
fn placement_images_are_distinct() {
    let all = [
        Placement::Block,
        Placement::Inline,
        Placement::Before,
        Placement::Start,
        Placement::End,
    ];
    for (i, a) in all.iter().enumerate() {
        for (j, b) in all.iter().enumerate() {
            assert_eq!(i == j, a.to_pdf() == b.to_pdf());
        }
    }
}

#[test]
fn writing_mode_maps_to_the_writer() {
    assert_eq!(WritingMode::LrTb.to_pdf(), PdfWritingMode::LtrTtb);
    assert_eq!(WritingMode::RlTb.to_pdf(), PdfWritingMode::RtlTtb);
    assert_eq!(WritingMode::TbRl.to_pdf(), PdfWritingMode::TtbRtl);
}

#[test]
fn writing_mode_images_are_distinct() {
    let all = [WritingMode::LrTb, WritingMode::RlTb, WritingMode::TbRl];
    for (i, a) in all.iter().enumerate() {
        for (j, b) in all.iter().enumerate() {
            assert_eq!(i == j, a.to_pdf() == b.to_pdf());
        }
    }
}

#[test]
fn placement_defaults_to_inline() {
    assert_eq!(Placement::default(), Placement::Inline);
}

#[test]
fn writing_mode_defaults_to_left_to_right() {
    assert_eq!(WritingMode::default(), WritingMode::LrTb);
}
