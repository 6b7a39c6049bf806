//! Table attributes: the scope of a header cell and the span of a cell.

use vstd::prelude::*;

use crate::positive::Positive;

verus! {

/// The scope of a table header cell.
#[derive(Debug, Copy, Clone, PartialEq, Eq, Structural, Hash)]
pub enum TableHeaderScope {
    /// The header cell refers to the row.
    Row,
    /// The header cell refers to the column.
    Column,
    /// The header cell refers to both the row and the column.
    Both,
}

/// The span of a table cell.
///
/// Both dimensions are positive. A span of 1 is what the format assumes of
/// a cell without the attribute, so [`TableCellSpan::row_span`] and
/// [`TableCellSpan::col_span`] hand out a dimension only where it is not 1.
#[derive(Debug, Copy, Clone, PartialEq, Eq, Structural, Hash)]
pub struct TableCellSpan {
    /// The number of spanned rows inside the enclosing table.
    pub rows: Positive,
    /// The number of spanned cells inside the enclosing table.
    pub cols: Positive,
}

impl Default for TableCellSpan {
    fn default() -> (r: Self)
        ensures
            r == TableCellSpan::spec_one(),
    {
        Self::one()
    }
}

impl TableCellSpan {
    /// The dimension `n` as an attribute: absent where `n` is the implied 1.
    pub open spec fn explicit(n: Positive) -> Option<Positive> {
        if n@ == 1 {
            None
        } else {
            Some(n)
        }
    }

    /// The span of a cell that covers one row and one column.
    pub open spec fn spec_one() -> Self {
        TableCellSpan { rows: Positive::spec_one(), cols: Positive::spec_one() }
    }

    /// The span of `rows` rows and `cols` columns.
    pub open spec fn spec_new(rows: Positive, cols: Positive) -> Self {
        TableCellSpan { rows, cols }
    }

    /// The span of `rows` rows and one column.
    pub open spec fn spec_row(rows: Positive) -> Self {
        TableCellSpan { rows, cols: Positive::spec_one() }
    }

    /// The span of one row and `cols` columns.
    pub open spec fn spec_col(cols: Positive) -> Self {
        TableCellSpan { rows: Positive::spec_one(), cols }
    }

    /// The row span as an attribute.
    pub open spec fn spec_row_span(self) -> Option<Positive> {
        Self::explicit(self.rows)
    }

    /// The column span as an attribute.
    pub open spec fn spec_col_span(self) -> Option<Positive> {
        Self::explicit(self.cols)
    }

    /// A table cell that spans only one row and column.
    pub fn one() -> (r: Self)
        ensures
            r == Self::spec_one(),
    {
        TableCellSpan { rows: Positive::one(), cols: Positive::one() }
    }

    /// Create a new table cell span.
    pub fn new(rows: Positive, cols: Positive) -> (r: Self)
        ensures
            r == Self::spec_new(rows, cols),
    {
        TableCellSpan { rows, cols }
    }

    /// Create a new table cell span that spans a number of rows.
    pub fn row(rows: Positive) -> (r: Self)
        ensures
            r == Self::spec_row(rows),
    {
        TableCellSpan { rows, cols: Positive::one() }
    }

    /// Create a new table cell span that spans a number of columns.
    pub fn col(cols: Positive) -> (r: Self)
        ensures
            r == Self::spec_col(cols),
    {
        TableCellSpan { rows: Positive::one(), cols }
    }

    /// The number of spanned rows, unless it is 1.
    pub fn row_span(self) -> (r: Option<Positive>)
        ensures
            r == self.spec_row_span(),
    {
        if self.rows.get() != 1 {
            Some(self.rows)
        } else {
            None
        }
    }

    /// The number of spanned columns, unless it is 1.
    pub fn col_span(self) -> (r: Option<Positive>)
        ensures
            r == self.spec_col_span(),
    {
        if self.cols.get() != 1 {
            Some(self.cols)
        } else {
            None
        }
    }

    /// The span of a single cell has no explicit dimension.
    pub proof fn lemma_one_is_implicit()
        ensures
            Self::spec_one().spec_row_span() is None,
            Self::spec_one().spec_col_span() is None,
    {
        Positive::lemma_one();
    }

    /// A span made of a number of rows has no explicit column span, and its
    /// row span is that number unless the number is 1.
    pub proof fn lemma_row_spans(n: Positive)
        ensures
            Self::spec_row(n).spec_col_span() is None,
            n@ != 1 ==> Self::spec_row(n).spec_row_span() == Some(n),
            n@ == 1 ==> Self::spec_row(n).spec_row_span() is None,
    {
        Positive::lemma_one();
    }

    /// A span made of a number of columns has no explicit row span, and its
    /// column span is that number unless the number is 1.
    pub proof fn lemma_col_spans(n: Positive)
        ensures
            Self::spec_col(n).spec_row_span() is None,
            n@ != 1 ==> Self::spec_col(n).spec_col_span() == Some(n),
            n@ == 1 ==> Self::spec_col(n).spec_col_span() is None,
    {
        Positive::lemma_one();
    }
}

} // verus!
