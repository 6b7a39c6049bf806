//! Typed attributes for the logical structure tree of a tagged PDF.
//!
//! A producer describes structural roles and their attributes with the types
//! of this crate instead of assembling PDF names by hand:
//!
//! * [`TagId`] identifies a structure element for cross-references,
//! * [`ListNumbering`], [`TableHeaderScope`], [`Placement`] and
//!   [`WritingMode`] are closed vocabularies, each with a `to_pdf` mapping
//!   into the writer's vocabulary (module [`pdf`]),
//! * [`TableCellSpan`] is a pair of positive spans whose trivial dimensions
//!   are elided on output,
//! * [`BSet`] keeps a collection of attributes sorted by their ordinal,
//! * [`Attr`], [`ListAttr`], [`TableAttr`] and [`LayoutAttr`] group the
//!   attributes that apply to a structural role.
//!
//! Every executable function carries a contract over a mathematical model of
//! its data, and the laws that relate several functions are stated as public
//! proof functions next to them.

pub mod attr;
pub mod bset;
pub mod geom;
pub mod layout;
pub mod list;
pub mod pdf;
pub mod positive;
pub mod table;
pub mod tag_id;

pub use attr::{Attr, LayoutAttr, ListAttr, TableAttr};
pub use bset::{BSet, Ordinal};
pub use geom::{Rect, Scalar};
pub use layout::{Placement, WritingMode};
pub use list::ListNumbering;
pub use positive::Positive;
pub use table::{TableCellSpan, TableHeaderScope};
pub use tag_id::{TagId, TagIds};
