//! Normalized grids of scalar values from spreadsheet ranges.
//!
//! A sheet is walked once, row by row and cell by cell. Every cell is mapped
//! to a portable scalar: blank cells, error markers and blank text to
//! `Null`, text to its trimmed form, everything else to itself. The sheet's
//! declared width and height are carried along unchanged.
//!
//! - [`text`]: whitespace and trimming.
//! - [`cell`]: cells, normalized values, and the rule from one to the other.
//! - [`grid`]: rows of cells to the normalized sheet.
//! - [`sheet`]: the same for a sheet held in a calamine range.
//! - [`load`]: from the outcome of opening and resolving to sheet or error.
//! - [`host`]: narrowing integers for a host runtime of 32 bits.
//!
//! What is believed without proof: `str::trim`, and the three accessors of
//! calamine's range that [`sheet`] calls.

pub mod cell;
pub mod grid;
pub mod host;
pub mod load;
pub mod sheet;
pub mod text;
