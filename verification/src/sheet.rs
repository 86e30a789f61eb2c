//! Normalizing a resolved sheet, held as calamine hands it out.
//!
//! The range is calamine's own collection. Its three accessors are called
//! here and believed; the walk over what they return is verified.

use crate::cell::{CellModel, SheetCell};
use crate::grid::{normalize_rows, normalized_sheet, SheetData};
use calamine::{DataType, Range};
use vstd::prelude::*;

verus! {

/// A resolved sheet: a `calamine::Range` of `calamine::DataType` cells, as a
/// workbook hands it out. The verifier sees nothing inside it; what it
/// holds is spoken of through [`sheet_cells`], [`declared_width`] and
/// [`declared_height`].
#[verifier::external_body]
pub struct SheetRange(pub Range<DataType>);

/// The rows that `Range::rows` yields for `range`, in order, each with its
/// cells in order.
pub uninterp spec fn sheet_cells(range: SheetRange) -> Seq<Seq<CellModel>>;

/// The number of columns that `range` declares: what `Range::width` returns.
pub uninterp spec fn declared_width(range: SheetRange) -> usize;

/// The number of rows that `range` declares: what `Range::height` returns.
pub uninterp spec fn declared_height(range: SheetRange) -> usize;

/// Calls `calamine::Range::width`. Believed, not proved: the call returns,
/// and its result depends on the range alone.
#[verifier::external_body]
fn range_width(range: &SheetRange) -> (width: usize)
    ensures
        width == declared_width(*range),
{
    range.0.width()
}

/// Calls `calamine::Range::height`. Believed, not proved: the call returns,
/// and its result depends on the range alone.
#[verifier::external_body]
fn range_height(range: &SheetRange) -> (height: usize)
    ensures
        height == declared_height(*range),
{
    range.0.height()
}

/// Calls `calamine::Range::rows` and hands out every row that the iterator
/// yields, in order, each cell written as the [`SheetCell`] of the same
/// variant with the same content: a float as its bit pattern, an error
/// marker without its reason. Believed, not proved: the call returns, and
/// the rows depend on the range alone.
#[verifier::external_body]
fn range_rows(range: &SheetRange) -> (rows: Vec<Vec<SheetCell>>)
    ensures
        rows.deep_view() == sheet_cells(*range),
{
    range.0.rows().map(|row| row.iter().map(|cell| match cell {
        DataType::Int(i) => SheetCell::Integer(*i),
        DataType::Float(f) => SheetCell::Number(f.to_bits()),
        DataType::String(s) => SheetCell::Text(s.clone()),
        DataType::Bool(b) => SheetCell::Boolean(*b),
        DataType::Error(_) => SheetCell::ErrorValue,
        DataType::Empty => SheetCell::Empty,
    }).collect()).collect()
}

/// Normalizes a resolved sheet: walks its rows once, in order, and
/// normalizes every cell; the extent is the one that the sheet declares.
pub fn normalize(range: &SheetRange) -> (data: SheetData)
    ensures
        data@ == normalized_sheet(
            declared_width(*range) as nat,
            declared_height(*range) as nat,
            sheet_cells(*range),
        ),
        data.width == declared_width(*range),
        data.height == declared_height(*range),
        data.rows.len() == sheet_cells(*range).len(),
        forall|i: int|
            0 <= i < data.rows.len() ==> (#[trigger] data.rows[i]).len() == sheet_cells(
                *range,
            )[i].len(),
        data@.is_clean(),
{
    let width = range_width(range);
    let height = range_height(range);
    let rows = range_rows(range);
    assert forall|i: int| 0 <= i < rows.len() implies (#[trigger] rows[i]).len() == sheet_cells(
        *range,
    )[i].len() by {
        assert(rows.deep_view()[i] == rows[i].deep_view());
    }
    normalize_rows(width, height, &rows)
}

} // verus!
