//! The normalized grid: rows of scalars in sheet order, beside the extent
//! that the sheet declares.

use crate::cell::{
    lemma_normalized_is_clean, normalize_cell, normalized, CellModel, NormalizedValue, SheetCell,
    ValueModel,
};
use vstd::prelude::*;

verus! {

/// A sheet after normalization. `width` and `height` are what the sheet
/// declares; nothing ties them to the number of rows or to their lengths.
#[derive(Clone, Debug, PartialEq)]
pub struct SheetData {
    /// The declared number of columns.
    pub width: usize,
    /// The declared number of rows.
    pub height: usize,
    /// The rows that the walk met, in order, each with its cells in order.
    pub rows: Vec<Vec<NormalizedValue>>,
}

/// What a [`SheetData`] holds.
pub struct SheetModel {
    pub width: nat,
    pub height: nat,
    pub rows: Seq<Seq<ValueModel>>,
}

impl View for SheetData {
    type V = SheetModel;

    open spec fn view(&self) -> SheetModel {
        SheetModel {
            width: self.width as nat,
            height: self.height as nat,
            rows: self.rows.deep_view(),
        }
    }
}

impl SheetModel {
    /// Every value of the grid meets the invariant of normalized values.
    pub open spec fn is_clean(self) -> bool {
        forall|i: int, j: int|
            0 <= i < self.rows.len() && 0 <= j < self.rows[i].len() ==> (
            #[trigger] self.rows[i][j]).is_clean()
    }
}

/// A row, cell by cell normalized.
pub open spec fn normalized_row(row: Seq<CellModel>) -> Seq<ValueModel> {
    Seq::new(row.len(), |j: int| normalized(row[j]))
}

/// The rows of a sheet, each normalized, in the order given.
pub open spec fn normalized_rows(rows: Seq<Seq<CellModel>>) -> Seq<Seq<ValueModel>> {
    Seq::new(rows.len(), |i: int| normalized_row(rows[i]))
}

/// The normalized sheet: the declared extent as given, and the rows
/// normalized.
pub open spec fn normalized_sheet(width: nat, height: nat, rows: Seq<Seq<CellModel>>) -> SheetModel {
    SheetModel { width, height, rows: normalized_rows(rows) }
}

/// Normalizing keeps the shape of a sheet: the declared extent is the one
/// given, there are as many rows as before, and each row is as long as
/// before. Nothing is padded and nothing is cut.
pub proof fn lemma_shape_is_kept(width: nat, height: nat, rows: Seq<Seq<CellModel>>)
    ensures
        normalized_sheet(width, height, rows).width == width,
        normalized_sheet(width, height, rows).height == height,
        normalized_sheet(width, height, rows).rows.len() == rows.len(),
        forall|i: int|
            0 <= i < rows.len() ==> (#[trigger] normalized_sheet(width, height, rows).rows[i]).len()
                == rows[i].len(),
        forall|i: int, j: int|
            0 <= i < rows.len() && 0 <= j < rows[i].len() ==> #[trigger] normalized_sheet(
                width,
                height,
                rows,
            ).rows[i][j] == normalized(rows[i][j]),
{
}

/// Every value of a normalized sheet meets the invariant of normalized
/// values.
pub proof fn lemma_normalized_sheet_is_clean(width: nat, height: nat, rows: Seq<Seq<CellModel>>)
    ensures
        normalized_sheet(width, height, rows).is_clean(),
{
    let sheet = normalized_sheet(width, height, rows);
    assert forall|i: int, j: int|
        0 <= i < sheet.rows.len() && 0 <= j < sheet.rows[i].len() implies (
    #[trigger] sheet.rows[i][j]).is_clean() by {
        lemma_normalized_is_clean(rows[i][j]);
    }
}

/// Normalizes the cells of one row, keeping their number and order.
pub fn normalize_row(row: &Vec<SheetCell>) -> (values: Vec<NormalizedValue>)
    ensures
        values.deep_view() == normalized_row(row.deep_view()),
        values.len() == row.len(),
{
    let mut values: Vec<NormalizedValue> = Vec::new();
    let mut j: usize = 0;
    while j < row.len()
        invariant
            j <= row.len(),
            values.len() == j,
            forall|k: int| 0 <= k < j ==> (#[trigger] values[k])@ == normalized(row[k]@),
        decreases row.len() - j,
    {
        values.push(normalize_cell(&row[j]));
        j += 1;
    }
    assert(values.deep_view() =~= normalized_row(row.deep_view()));
    values
}

/// Builds the normalized sheet from the declared extent and the rows that
/// the walk met. The extent is kept as given, whatever the rows are: no row
/// is padded, cut, dropped or moved.
pub fn normalize_rows(width: usize, height: usize, rows: &Vec<Vec<SheetCell>>) -> (data: SheetData)
    ensures
        data@ == normalized_sheet(width as nat, height as nat, rows.deep_view()),
        data.width == width,
        data.height == height,
        data.rows.len() == rows.len(),
        forall|i: int| 0 <= i < rows.len() ==> (#[trigger] data.rows[i]).len() == rows[i].len(),
        data@.is_clean(),
{
    let mut grid: Vec<Vec<NormalizedValue>> = Vec::new();
    let mut i: usize = 0;
    while i < rows.len()
        invariant
            i <= rows.len(),
            grid.len() == i,
            forall|k: int|
                0 <= k < i ==> (#[trigger] grid[k]).deep_view() == normalized_row(
                    rows[k].deep_view(),
                ),
            forall|k: int| 0 <= k < i ==> (#[trigger] grid[k]).len() == rows[k].len(),
        decreases rows.len() - i,
    {
        grid.push(normalize_row(&rows[i]));
        i += 1;
    }
    let data = SheetData { width, height, rows: grid };
    assert(data@.rows =~= normalized_rows(rows.deep_view()));
    proof {
        lemma_normalized_sheet_is_clean(width as nat, height as nat, rows.deep_view());
    }
    data
}

} // verus!
