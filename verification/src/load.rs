//! From the outcome of opening a workbook and resolving a sheet to the
//! normalized sheet, or to the reason why there is none.

use crate::grid::{normalized_sheet, SheetData};
use crate::sheet::{declared_height, declared_width, normalize, sheet_cells, SheetRange};
use calamine::Error;
use vstd::prelude::*;

verus! {

/// `calamine::Error`, what calamine reports when it cannot open a workbook
/// or read a sheet; opaque here.
#[verifier::external_type_specification]
#[verifier::external_body]
pub struct ExError(Error);

/// Why a load produced no sheet. Either failure ends the load: there is no
/// partial grid.
#[derive(Clone, Copy, Debug, PartialEq, Eq)]
pub enum LoadError {
    /// The workbook could not be opened, or the sheet in it could not be
    /// read.
    UnopenableWorkbook,
    /// The workbook holds no sheet of the name asked for.
    UnknownSheet,
}

/// What a load owes for each outcome: the normalized sheet where the
/// workbook opened and the sheet was read, else the error.
pub open spec fn load_result(
    outcome: Result<Option<Result<SheetRange, Error>>, Error>,
    data: Result<SheetData, LoadError>,
) -> bool {
    match outcome {
        Err(_) => data == Err::<SheetData, LoadError>(LoadError::UnopenableWorkbook),
        Ok(None) => data == Err::<SheetData, LoadError>(LoadError::UnknownSheet),
        Ok(Some(Err(_))) => data == Err::<SheetData, LoadError>(LoadError::UnopenableWorkbook),
        Ok(Some(Ok(range))) => {
            &&& data is Ok
            &&& data->Ok_0@ == normalized_sheet(
                declared_width(range) as nat,
                declared_height(range) as nat,
                sheet_cells(range),
            )
            &&& data->Ok_0@.is_clean()
        },
    }
}

/// Finishes a load. `outcome` is what opening the workbook gave and, where
/// it opened, what resolving the sheet by name gave: `None` where the
/// workbook has no such sheet. Only a sheet that was read is normalized;
/// every failure is reported, none is recovered from.
pub fn finish_load(outcome: Result<Option<Result<SheetRange, Error>>, Error>) -> (data: Result<
    SheetData,
    LoadError,
>)
    ensures
        load_result(outcome, data),
{
    match outcome {
        Err(_) => Err(LoadError::UnopenableWorkbook),
        Ok(None) => Err(LoadError::UnknownSheet),
        Ok(Some(Err(_))) => Err(LoadError::UnopenableWorkbook),
        Ok(Some(Ok(range))) => Ok(normalize(&range)),
    }
}

} // verus!
