//! Cells as a sheet holds them, the scalars they are normalized to, and the
//! rule that takes one to the other.

use crate::text::{
    is_blank, is_whitespace, lemma_trimmed_empty_iff_blank, lemma_trimmed_idempotent,
    lemma_trimmed_is_core, lemma_trimmed_keeps_clean, trimmed,
};
use vstd::prelude::*;

verus! {

/// One cell of a sheet, as read.
#[derive(Clone, Debug, PartialEq)]
pub enum SheetCell {
    /// No content.
    Empty,
    /// A formula or application error marker.
    ErrorValue,
    /// A floating-point number, held as its IEEE 754 binary64 bit pattern.
    Number(u64),
    /// An integer.
    Integer(i64),
    /// A truth value.
    Boolean(bool),
    /// Text, as written in the cell.
    Text(String),
}

/// A normalized scalar. The core makes a `Text` only from text that is not
/// empty and neither starts nor ends with whitespace.
#[derive(Clone, Debug, PartialEq)]
pub enum NormalizedValue {
    /// Nothing usable: a blank cell, an error marker, or blank text.
    Null,
    /// A floating-point number, held as its IEEE 754 binary64 bit pattern.
    Number(u64),
    /// An integer.
    Integer(i64),
    /// A truth value.
    Boolean(bool),
    /// Trimmed text.
    Text(String),
}

/// What a [`SheetCell`] holds, with text as a sequence of characters.
pub enum CellModel {
    Empty,
    ErrorValue,
    Number(u64),
    Integer(i64),
    Boolean(bool),
    Text(Seq<char>),
}

/// What a [`NormalizedValue`] holds, with text as a sequence of characters.
pub enum ValueModel {
    Null,
    Number(u64),
    Integer(i64),
    Boolean(bool),
    Text(Seq<char>),
}

impl View for SheetCell {
    type V = CellModel;

    open spec fn view(&self) -> CellModel {
        match self {
            SheetCell::Empty => CellModel::Empty,
            SheetCell::ErrorValue => CellModel::ErrorValue,
            SheetCell::Number(bits) => CellModel::Number(*bits),
            SheetCell::Integer(i) => CellModel::Integer(*i),
            SheetCell::Boolean(b) => CellModel::Boolean(*b),
            SheetCell::Text(s) => CellModel::Text(s@),
        }
    }
}

impl DeepView for SheetCell {
    type V = CellModel;

    open spec fn deep_view(&self) -> CellModel {
        self.view()
    }
}

impl View for NormalizedValue {
    type V = ValueModel;

    open spec fn view(&self) -> ValueModel {
        match self {
            NormalizedValue::Null => ValueModel::Null,
            NormalizedValue::Number(bits) => ValueModel::Number(*bits),
            NormalizedValue::Integer(i) => ValueModel::Integer(*i),
            NormalizedValue::Boolean(b) => ValueModel::Boolean(*b),
            NormalizedValue::Text(s) => ValueModel::Text(s@),
        }
    }
}

impl DeepView for NormalizedValue {
    type V = ValueModel;

    open spec fn deep_view(&self) -> ValueModel {
        self.view()
    }
}

impl ValueModel {
    /// The invariant of normalized values: text is not empty and neither
    /// starts nor ends with whitespace.
    pub open spec fn is_clean(self) -> bool {
        self matches ValueModel::Text(t) ==> t.len() > 0 && !is_whitespace(t.first())
            && !is_whitespace(t.last())
    }

    /// The cell that holds this value: `Null` is the empty cell, every other
    /// value the cell of its own kind.
    pub open spec fn as_cell(self) -> CellModel {
        match self {
            ValueModel::Null => CellModel::Empty,
            ValueModel::Number(bits) => CellModel::Number(bits),
            ValueModel::Integer(i) => CellModel::Integer(i),
            ValueModel::Boolean(b) => CellModel::Boolean(b),
            ValueModel::Text(t) => CellModel::Text(t),
        }
    }
}

/// The normalized value of a cell. Blank cells and error markers carry
/// nothing; numbers, integers and truth values are kept as they are; text is
/// trimmed, and carries nothing where trimming leaves nothing.
pub open spec fn normalized(cell: CellModel) -> ValueModel {
    match cell {
        CellModel::Empty => ValueModel::Null,
        CellModel::ErrorValue => ValueModel::Null,
        CellModel::Number(bits) => ValueModel::Number(bits),
        CellModel::Integer(i) => ValueModel::Integer(i),
        CellModel::Boolean(b) => ValueModel::Boolean(b),
        CellModel::Text(s) => if trimmed(s).len() == 0 {
            ValueModel::Null
        } else {
            ValueModel::Text(trimmed(s))
        },
    }
}

/// Normalizes one cell. Every cell has a value; none is refused.
pub fn normalize_cell(cell: &SheetCell) -> (value: NormalizedValue)
    ensures
        value@ == normalized(cell@),
        value@.is_clean(),
{
    proof {
        lemma_normalized_is_clean(cell@);
    }
    match cell {
        SheetCell::Empty => NormalizedValue::Null,
        SheetCell::ErrorValue => NormalizedValue::Null,
        SheetCell::Number(bits) => NormalizedValue::Number(*bits),
        SheetCell::Integer(i) => NormalizedValue::Integer(*i),
        SheetCell::Boolean(b) => NormalizedValue::Boolean(*b),
        SheetCell::Text(s) => {
            let kept = s.as_str().trim();
            if kept.is_empty() {
                NormalizedValue::Null
            } else {
                NormalizedValue::Text(kept.to_owned())
            }
        },
    }
}

/// Every normalized value meets the invariant: its text, if it is text, is
/// not empty and has no whitespace at either end.
pub proof fn lemma_normalized_is_clean(cell: CellModel)
    ensures
        normalized(cell).is_clean(),
{
    if let CellModel::Text(s) = cell {
        let bounds = lemma_trimmed_is_core(s);
        let t = trimmed(s);
        if t.len() > 0 {
            assert(t.first() == s[bounds.0]);
            assert(t.last() == s[bounds.1 - 1]);
        }
    }
}

/// Text is normalized to `Null` exactly when it is blank: empty, or
/// whitespace throughout.
pub proof fn lemma_blank_text_is_null(s: Seq<char>)
    ensures
        normalized(CellModel::Text(s)) is Null <==> is_blank(s),
{
    lemma_trimmed_empty_iff_blank(s);
}

/// Text that is not empty and has no whitespace at either end is kept
/// unchanged.
pub proof fn lemma_clean_text_is_kept(s: Seq<char>)
    requires
        s.len() > 0,
        !is_whitespace(s.first()),
        !is_whitespace(s.last()),
    ensures
        normalized(CellModel::Text(s)) == ValueModel::Text(s),
{
    lemma_trimmed_keeps_clean(s);
}

/// Normalizing is idempotent: a value put back into a cell is normalized to
/// itself.
pub proof fn lemma_normalized_idempotent(cell: CellModel)
    ensures
        normalized(normalized(cell).as_cell()) == normalized(cell),
{
    if let CellModel::Text(s) = cell {
        lemma_trimmed_idempotent(s);
    }
}

} // verus!
