//! Raw rows and cells, as an executor hands them over.

use vstd::prelude::*;

verus! {

/// What a raw cell holds, as a mathematical value.
pub enum CellValue {
    /// The null marker.
    Null,
    /// A value of the integer wire type.
    Integer(int),
    /// A value of the text wire type.
    Text(Seq<char>),
}

/// One column value of one returned row, before decoding.
#[derive(Clone, Debug, PartialEq, Eq)]
pub enum RawCell {
    /// The null marker.
    Null,
    /// A value of the integer wire type.
    Integer(i64),
    /// A value of the text wire type.
    Text(String),
}

impl View for RawCell {
    type V = CellValue;

    open spec fn view(&self) -> CellValue {
        match *self {
            RawCell::Null => CellValue::Null,
            RawCell::Integer(n) => CellValue::Integer(n as int),
            RawCell::Text(s) => CellValue::Text(s@),
        }
    }
}

/// One returned row: its cells in column order.
#[derive(Clone, Debug, PartialEq, Eq)]
pub struct RawRow {
    pub cells: Vec<RawCell>,
}

impl View for RawRow {
    type V = Seq<CellValue>;

    open spec fn view(&self) -> Seq<CellValue> {
        Seq::new(self.cells@.len(), |i: int| self.cells@[i]@)
    }
}

/// The rows of a response as mathematical values, in the order received.
pub open spec fn rows_view(rows: Seq<RawRow>) -> Seq<Seq<CellValue>> {
    Seq::new(rows.len(), |i: int| rows[i]@)
}

impl RawRow {
    /// A row of the given cells.
    pub fn new(cells: Vec<RawCell>) -> (row: RawRow)
        ensures
            row.cells == cells,
    {
        RawRow { cells }
    }

    /// The number of columns.
    pub fn len(&self) -> (n: usize)
        ensures
            n == self@.len(),
    {
        self.cells.len()
    }

    /// The cell of column 0, if the row has one.
    pub fn first(&self) -> (cell: Option<&RawCell>)
        ensures
            match cell {
                Some(c) => self@.len() > 0 && c@ == self@[0],
                None => self@.len() == 0,
            },
    {
        if self.cells.len() > 0 {
            Some(&self.cells[0])
        } else {
            None
        }
    }
}

} // verus!
