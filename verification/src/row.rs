//! Rows of a reply: named cells in the order the database sent them.

use crate::value::{Value, ValueView};
use vstd::prelude::*;

verus! {

/// One column of one row: the column's name and the value under it.
#[derive(Debug, Clone, PartialEq, Eq)]
pub struct Cell {
    pub column: String,
    pub value: Value,
}

/// What a [`Cell`] is, as mathematics.
pub struct CellView {
    pub column: Seq<char>,
    pub value: ValueView,
}

impl View for Cell {
    type V = CellView;

    open spec fn view(&self) -> CellView {
        CellView { column: self.column@, value: self.value@ }
    }
}

/// One row of a reply. Nothing is asked of the cells: names may repeat or be missing, and
/// any value may stand under any name.
#[derive(Debug, Clone, PartialEq, Eq)]
pub struct Row {
    pub cells: Vec<Cell>,
}

impl View for Row {
    type V = Seq<CellView>;

    open spec fn view(&self) -> Seq<CellView> {
        self.cells@.map_values(|c: Cell| c@)
    }
}

/// Cell `i` of `row` exists and is named `name`.
pub open spec fn named(row: Seq<CellView>, i: int, name: Seq<char>) -> bool {
    0 <= i < row.len() && row[i].column == name
}

/// No cell of `row` is named `name`.
pub open spec fn absent(row: Seq<CellView>, name: Seq<char>) -> bool {
    forall|i: int| !named(row, i, name)
}

/// Two different cells of `row` are named `name`.
pub open spec fn repeated(row: Seq<CellView>, name: Seq<char>) -> bool {
    exists|i: int, j: int| i != j && named(row, i, name) && named(row, j, name)
}

/// Cell `i` of `row` is named `name`, and it is the only one.
pub open spec fn only_at(row: Seq<CellView>, i: int, name: Seq<char>) -> bool {
    named(row, i, name) && forall|j: int| named(row, j, name) ==> j == i
}

/// Where a name stands in a row.
#[derive(Debug, Clone, Copy, PartialEq, Eq)]
pub enum Place {
    /// No cell has the name.
    Absent,
    /// Exactly one cell has the name: the one at this index.
    At(usize),
    /// More than one cell has the name.
    Repeated,
}

impl Row {
    /// Finds the cells named `name`.
    pub fn find(&self, name: &str) -> (place: Place)
        ensures
            place is Absent <==> absent(self@, name@),
            place is Repeated <==> repeated(self@, name@),
            place matches Place::At(i) ==> only_at(self@, i as int, name@),
    {
        let wanted = name.to_owned();
        let mut place = Place::Absent;
        let mut i: usize = 0;
        while i < self.cells.len()
            invariant
                0 <= i <= self.cells.len(),
                wanted@ == name@,
                match place {
                    Place::Absent => forall|j: int| 0 <= j < i ==> !named(self@, j, name@),
                    Place::At(k) => k < i && named(self@, k as int, name@) && forall|j: int|
                        0 <= j < i && named(self@, j, name@) ==> j == k,
                    Place::Repeated => false,
                },
            decreases self.cells.len() - i,
        {
            if self.cells[i].column == wanted {
                match place {
                    Place::Absent => {
                        place = Place::At(i);
                    },
                    Place::At(k) => {
                        assert(named(self@, k as int, name@) && named(self@, i as int, name@));
                        return Place::Repeated;
                    },
                    Place::Repeated => {},
                }
            }
            i += 1;
        }
        place
    }
}

} // verus!
