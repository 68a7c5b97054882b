//! The ways an operation on the accounts tables can fail.

use crate::account::Column;
use vstd::prelude::*;

verus! {

/// Why a reply could not be read as accounts.
#[derive(Debug, Clone, Copy, PartialEq, Eq)]
pub enum DecodeError {
    /// The statement was to return a row and returned none.
    NoRow,
    /// No cell of the row has the column's name, and the column cannot be left out.
    MissingColumn(Column),
    /// More than one cell of the row has the column's name.
    DuplicateColumn(Column),
    /// The value under the column's name is of a storage class that the column cannot hold.
    WrongType(Column),
}

/// Why an operation failed: the driver failed it, or its reply could not be read.
///
/// `E` is the driver's own error, handed on as it came.
#[derive(Debug, Clone, PartialEq, Eq)]
pub enum Error<E> {
    Driver(E),
    Decode(DecodeError),
}

} // verus!
