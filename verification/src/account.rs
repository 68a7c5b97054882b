//! Accounts, and how a row of the `accounts` table is read as one.

use crate::error::DecodeError;
use crate::row::{absent, named, repeated, CellView, Place, Row};
use crate::value::{Value, ValueView};
use vstd::prelude::*;

verus! {

/// A column of the `accounts` table.
#[derive(Debug, Clone, Copy, PartialEq, Eq)]
pub enum Column {
    Id,
    TursoDbName,
    ClerkOrgId,
}

impl Column {
    /// The column's name in the table, as mathematics.
    pub open spec fn spec_name(self) -> Seq<char> {
        match self {
            Column::Id => "id"@,
            Column::TursoDbName => "turso_db_name"@,
            Column::ClerkOrgId => "clerk_org_id"@,
        }
    }

    /// The column's name in the table.
    pub fn name(self) -> (name: &'static str)
        ensures
            name@ == self.spec_name(),
    {
        match self {
            Column::Id => "id",
            Column::TursoDbName => "turso_db_name",
            Column::ClerkOrgId => "clerk_org_id",
        }
    }
}

/// No two columns of the table have the same name.
pub proof fn lemma_names_differ()
    ensures
        forall|a: Column, b: Column| a.spec_name() == b.spec_name() ==> a == b,
{
    reveal_strlit("id");
    reveal_strlit("turso_db_name");
    reveal_strlit("clerk_org_id");
    assert(Column::Id.spec_name().len() == 2);
    assert(Column::TursoDbName.spec_name().len() == 13);
    assert(Column::ClerkOrgId.spec_name().len() == 12);
}

/// An account: its identifier, the name of its database, and the organization that it
/// belongs to, if it is not a personal account.
#[derive(Debug, Clone, PartialEq, Eq)]
pub struct Account {
    pub id: String,
    pub turso_db_name: String,
    pub clerk_org_id: Option<String>,
}

/// What an [`Account`] is, as mathematics.
pub struct AccountView {
    pub id: Seq<char>,
    pub turso_db_name: Seq<char>,
    pub clerk_org_id: Option<Seq<char>>,
}

impl View for Account {
    type V = AccountView;

    open spec fn view(&self) -> AccountView {
        AccountView {
            id: self.id@,
            turso_db_name: self.turso_db_name@,
            clerk_org_id: match self.clerk_org_id {
                Some(org) => Some(org@),
                None => None,
            },
        }
    }
}

/// The index of a cell of `row` named `name`, where there is one.
pub open spec fn position(row: Seq<CellView>, name: Seq<char>) -> int {
    choose|i: int| named(row, i, name)
}

/// The text that `row` holds in a column that cannot be left out and holds no null.
pub open spec fn required_text(row: Seq<CellView>, column: Column) -> Result<
    Seq<char>,
    DecodeError,
> {
    let name = column.spec_name();
    if absent(row, name) {
        Err(DecodeError::MissingColumn(column))
    } else if repeated(row, name) {
        Err(DecodeError::DuplicateColumn(column))
    } else {
        match row[position(row, name)].value {
            ValueView::Text(s) => Ok(s),
            _ => Err(DecodeError::WrongType(column)),
        }
    }
}

/// The text that `row` holds in a column that may hold a null: no text where the column
/// is left out or holds a null.
pub open spec fn optional_text(row: Seq<CellView>, column: Column) -> Result<
    Option<Seq<char>>,
    DecodeError,
> {
    let name = column.spec_name();
    if absent(row, name) {
        Ok(None)
    } else if repeated(row, name) {
        Err(DecodeError::DuplicateColumn(column))
    } else {
        match row[position(row, name)].value {
            ValueView::Null => Ok(None),
            ValueView::Text(s) => Ok(Some(s)),
            _ => Err(DecodeError::WrongType(column)),
        }
    }
}

/// The account that `row` holds. The columns are found by name, in any order, and cells
/// under other names are passed over. Where several columns are at fault, the error is
/// that of the first of them in the order `id`, `turso_db_name`, `clerk_org_id`.
pub open spec fn decode_account(row: Seq<CellView>) -> Result<AccountView, DecodeError> {
    match required_text(row, Column::Id) {
        Err(e) => Err(e),
        Ok(id) => match required_text(row, Column::TursoDbName) {
            Err(e) => Err(e),
            Ok(turso_db_name) => match optional_text(row, Column::ClerkOrgId) {
                Err(e) => Err(e),
                Ok(clerk_org_id) => Ok(AccountView { id, turso_db_name, clerk_org_id }),
            },
        },
    }
}

/// `got` is `want`, with the account taken by its view.
pub open spec fn decoded_as(
    got: Result<Account, DecodeError>,
    want: Result<AccountView, DecodeError>,
) -> bool {
    match got {
        Ok(account) => want == Ok::<AccountView, DecodeError>(account@),
        Err(e) => want == Err::<AccountView, DecodeError>(e),
    }
}

fn read_required_text(row: &Row, column: Column) -> (r: Result<String, DecodeError>)
    ensures
        match r {
            Ok(s) => required_text(row@, column) == Ok::<Seq<char>, DecodeError>(s@),
            Err(e) => required_text(row@, column) == Err::<Seq<char>, DecodeError>(e),
        },
{
    let name = column.name();
    match row.find(name) {
        Place::Absent => Err(DecodeError::MissingColumn(column)),
        Place::Repeated => Err(DecodeError::DuplicateColumn(column)),
        Place::At(i) => {
            assert(named(row@, i as int, name@));
            match &row.cells[i].value {
                Value::Text(s) => Ok(s.clone()),
                _ => Err(DecodeError::WrongType(column)),
            }
        },
    }
}

fn read_optional_text(row: &Row, column: Column) -> (r: Result<Option<String>, DecodeError>)
    ensures
        match r {
            Ok(Some(s)) => optional_text(row@, column) == Ok::<Option<Seq<char>>, DecodeError>(
                Some(s@),
            ),
            Ok(None) => optional_text(row@, column) == Ok::<Option<Seq<char>>, DecodeError>(None),
            Err(e) => optional_text(row@, column) == Err::<Option<Seq<char>>, DecodeError>(e),
        },
{
    let name = column.name();
    match row.find(name) {
        Place::Absent => Ok(None),
        Place::Repeated => Err(DecodeError::DuplicateColumn(column)),
        Place::At(i) => {
            assert(named(row@, i as int, name@));
            match &row.cells[i].value {
                Value::Null => Ok(None),
                Value::Text(s) => Ok(Some(s.clone())),
                _ => Err(DecodeError::WrongType(column)),
            }
        },
    }
}

impl Account {
    /// Reads `row` as an account.
    pub fn from_row(row: &Row) -> (r: Result<Account, DecodeError>)
        ensures
            decoded_as(r, decode_account(row@)),
    {
        let id = match read_required_text(row, Column::Id) {
            Ok(id) => id,
            Err(e) => { return Err(e); },
        };
        let turso_db_name = match read_required_text(row, Column::TursoDbName) {
            Ok(name) => name,
            Err(e) => { return Err(e); },
        };
        let clerk_org_id = match read_optional_text(row, Column::ClerkOrgId) {
            Ok(org) => org,
            Err(e) => { return Err(e); },
        };
        Ok(Account { id, turso_db_name, clerk_org_id })
    }
}


/// Whether `name` is the name of a column of the table.
pub open spec fn is_column_name(name: Seq<char>) -> bool {
    exists|column: Column| column.spec_name() == name
}

/// `row` with the cells at `i` and `j` exchanged.
pub open spec fn exchanged(row: Seq<CellView>, i: int, j: int) -> Seq<CellView> {
    row.update(i, row[j]).update(j, row[i])
}

/// The index that `k` goes to when `i` and `j` are exchanged.
spec fn exchange(i: int, j: int, k: int) -> int {
    if k == i {
        j
    } else if k == j {
        i
    } else {
        k
    }
}

/// Exchanging two cells leaves a name as often in the row as it was, and a name that
/// stands once over the same value.
proof fn lemma_exchange_keeps_name(row: Seq<CellView>, i: int, j: int, name: Seq<char>)
    requires
        0 <= i < row.len(),
        0 <= j < row.len(),
    ensures
        absent(exchanged(row, i, j), name) == absent(row, name),
        repeated(exchanged(row, i, j), name) == repeated(row, name),
        !absent(row, name) && !repeated(row, name) ==> exchanged(row, i, j)[position(
            exchanged(row, i, j),
            name,
        )] == row[position(row, name)],
{
    let other = exchanged(row, i, j);
    assert forall|k: int| named(other, k, name) == named(row, exchange(i, j, k), name) by {}
    assert forall|k: int| named(row, k, name) == named(other, exchange(i, j, k), name) by {}
    if !absent(row, name) {
        let k = choose|k: int| named(row, k, name);
        assert(named(other, exchange(i, j, k), name));
    }
    if !absent(other, name) {
        let k = choose|k: int| named(other, k, name);
        assert(named(row, exchange(i, j, k), name));
    }
    if repeated(row, name) {
        let (a, b) = choose|a: int, b: int| a != b && named(row, a, name) && named(row, b, name);
        assert(named(other, exchange(i, j, a), name) && named(other, exchange(i, j, b), name));
    }
    if repeated(other, name) {
        let (a, b) = choose|a: int, b: int|
            a != b && named(other, a, name) && named(other, b, name);
        assert(named(row, exchange(i, j, a), name) && named(row, exchange(i, j, b), name));
    }
    if !absent(row, name) && !repeated(row, name) {
        let p = position(row, name);
        let q = position(other, name);
        assert(named(row, p, name));
        assert(named(other, q, name));
        assert(named(row, exchange(i, j, q), name));
        assert(exchange(i, j, q) == p);
    }
}

/// The order of the cells is free: a row whose cells at `i` and `j` are exchanged is read
/// as the row itself is.
pub proof fn lemma_order_is_free(row: Seq<CellView>, i: int, j: int)
    requires
        0 <= i < row.len(),
        0 <= j < row.len(),
    ensures
        decode_account(exchanged(row, i, j)) == decode_account(row),
{
    lemma_exchange_keeps_name(row, i, j, Column::Id.spec_name());
    lemma_exchange_keeps_name(row, i, j, Column::TursoDbName.spec_name());
    lemma_exchange_keeps_name(row, i, j, Column::ClerkOrgId.spec_name());
}

/// A cell under another name, put into the row at `k`, leaves a column's name as often
/// in the row as it was, and a name that stands once over the same value.
proof fn lemma_insert_keeps_name(row: Seq<CellView>, k: int, cell: CellView, name: Seq<char>)
    requires
        0 <= k <= row.len(),
        cell.column != name,
    ensures
        absent(row.insert(k, cell), name) == absent(row, name),
        repeated(row.insert(k, cell), name) == repeated(row, name),
        !absent(row, name) && !repeated(row, name) ==> row.insert(k, cell)[position(
            row.insert(k, cell),
            name,
        )] == row[position(row, name)],
{
    let other = row.insert(k, cell);
    let up = |m: int| if m < k { m } else { m + 1 };
    let down = |m: int| if m < k { m } else { m - 1 };
    assert forall|m: int| named(row, m, name) implies named(other, up(m), name) by {}
    assert forall|m: int| named(other, m, name) implies named(row, down(m), name) && up(down(m))
        == m by {}
    if !absent(row, name) {
        let m = choose|m: int| named(row, m, name);
        assert(named(other, up(m), name));
    }
    if !absent(other, name) {
        let m = choose|m: int| named(other, m, name);
        assert(named(row, down(m), name));
    }
    if repeated(row, name) {
        let (a, b) = choose|a: int, b: int| a != b && named(row, a, name) && named(row, b, name);
        assert(named(other, up(a), name) && named(other, up(b), name));
    }
    if repeated(other, name) {
        let (a, b) = choose|a: int, b: int|
            a != b && named(other, a, name) && named(other, b, name);
        assert(named(row, down(a), name) && named(row, down(b), name));
    }
    if !absent(row, name) && !repeated(row, name) {
        let p = position(row, name);
        let q = position(other, name);
        assert(named(row, p, name));
        assert(named(other, q, name));
        assert(named(row, down(q), name));
        assert(down(q) == p);
    }
}

/// Cells under other names are passed over: a row that has taken in, at `k`, a cell that
/// is named like no column of the table is read as the row without it.
pub proof fn lemma_other_cells_are_passed_over(row: Seq<CellView>, k: int, cell: CellView)
    requires
        0 <= k <= row.len(),
        !is_column_name(cell.column),
    ensures
        decode_account(row.insert(k, cell)) == decode_account(row),
{
    assert(Column::Id.spec_name() != cell.column);
    assert(Column::TursoDbName.spec_name() != cell.column);
    assert(Column::ClerkOrgId.spec_name() != cell.column);
    lemma_insert_keeps_name(row, k, cell, Column::Id.spec_name());
    lemma_insert_keeps_name(row, k, cell, Column::TursoDbName.spec_name());
    lemma_insert_keeps_name(row, k, cell, Column::ClerkOrgId.spec_name());
}

} // verus!
