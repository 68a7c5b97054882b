//! Replies: what came out of the driver for one statement, and what it means when it is
//! read as accounts.

use crate::account::{decode_account, Account, AccountView};
use crate::error::{DecodeError, Error};
use crate::row::{CellView, Row};
use vstd::prelude::*;

verus! {

/// What the driver gave for one statement: the rows that came, in the order in which they
/// came, and the error that cut them short, if one did. A statement that the driver could
/// not even start has no rows and a failure.
///
/// `E` is the driver's own error.
#[derive(Debug, Clone, PartialEq, Eq)]
pub struct Reply<E> {
    pub rows: Vec<Row>,
    pub failure: Option<E>,
}

/// What a [`Reply`] is, as mathematics.
pub struct ReplyView<E> {
    pub rows: Seq<Seq<CellView>>,
    pub failure: Option<E>,
}

impl<E> View for Reply<E> {
    type V = ReplyView<E>;

    open spec fn view(&self) -> ReplyView<E> {
        ReplyView { rows: self.rows@.map_values(|row: Row| row@), failure: self.failure }
    }
}

/// The views of `accounts`, in the same order.
pub open spec fn views(accounts: Seq<Account>) -> Seq<AccountView> {
    accounts.map_values(|account: Account| account@)
}

/// Row `i` of `rows` holds an account.
pub open spec fn reads(rows: Seq<Seq<CellView>>, i: int) -> bool {
    decode_account(rows[i]) is Ok
}

/// Each of the first `n` rows holds an account.
pub open spec fn reads_before(rows: Seq<Seq<CellView>>, n: int) -> bool {
    forall|i: int| 0 <= i < n ==> reads(rows, i)
}

/// Row `i` of `rows` is the first that holds no account.
pub open spec fn first_unread(rows: Seq<Seq<CellView>>, i: int) -> bool {
    0 <= i < rows.len() && reads_before(rows, i) && !reads(rows, i)
}

/// The accounts that `rows` hold, row by row, or what is wrong with the first row that
/// holds none.
pub open spec fn decode_all(rows: Seq<Seq<CellView>>) -> Result<Seq<AccountView>, DecodeError> {
    if reads_before(rows, rows.len() as int) {
        Ok(Seq::new(rows.len(), |i: int| decode_account(rows[i])->Ok_0))
    } else {
        Err(decode_account(rows[choose|i: int| first_unread(rows, i)])->Err_0)
    }
}

/// What taking one row from the reply gives: the first row, or none at the end of a reply
/// without rows, or the failure that left the reply without rows.
pub open spec fn first_row<E>(reply: ReplyView<E>) -> Result<Option<Seq<CellView>>, E> {
    if reply.rows.len() > 0 {
        Ok(Some(reply.rows[0]))
    } else {
        match reply.failure {
            Some(e) => Err(e),
            None => Ok(None),
        }
    }
}

/// A reply read as a list: every row's account, in the order of the rows. A row that holds
/// no account fails the list, and so does the driver's failure after rows that all hold
/// one.
pub open spec fn listed<E>(reply: ReplyView<E>) -> Result<Seq<AccountView>, Error<E>> {
    match decode_all(reply.rows) {
        Err(e) => Err(Error::Decode(e)),
        Ok(accounts) => match reply.failure {
            Some(e) => Err(Error::Driver(e)),
            None => Ok(accounts),
        },
    }
}

/// A reply read as one account or none: the first row's account, and none where the reply
/// ends without a row. Nothing after the first row is looked at.
pub open spec fn looked_up<E>(reply: ReplyView<E>) -> Result<Option<AccountView>, Error<E>> {
    match first_row(reply) {
        Err(e) => Err(Error::Driver(e)),
        Ok(None) => Ok(None),
        Ok(Some(row)) => match decode_account(row) {
            Ok(account) => Ok(Some(account)),
            Err(e) => Err(Error::Decode(e)),
        },
    }
}

/// A reply read as the account that a statement stored: the first row's account. A reply
/// that ends without a row is an error. Nothing after the first row is looked at.
pub open spec fn inserted<E>(reply: ReplyView<E>) -> Result<AccountView, Error<E>> {
    match first_row(reply) {
        Err(e) => Err(Error::Driver(e)),
        Ok(None) => Err(Error::Decode(DecodeError::NoRow)),
        Ok(Some(row)) => match decode_account(row) {
            Ok(account) => Ok(account),
            Err(e) => Err(Error::Decode(e)),
        },
    }
}

impl<E> Reply<E> {
    /// Takes what one request for a row gives: the first row, or none at the end of a
    /// reply without rows, or the failure that left the reply without rows.
    pub fn into_first_row(self) -> (r: Result<Option<Row>, E>)
        ensures
            match r {
                Ok(Some(row)) => first_row(self@) == Ok::<Option<Seq<CellView>>, E>(Some(row@)),
                Ok(None) => first_row(self@) == Ok::<Option<Seq<CellView>>, E>(None),
                Err(e) => first_row(self@) == Err::<Option<Seq<CellView>>, E>(e),
            },
    {
        let Reply { mut rows, failure } = self;
        if rows.len() > 0 {
            let row = rows.swap_remove(0);
            Ok(Some(row))
        } else {
            match failure {
                Some(e) => Err(e),
                None => Ok(None),
            }
        }
    }
}

} // verus!
