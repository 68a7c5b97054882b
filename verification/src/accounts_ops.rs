//! The operations on accounts. Each one is a statement for the driver to run and a way to
//! read what the driver gave for it; running the statement is the caller's part.

use crate::account::{decode_account, lemma_names_differ, Account, AccountView, Column};
use crate::error::{DecodeError, Error};
use crate::reply::{
    decode_all, first_unread, inserted, listed, looked_up, reads, reads_before, views, Reply,
    ReplyView,
};
use crate::row::{named, CellView};
use crate::statement::{
    Statement, StatementView, INSERT, SELECT_ALL, SELECT_BY_CLERK_ORG_ID,
    SELECT_BY_CLERK_USER_ID, SELECT_BY_ID, SELECT_PERSONAL_BY_CLERK_USER_ID,
};
use crate::value::{bound_text, Value, ValueView};
use vstd::prelude::*;

verus! {

/// The accounts of an administrative database, as statements and the reading of their
/// replies.
#[derive(Debug, Clone, Copy, PartialEq, Eq)]
pub struct AdminDatabase;

impl AdminDatabase {
    /// Every account, in the order in which the table gives them.
    pub fn list_accounts(&self) -> (pending: Listing)
        ensures
            pending.statement@ == (StatementView { sql: SELECT_ALL@, params: seq![] }),
    {
        Listing { statement: Statement::bare(SELECT_ALL) }
    }

    /// Stores `organization` as a new row and gives back the row as the table holds it.
    /// This inserts and never replaces: the table refuses an identifier, or an
    /// organization, that it already holds, and the driver reports that.
    pub fn upsert_account(&self, organization: Account) -> (pending: Insertion)
        ensures
            pending.statement@ == (StatementView {
                sql: INSERT@,
                params: insert_params(organization@),
            }),
    {
        let Account { id, turso_db_name, clerk_org_id } = organization;
        let mut params = Vec::new();
        params.push(Value::Text(id));
        params.push(Value::Text(turso_db_name));
        params.push(Value::nullable_text(clerk_org_id));
        let statement = Statement { sql: INSERT, params };
        assert(statement@.params =~= insert_params(organization@));
        Insertion { statement }
    }

    /// The account with the identifier `id`, if there is one.
    pub fn get_account_by_id(&self, id: &str) -> (pending: Lookup)
        ensures
            pending.statement@ == (StatementView {
                sql: SELECT_BY_ID@,
                params: seq![ValueView::Text(id@)],
            }),
    {
        Lookup { statement: Statement::keyed(SELECT_BY_ID, id) }
    }

    /// The account of the organization `clerk_org_id`, if there is one.
    pub fn get_account_by_clerk_org_id(&self, clerk_org_id: &str) -> (pending: Lookup)
        ensures
            pending.statement@ == (StatementView {
                sql: SELECT_BY_CLERK_ORG_ID@,
                params: seq![ValueView::Text(clerk_org_id@)],
            }),
    {
        Lookup { statement: Statement::keyed(SELECT_BY_CLERK_ORG_ID, clerk_org_id) }
    }

    /// The personal account of the user `clerk_user_id`: an account that the user belongs
    /// to and that has no organization, if there is one.
    pub fn get_account_by_clerk_user_id(&self, clerk_user_id: &str) -> (pending: Lookup)
        ensures
            pending.statement@ == (StatementView {
                sql: SELECT_PERSONAL_BY_CLERK_USER_ID@,
                params: seq![ValueView::Text(clerk_user_id@)],
            }),
    {
        Lookup { statement: Statement::keyed(SELECT_PERSONAL_BY_CLERK_USER_ID, clerk_user_id) }
    }

    /// Every account that the user `user_id` belongs to, personal or of an organization.
    pub fn list_accounts_by_clerk_user_id(&self, user_id: &str) -> (pending: Listing)
        ensures
            pending.statement@ == (StatementView {
                sql: SELECT_BY_CLERK_USER_ID@,
                params: seq![ValueView::Text(user_id@)],
            }),
    {
        Listing { statement: Statement::keyed(SELECT_BY_CLERK_USER_ID, user_id) }
    }
}

/// The values that an insertion binds for `account`, in the order of the statement's
/// placeholders: identifier, database name, organization.
pub open spec fn insert_params(account: AccountView) -> Seq<ValueView> {
    seq![
        ValueView::Text(account.id),
        ValueView::Text(account.turso_db_name),
        bound_text(account.clerk_org_id),
    ]
}

/// A statement whose reply is read as a list of accounts.
#[derive(Debug, Clone, PartialEq, Eq)]
pub struct Listing {
    pub statement: Statement,
}

/// A statement whose reply is read as one account or none. Only the first row of the
/// reply is read, so no more than one need be fetched.
#[derive(Debug, Clone, PartialEq, Eq)]
pub struct Lookup {
    pub statement: Statement,
}

/// A statement whose reply is read as the account that it stored. Only the first row of
/// the reply is read, so no more than one need be fetched.
#[derive(Debug, Clone, PartialEq, Eq)]
pub struct Insertion {
    pub statement: Statement,
}

impl Listing {
    /// Reads what the driver gave for the statement. Every row is read as an account, in
    /// order, and the first row that holds none fails the listing. After rows that all
    /// hold one, the driver's failure is handed on as it came. A reply without rows and
    /// without failure is an empty list.
    pub fn finish<E>(self, reply: Reply<E>) -> (r: Result<Vec<Account>, Error<E>>)
        ensures
            match r {
                Ok(accounts) => listed(reply@) == Ok::<Seq<AccountView>, Error<E>>(
                    views(accounts@),
                ),
                Err(e) => listed(reply@) == Err::<Seq<AccountView>, Error<E>>(e),
            },
            reply@.rows.len() == 0 && reply@.failure is None ==> r is Ok && r->Ok_0@.len() == 0,
    {
        let ghost all = reply@.rows;
        let mut accounts: Vec<Account> = Vec::new();
        let mut i: usize = 0;
        while i < reply.rows.len()
            invariant
                0 <= i <= reply.rows.len(),
                all == reply@.rows,
                accounts.len() == i,
                forall|j: int|
                    0 <= j < i ==> decode_account(all[j]) == Ok::<AccountView, DecodeError>(
                        #[trigger] accounts[j]@,
                    ),
            decreases reply.rows.len() - i,
        {
            match Account::from_row(&reply.rows[i]) {
                Ok(account) => {
                    accounts.push(account);
                },
                Err(e) => {
                    proof {
                        assert(all[i as int] == reply.rows[i as int]@);
                        assert forall|j: int| 0 <= j < i implies reads(all, j) by {
                            let _ = accounts[j]@;
                        }
                        assert(first_unread(all, i as int));
                        let k = choose|k: int| first_unread(all, k);
                        assert(k == i) by {
                            if k < i {
                                assert(reads(all, k));
                            } else if k > i {
                                assert(reads(all, i as int));
                            }
                        }
                    }
                    return Err(Error::Decode(e));
                },
            }
            i += 1;
        }
        proof {
            assert forall|j: int| 0 <= j < all.len() implies reads(all, j) by {
                let _ = accounts[j]@;
            }
            assert(views(accounts@) =~= decode_all(all)->Ok_0);
        }
        match reply.failure {
            Some(e) => Err(Error::Driver(e)),
            None => Ok(accounts),
        }
    }
}

impl Lookup {
    /// Reads what the driver gave for the statement. A first row is read as the account.
    /// Where no row came, the driver's failure is handed on as it came, and without one
    /// there is no account, which is no error.
    pub fn finish<E>(self, reply: Reply<E>) -> (r: Result<Option<Account>, Error<E>>)
        ensures
            match r {
                Ok(Some(account)) => looked_up(reply@) == Ok::<Option<AccountView>, Error<E>>(
                    Some(account@),
                ),
                Ok(None) => looked_up(reply@) == Ok::<Option<AccountView>, Error<E>>(None),
                Err(e) => looked_up(reply@) == Err::<Option<AccountView>, Error<E>>(e),
            },
    {
        match reply.into_first_row() {
            Err(e) => Err(Error::Driver(e)),
            Ok(None) => Ok(None),
            Ok(Some(row)) => match Account::from_row(&row) {
                Ok(account) => Ok(Some(account)),
                Err(e) => Err(Error::Decode(e)),
            },
        }
    }
}

impl Insertion {
    /// Reads what the driver gave for the statement. A first row is read as the account
    /// that was stored. Where no row came, the driver's failure is handed on as it came,
    /// and without one the missing row is the error.
    pub fn finish<E>(self, reply: Reply<E>) -> (r: Result<Account, Error<E>>)
        ensures
            match r {
                Ok(account) => inserted(reply@) == Ok::<AccountView, Error<E>>(account@),
                Err(e) => inserted(reply@) == Err::<AccountView, Error<E>>(e),
            },
    {
        match reply.into_first_row() {
            Err(e) => Err(Error::Driver(e)),
            Ok(None) => Err(Error::Decode(DecodeError::NoRow)),
            Ok(Some(row)) => match Account::from_row(&row) {
                Ok(account) => Ok(account),
                Err(e) => Err(Error::Decode(e)),
            },
        }
    }
}

/// The row in which the table hands out what an insertion bound: the values of `params`,
/// each under the name of the column that it was bound for.
pub open spec fn stored_row(params: Seq<ValueView>) -> Seq<CellView> {
    seq![
        CellView { column: Column::Id.spec_name(), value: params[0] },
        CellView { column: Column::TursoDbName.spec_name(), value: params[1] },
        CellView { column: Column::ClerkOrgId.spec_name(), value: params[2] },
    ]
}

/// The reply that holds the one row `row` and no failure.
pub open spec fn one_row<E>(row: Seq<CellView>) -> ReplyView<E> {
    ReplyView { rows: seq![row], failure: None }
}

/// Round trip: the row that holds what `upsert_account` bound for `account` is read back
/// as `account` itself, whether it answers the insertion or a lookup.
pub proof fn lemma_stored_account_reads_back<E>(account: AccountView)
    ensures
        decode_account(stored_row(insert_params(account))) == Ok::<AccountView, DecodeError>(
            account,
        ),
        inserted(one_row::<E>(stored_row(insert_params(account)))) == Ok::<
            AccountView,
            Error<E>,
        >(account),
        looked_up(one_row::<E>(stored_row(insert_params(account)))) == Ok::<
            Option<AccountView>,
            Error<E>,
        >(Some(account)),
{
    let row = stored_row(insert_params(account));
    lemma_names_differ();
    assert(named(row, 0, Column::Id.spec_name()));
    assert(named(row, 1, Column::TursoDbName.spec_name()));
    assert(named(row, 2, Column::ClerkOrgId.spec_name()));
}

/// The reply that holds, for each of `accounts` in order, the row in which the table
/// hands it out, and no failure.
pub open spec fn stored_rows<E>(accounts: Seq<AccountView>) -> ReplyView<E> {
    ReplyView {
        rows: Seq::new(accounts.len(), |i: int| stored_row(insert_params(accounts[i]))),
        failure: None,
    }
}

/// Round trip of a list: a listing that is answered with the rows of `accounts` gives
/// `accounts` themselves, as many and in the same order.
pub proof fn lemma_stored_accounts_list_back<E>(accounts: Seq<AccountView>)
    ensures
        listed(stored_rows::<E>(accounts)) == Ok::<Seq<AccountView>, Error<E>>(accounts),
{
    let rows = stored_rows::<E>(accounts).rows;
    assert forall|i: int| 0 <= i < rows.len() implies decode_account(rows[i]) == Ok::<
        AccountView,
        DecodeError,
    >(accounts[i]) by {
        lemma_stored_account_reads_back::<E>(accounts[i]);
    }
    assert(reads_before(rows, rows.len() as int)) by {
        assert forall|i: int| 0 <= i < rows.len() implies reads(rows, i) by {}
    }
    assert(decode_all(rows)->Ok_0 =~= accounts);
}

} // verus!
