//! Statements: a text with positional placeholders and the values bound to them.

use crate::value::{Value, ValueView};
use vstd::prelude::*;

verus! {

/// Every account.
pub const SELECT_ALL: &'static str = "SELECT * FROM accounts";

/// A new account from its three columns, given back as the table holds it. The text has
/// no conflict clause: where the table already holds the identifier, or the organization,
/// the table refuses the row.
pub const INSERT: &'static str =
    "INSERT INTO accounts (id, turso_db_name, clerk_org_id) VALUES (?, ?, ?) RETURNING *";

/// The account with a given identifier.
pub const SELECT_BY_ID: &'static str = "SELECT * FROM accounts WHERE id = ?";

/// The account of a given organization.
pub const SELECT_BY_CLERK_ORG_ID: &'static str = "SELECT * FROM accounts WHERE clerk_org_id = ?";

/// The accounts without an organization to which a user with a given external identifier
/// belongs.
pub const SELECT_PERSONAL_BY_CLERK_USER_ID: &'static str =
    "SELECT o.* FROM accounts o INNER JOIN users u ON u.account_id = o.id WHERE u.clerk_user_id = ? AND o.clerk_org_id IS NULL";

/// The accounts to which a user with a given external identifier belongs.
pub const SELECT_BY_CLERK_USER_ID: &'static str =
    "SELECT o.* FROM accounts o INNER JOIN users u ON u.account_id = o.id WHERE u.clerk_user_id = ?";

/// A statement as it is handed to the driver: the text, and one value for each `?` in it,
/// in the order in which they stand.
#[derive(Debug, Clone, PartialEq, Eq)]
pub struct Statement {
    pub sql: &'static str,
    pub params: Vec<Value>,
}

/// What a [`Statement`] is, as mathematics.
pub struct StatementView {
    pub sql: Seq<char>,
    pub params: Seq<ValueView>,
}

impl View for Statement {
    type V = StatementView;

    open spec fn view(&self) -> StatementView {
        StatementView { sql: self.sql@, params: self.params@.map_values(|v: Value| v@) }
    }
}

impl Statement {
    /// The statement with the text `sql` and nothing bound.
    pub fn bare(sql: &'static str) -> (s: Statement)
        ensures
            s@ == (StatementView { sql: sql@, params: seq![] }),
    {
        let s = Statement { sql, params: Vec::new() };
        assert(s@.params =~= seq![]);
        s
    }

    /// The statement with the text `sql` and the one text `key` bound.
    pub fn keyed(sql: &'static str, key: &str) -> (s: Statement)
        ensures
            s@ == (StatementView { sql: sql@, params: seq![ValueView::Text(key@)] }),
    {
        let mut params = Vec::new();
        params.push(Value::text(key));
        let s = Statement { sql, params };
        assert(s@.params =~= seq![ValueView::Text(key@)]);
        s
    }
}

} // verus!
