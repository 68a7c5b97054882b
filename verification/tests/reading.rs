//! Rows and replies read as accounts, on values written out by hand.

use db_admin::account::{Account, Column};
use db_admin::accounts_ops::AdminDatabase;
use db_admin::error::{DecodeError, Error};
use db_admin::reply::Reply;
use db_admin::row::{Cell, Place, Row};
use db_admin::value::Value;

fn text(s: &str) -> Value {
    Value::Text(s.to_string())
}

fn row(cells: Vec<(&str, Value)>) -> Row {
    Row {
        cells: cells
            .into_iter()
            .map(|(column, value)| Cell { column: column.to_string(), value })
            .collect(),
    }
}

fn account(id: &str, name: &str, org: Option<&str>) -> Account {
    Account {
        id: id.to_string(),
        turso_db_name: name.to_string(),
        clerk_org_id: org.map(|o| o.to_string()),
    }
}

fn account_row(id: &str, name: &str, org: Option<&str>) -> Row {
    row(vec![
        ("id", text(id)),
        ("turso_db_name", text(name)),
        ("clerk_org_id", org.map(text).unwrap_or(Value::Null)),
    ])
}

fn rows(rows: Vec<Row>) -> Reply<String> {
    Reply { rows, failure: None }
}

fn failed(rows: Vec<Row>, failure: &str) -> Reply<String> {
    Reply { rows, failure: Some(failure.to_string()) }
}

#[test]
fn column_names_are_those_of_the_table() {
    assert_eq!(Column::Id.name(), "id");
    assert_eq!(Column::TursoDbName.name(), "turso_db_name");
    assert_eq!(Column::ClerkOrgId.name(), "clerk_org_id");
}

#[test]
fn find_tells_absent_single_and_repeated_names_apart() {
    let r = row(vec![
        ("a", Value::Null),
        ("b", Value::Integer(1)),
        ("a", text("x")),
        ("c", Value::Null),
    ]);
    assert_eq!(r.find("a"), Place::Repeated);
    assert_eq!(r.find("b"), Place::At(1));
    assert_eq!(r.find("c"), Place::At(3));
    assert_eq!(r.find("d"), Place::Absent);
    assert_eq!(r.find(""), Place::Absent);
    assert_eq!(r.find("A"), Place::Absent);
    assert_eq!(row(vec![]).find("a"), Place::Absent);
    assert_eq!(row(vec![("a", Value::Null), ("a", Value::Null), ("a", Value::Null)]).find("a"), Place::Repeated);
}

#[test]
fn value_text_holds_the_text() {
    assert_eq!(Value::text("org_1"), Value::Text("org_1".to_string()));
    assert_eq!(Value::text(""), Value::Text(String::new()));
}

#[test]
fn nullable_text_is_null_without_a_text() {
    assert_eq!(Value::nullable_text(None), Value::Null);
    assert_eq!(Value::nullable_text(Some("org_1".to_string())), text("org_1"));
    assert_eq!(Value::nullable_text(Some(String::new())), text(""));
}

#[test]
fn row_with_the_three_columns_is_an_account() {
    assert_eq!(
        Account::from_row(&account_row("a1", "store1", None)),
        Ok(account("a1", "store1", None))
    );
    assert_eq!(
        Account::from_row(&account_row("a2", "store2", Some("org_2"))),
        Ok(account("a2", "store2", Some("org_2")))
    );
}

#[test]
fn columns_are_found_in_any_order_and_others_are_passed_over() {
    let r = row(vec![
        ("created_at", Value::Integer(1700000000)),
        ("clerk_org_id", text("org_1")),
        ("turso_db_name", text("store1")),
        ("weight", Value::Real(1.5f64.to_bits())),
        ("id", text("a1")),
        ("logo", Value::Blob(vec![1, 2, 3])),
    ]);
    assert_eq!(Account::from_row(&r), Ok(account("a1", "store1", Some("org_1"))));
}

#[test]
fn organization_column_may_be_left_out() {
    let r = row(vec![("id", text("a1")), ("turso_db_name", text("store1"))]);
    assert_eq!(Account::from_row(&r), Ok(account("a1", "store1", None)));
}

#[test]
fn required_column_that_is_left_out_is_named() {
    let r = row(vec![("turso_db_name", text("store1")), ("clerk_org_id", Value::Null)]);
    assert_eq!(Account::from_row(&r), Err(DecodeError::MissingColumn(Column::Id)));
    let r = row(vec![("id", text("a1")), ("clerk_org_id", Value::Null)]);
    assert_eq!(Account::from_row(&r), Err(DecodeError::MissingColumn(Column::TursoDbName)));
    assert_eq!(Account::from_row(&row(vec![])), Err(DecodeError::MissingColumn(Column::Id)));
}

#[test]
fn repeated_column_is_named() {
    let r = row(vec![("id", text("a1")), ("id", text("a1")), ("turso_db_name", text("s"))]);
    assert_eq!(Account::from_row(&r), Err(DecodeError::DuplicateColumn(Column::Id)));
    let r = row(vec![("turso_db_name", text("s")), ("id", text("a1")), ("turso_db_name", text("t"))]);
    assert_eq!(Account::from_row(&r), Err(DecodeError::DuplicateColumn(Column::TursoDbName)));
    let r = row(vec![
        ("id", text("a1")),
        ("clerk_org_id", Value::Null),
        ("turso_db_name", text("s")),
        ("clerk_org_id", Value::Null),
    ]);
    assert_eq!(Account::from_row(&r), Err(DecodeError::DuplicateColumn(Column::ClerkOrgId)));
}

#[test]
fn value_of_another_class_is_named() {
    for wrong in [Value::Null, Value::Integer(1), Value::Real(0), Value::Blob(vec![b'a'])] {
        let r = row(vec![("id", wrong.clone()), ("turso_db_name", text("s"))]);
        assert_eq!(Account::from_row(&r), Err(DecodeError::WrongType(Column::Id)));
        let r = row(vec![("id", text("a1")), ("turso_db_name", wrong)]);
        assert_eq!(Account::from_row(&r), Err(DecodeError::WrongType(Column::TursoDbName)));
    }
    for wrong in [Value::Integer(1), Value::Real(0), Value::Blob(vec![b'a'])] {
        let r = row(vec![("id", text("a1")), ("turso_db_name", text("s")), ("clerk_org_id", wrong)]);
        assert_eq!(Account::from_row(&r), Err(DecodeError::WrongType(Column::ClerkOrgId)));
    }
}

#[test]
fn first_column_at_fault_gives_the_error() {
    let r = row(vec![
        ("clerk_org_id", Value::Integer(1)),
        ("clerk_org_id", Value::Integer(2)),
        ("turso_db_name", Value::Null),
        ("id", Value::Integer(3)),
    ]);
    assert_eq!(Account::from_row(&r), Err(DecodeError::WrongType(Column::Id)));
    let r = row(vec![
        ("clerk_org_id", Value::Integer(1)),
        ("clerk_org_id", Value::Integer(2)),
        ("id", text("a1")),
    ]);
    assert_eq!(Account::from_row(&r), Err(DecodeError::MissingColumn(Column::TursoDbName)));
    let r = row(vec![
        ("clerk_org_id", Value::Integer(1)),
        ("clerk_org_id", Value::Integer(2)),
        ("turso_db_name", text("s")),
        ("id", text("a1")),
    ]);
    assert_eq!(Account::from_row(&r), Err(DecodeError::DuplicateColumn(Column::ClerkOrgId)));
}

#[test]
fn listing_without_rows_is_an_empty_list() {
    assert_eq!(AdminDatabase.list_accounts().finish(rows(vec![])), Ok(Vec::new()));
    assert_eq!(
        AdminDatabase.list_accounts_by_clerk_user_id("cu1").finish(rows(vec![])),
        Ok(Vec::new())
    );
}

#[test]
fn listing_reads_every_row_in_order() {
    let reply = rows(vec![
        account_row("b", "second", None),
        account_row("a", "first", Some("org_a")),
        account_row("b", "second", None),
    ]);
    assert_eq!(
        AdminDatabase.list_accounts().finish(reply),
        Ok(vec![
            account("b", "second", None),
            account("a", "first", Some("org_a")),
            account("b", "second", None),
        ])
    );
}

#[test]
fn listing_fails_on_the_first_row_that_holds_no_account() {
    let reply = rows(vec![
        account_row("a", "first", None),
        row(vec![("id", text("b"))]),
        row(vec![("turso_db_name", text("third"))]),
    ]);
    assert_eq!(
        AdminDatabase.list_accounts().finish(reply),
        Err(Error::Decode(DecodeError::MissingColumn(Column::TursoDbName)))
    );
}

#[test]
fn listing_hands_on_the_failure_of_the_driver() {
    assert_eq!(
        AdminDatabase.list_accounts().finish(failed(vec![], "no connection")),
        Err(Error::Driver("no connection".to_string()))
    );
    assert_eq!(
        AdminDatabase.list_accounts().finish(failed(vec![account_row("a", "first", None)], "cut")),
        Err(Error::Driver("cut".to_string()))
    );
}

#[test]
fn listing_meets_an_unreadable_row_before_a_later_failure() {
    let reply = failed(vec![account_row("a", "first", None), row(vec![])], "cut");
    assert_eq!(
        AdminDatabase.list_accounts().finish(reply),
        Err(Error::Decode(DecodeError::MissingColumn(Column::Id)))
    );
}

#[test]
fn lookup_without_a_row_is_no_account() {
    assert_eq!(AdminDatabase.get_account_by_id("missing").finish(rows(vec![])), Ok(None));
    assert_eq!(AdminDatabase.get_account_by_clerk_org_id("o").finish(rows(vec![])), Ok(None));
    assert_eq!(AdminDatabase.get_account_by_clerk_user_id("u").finish(rows(vec![])), Ok(None));
}

#[test]
fn lookup_reads_the_first_row_only() {
    let reply = rows(vec![account_row("a1", "store1", None), row(vec![])]);
    assert_eq!(
        AdminDatabase.get_account_by_id("a1").finish(reply),
        Ok(Some(account("a1", "store1", None)))
    );
    let reply = failed(vec![account_row("a1", "store1", None)], "cut");
    assert_eq!(
        AdminDatabase.get_account_by_clerk_user_id("cu1").finish(reply),
        Ok(Some(account("a1", "store1", None)))
    );
}

#[test]
fn lookup_fails_on_a_first_row_that_holds_no_account() {
    let reply = rows(vec![row(vec![("id", Value::Integer(1))]), account_row("a1", "s", None)]);
    assert_eq!(
        AdminDatabase.get_account_by_clerk_org_id("org_1").finish(reply),
        Err(Error::Decode(DecodeError::WrongType(Column::Id)))
    );
}

#[test]
fn lookup_hands_on_the_failure_of_the_driver() {
    assert_eq!(
        AdminDatabase.get_account_by_id("a1").finish(failed(vec![], "busy")),
        Err(Error::Driver("busy".to_string()))
    );
}

#[test]
fn insertion_gives_the_row_that_came_back() {
    let pending = AdminDatabase.upsert_account(account("a1", "store1", Some("org_1")));
    assert_eq!(
        pending.finish(rows(vec![account_row("a1", "store1", Some("org_1"))])),
        Ok(account("a1", "store1", Some("org_1")))
    );
    let pending = AdminDatabase.upsert_account(account("a1", "store1", Some("org_1")));
    assert_eq!(
        pending.finish(rows(vec![account_row("A1", "trimmed", None), row(vec![])])),
        Ok(account("A1", "trimmed", None))
    );
}

#[test]
fn insertion_without_a_row_is_an_error() {
    let pending = AdminDatabase.upsert_account(account("a1", "store1", None));
    assert_eq!(pending.finish(rows(vec![])), Err(Error::Decode(DecodeError::NoRow)));
}

#[test]
fn insertion_fails_on_a_row_that_holds_no_account() {
    let pending = AdminDatabase.upsert_account(account("a1", "store1", None));
    assert_eq!(
        pending.finish(rows(vec![row(vec![("id", text("a1")), ("id", text("a1"))])])),
        Err(Error::Decode(DecodeError::DuplicateColumn(Column::Id)))
    );
}

#[test]
fn insertion_hands_on_the_failure_of_the_driver() {
    let pending = AdminDatabase.upsert_account(account("a1", "store1", None));
    assert_eq!(
        pending.finish(failed(vec![], "UNIQUE constraint failed: accounts.id")),
        Err(Error::Driver("UNIQUE constraint failed: accounts.id".to_string()))
    );
}

#[test]
fn first_row_of_a_reply() {
    let first = account_row("a1", "store1", None);
    assert_eq!(rows(vec![first.clone(), row(vec![])]).into_first_row(), Ok(Some(first.clone())));
    assert_eq!(failed(vec![first.clone()], "cut").into_first_row(), Ok(Some(first)));
    assert_eq!(rows(vec![]).into_first_row(), Ok(None));
    assert_eq!(failed(vec![], "cut").into_first_row(), Err("cut".to_string()));
}

#[test]
fn bound_values_read_back_as_the_account() {
    for stored in [account("a1", "store1", None), account("a2", "store2", Some("org_2"))] {
        let pending = AdminDatabase.upsert_account(stored.clone());
        let params = pending.statement.params.clone();
        let echoed = row(vec![
            ("id", params[0].clone()),
            ("turso_db_name", params[1].clone()),
            ("clerk_org_id", params[2].clone()),
        ]);
        assert_eq!(pending.finish(rows(vec![echoed.clone()])), Ok(stored.clone()));
        assert_eq!(
            AdminDatabase.get_account_by_id(&stored.id).finish(rows(vec![echoed.clone()])),
            Ok(Some(stored.clone()))
        );
        assert_eq!(
            AdminDatabase.list_accounts().finish(rows(vec![echoed])),
            Ok(vec![stored])
        );
    }
}
