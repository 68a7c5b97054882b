//! Statements and reply decoding for the accounts tables of an administrative database.
//!
//! Nothing here talks to a database. An operation of [`AdminDatabase`] gives the statement
//! for the driver to run, and reads what the driver answered: the caller runs the
//! statement in between.

pub mod account;
pub mod accounts_ops;
pub mod error;
pub mod reply;
pub mod row;
pub mod statement;
pub mod value;

pub use account::Account;
pub use accounts_ops::AdminDatabase;
pub use error::{DecodeError, Error};
pub use reply::Reply;
