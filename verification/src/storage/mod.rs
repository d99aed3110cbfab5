//! What the store holds, as the gateway reads it: account records and the
//! token identifiers of the named tokens.

use vstd::prelude::*;
use vstd::std_specs::convert::FromSpecImpl;

pub mod token;
pub mod user;

verus! {

/// `sqlx::Error`, a failure of the database. Carried, never read.
#[verifier::external_type_specification]
#[verifier::external_body]
pub struct ExDatabaseError(sqlx::Error);

/// A failure of the store. That a record is absent is no failure: a read
/// answers it with `None`.
#[derive(Debug)]
pub enum StorageError {
    Sqlx(sqlx::Error),
}

impl From<sqlx::Error> for StorageError {
    fn from(e: sqlx::Error) -> (r: Self) {
        StorageError::Sqlx(e)
    }
}

impl FromSpecImpl<sqlx::Error> for StorageError {
    open spec fn obeys_from_spec() -> bool {
        true
    }

    open spec fn from_spec(e: sqlx::Error) -> Self {
        StorageError::Sqlx(e)
    }
}

} // verus!
