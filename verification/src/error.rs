//! Errors that can occur while connecting to or querying the test database.

use vstd::prelude::*;

verus! {

/// Why the `DATABASE_URL` environment variable could not be read.
#[derive(Debug, Clone, Copy, PartialEq, Eq)]
pub enum EnvVarError {
    /// The variable is not set.
    NotPresent,
    /// The variable is set but does not hold valid unicode.
    NotUnicode,
}

/// Errors that can occur while connecting to or querying the test database.
#[derive(Debug)]
pub enum DbError {
    /// The `DATABASE_URL` environment variable was not set.
    MissingDatabaseUrl(EnvVarError),
    /// Establishing the SQLite connection failed.
    Connection { url: String, source: diesel::ConnectionError },
    /// No profile with the requested name exists.
    ProfileNotFound(String),
    /// A profile with the requested name already exists.
    ProfileAlreadyExists(String),
    /// A CAN message violated a database constraint; holds the database's message.
    InvalidCanMessage(String),
    /// A query against the database failed.
    Query(diesel::result::Error),
    /// Running database migrations failed.
    Migration(String),
}

/// Result alias for this crate's fallible operations.
pub type Result<T> = std::result::Result<T, DbError>;

impl From<diesel::result::Error> for DbError {
    /// A failed query becomes `DbError::Query`, holding the query's error.
    fn from(e: diesel::result::Error) -> (r: DbError)
        ensures
            r == DbError::Query(e),
    {
        DbError::Query(e)
    }
}

impl vstd::std_specs::convert::FromSpecImpl<diesel::result::Error> for DbError {
    open spec fn obeys_from_spec() -> bool {
        true
    }

    open spec fn from_spec(e: diesel::result::Error) -> DbError {
        DbError::Query(e)
    }
}

} // verus!
