//! The diesel values that pass through this crate, what a failed query
//! reports about itself, and diesel's `optional`.

use diesel::result::DatabaseErrorInformation;
use diesel::result::DatabaseErrorKind;
use diesel::OptionalExtension;
use vstd::prelude::*;

verus! {

/// `diesel::result::Error`, the error of a failed query. It is carried
/// through unchanged; only `violation_of` and `optional` look inside it.
#[verifier::external_type_specification]
#[verifier::external_body]
pub struct ExDieselError(diesel::result::Error);

/// `diesel::ConnectionError`, the error of a failed attempt to connect.
#[verifier::external_type_specification]
#[verifier::external_body]
pub struct ExConnectionError(diesel::ConnectionError);

/// What a failed query reports about itself, as far as the services read it.
#[derive(Debug, Clone, PartialEq, Eq)]
pub enum Violation {
    /// The query expected a row and found none (`diesel::result::Error::NotFound`).
    NotFound,
    /// The database refused a row that repeats a `UNIQUE` column.
    UniqueViolation,
    /// The database refused a row that breaks a `CHECK` constraint; holds the
    /// database's primary message.
    CheckViolation(String),
    /// Any other failure.
    Other,
}

/// What a failed query's error reports about itself: which variant of
/// `diesel::result::Error` it is, as `violation_of` tells them apart. It is
/// a function of the error alone.
pub uninterp spec fn failure_kind(e: diesel::result::Error) -> Violation;

/// Tells the variants of a `diesel::result::Error` apart: `NotFound`, a
/// database error of kind `UniqueViolation`, one of kind `CheckViolation`
/// (with the message of its `DatabaseErrorInformation`), or anything else.
/// The contract says that the result is `failure_kind` of the error; which
/// variant a given error is stays unsaid, as the error is opaque here.
#[verifier::external_body]
pub(crate) fn violation_of(e: &diesel::result::Error) -> (v: Violation)
    ensures
        v == failure_kind(*e),
{
    match e {
        diesel::result::Error::NotFound => Violation::NotFound,
        diesel::result::Error::DatabaseError(DatabaseErrorKind::UniqueViolation, _) => {
            Violation::UniqueViolation
        },
        diesel::result::Error::DatabaseError(DatabaseErrorKind::CheckViolation, info) => {
            Violation::CheckViolation(info.message().to_owned())
        },
        _ => Violation::Other,
    }
}

/// Calls `OptionalExtension::optional` of diesel on a query result: a row
/// becomes `Some(row)`, the error `NotFound` becomes `Ok(None)`, and any
/// other error is handed back unchanged.
#[verifier::external_body]
pub(crate) fn optional<T>(r: diesel::QueryResult<T>) -> (out: diesel::QueryResult<Option<T>>)
    ensures
        r is Ok ==> out is Ok && out->Ok_0 == Some(r->Ok_0),
        r is Err && failure_kind(r->Err_0) is NotFound ==> out is Ok && out->Ok_0 is None,
        r is Err && !(failure_kind(r->Err_0) is NotFound) ==> out is Err && out->Err_0 == r->Err_0,
{
    r.optional()
}

} // verus!
