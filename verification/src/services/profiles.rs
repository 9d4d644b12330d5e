//! Services for `test_profile` rows.

use crate::db::failure_kind;
use crate::db::optional;
use crate::db::violation_of;
use crate::db::Violation;
use crate::error::DbError;
use crate::error::Result;
use crate::models::TestProfile;
use vstd::prelude::*;

verus! {

/// What a search for a profile by name gives, from what the query for its
/// first row gave: the row where there was one, `None` where the query
/// found no row, and a failed query for any other failure.
pub open spec fn found_profile(first: diesel::QueryResult<TestProfile>) -> Result<
    Option<TestProfile>,
> {
    match first {
        Ok(p) => Ok(Some(p)),
        Err(e) => match failure_kind(e) {
            Violation::NotFound => Ok(None),
            _ => Err(DbError::Query(e)),
        },
    }
}

/// What a lookup of `profile_name` gives, from what the search for it found:
/// the profile where one was found, `ProfileNotFound` naming `profile_name`
/// where none was, and the search's own error where it failed.
pub open spec fn resolves_profile(
    found: Result<Option<TestProfile>>,
    profile_name: Seq<char>,
    r: Result<TestProfile>,
) -> bool {
    match found {
        Ok(Some(p)) => r == Ok::<TestProfile, DbError>(p),
        Ok(None) => r matches Err(DbError::ProfileNotFound(n)) && n@ == profile_name,
        Err(e) => r == Err::<TestProfile, DbError>(e),
    }
}

/// The error of a failed insert of a profile named `profile_name`: a
/// violation of the `UNIQUE` name column means that the name is taken; any
/// other failure is a failed query, holding the insert's error.
pub open spec fn is_insert_error(
    violation: Violation,
    e: diesel::result::Error,
    profile_name: Seq<char>,
    r: DbError,
) -> bool {
    match violation {
        Violation::UniqueViolation => r matches DbError::ProfileAlreadyExists(n) && n@
            == profile_name,
        _ => r == DbError::Query(e),
    }
}

/// What the insert of a profile named `profile_name` gives, from what the
/// insert gave: the inserted row, or the error of [`is_insert_error`].
pub open spec fn creates_profile(
    inserted: diesel::QueryResult<TestProfile>,
    profile_name: Seq<char>,
    r: Result<TestProfile>,
) -> bool {
    match inserted {
        Ok(p) => r == Ok::<TestProfile, DbError>(p),
        Err(e) => r is Err && is_insert_error(failure_kind(e), e, profile_name, r->Err_0),
    }
}

/// Look up a test profile by its unique name, returning `None` if none exists.
///
/// `first` is what the query for the first profile of that name gave.
pub fn find_by_name(first: diesel::QueryResult<TestProfile>) -> (r: Result<Option<TestProfile>>)
    ensures
        r == found_profile(first),
{
    match optional(first) {
        Ok(found) => Ok(found),
        Err(e) => Err(DbError::from(e)),
    }
}

/// Look up a test profile by name, erroring with [`DbError::ProfileNotFound`]
/// when no profile with that name exists.
///
/// `found` is what [`find_by_name`] gave for `profile_name`.
pub fn get_by_name(found: Result<Option<TestProfile>>, profile_name: &str) -> (r: Result<
    TestProfile,
>)
    ensures
        resolves_profile(found, profile_name@, r),
{
    match found {
        Ok(Some(p)) => Ok(p),
        Ok(None) => Err(DbError::ProfileNotFound(profile_name.to_owned())),
        Err(e) => Err(e),
    }
}

/// The error that a failed insert of a profile named `profile_name` is
/// reported as, given what the insert's error `e` reports about itself.
pub fn insert_error(violation: Violation, e: diesel::result::Error, profile_name: &str) -> (r:
    DbError)
    ensures
        is_insert_error(violation, e, profile_name@, r),
{
    match violation {
        Violation::UniqueViolation => DbError::ProfileAlreadyExists(profile_name.to_owned()),
        _ => DbError::Query(e),
    }
}

/// Create a new test profile with the given name, returning the inserted row.
///
/// `inserted` is what the insert of a profile named `profile_name` gave.
/// Returns [`DbError::ProfileAlreadyExists`] if a profile with that name
/// already exists (the `name` column is `UNIQUE`).
pub fn create(inserted: diesel::QueryResult<TestProfile>, profile_name: &str) -> (r: Result<
    TestProfile,
>)
    ensures
        creates_profile(inserted, profile_name@, r),
{
    match inserted {
        Ok(p) => Ok(p),
        Err(e) => {
            let violation = violation_of(&e);
            Err(insert_error(violation, e, profile_name))
        },
    }
}

} // verus!
