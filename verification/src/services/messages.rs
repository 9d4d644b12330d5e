//! Services for `can_message` rows.

use crate::db::failure_kind;
use crate::db::violation_of;
use crate::db::Violation;
use crate::error::DbError;
use crate::error::Result;
use crate::models::NewCanMessage;
use crate::models::NewCanMessageInput;
use crate::models::TestCanMessageEntry;
use crate::models::TestProfile;
use vstd::prelude::*;

verus! {

/// The row that adding `input` to `profile` inserts: the profile's id, and
/// every field of the input unchanged.
pub open spec fn row_for(profile: TestProfile, input: NewCanMessageInput) -> NewCanMessage {
    NewCanMessage {
        profile_id: profile.id,
        can_id: input.can_id,
        is_extended: input.is_extended,
        data: input.data,
        mode: input.mode,
        offset_ms: input.offset_ms,
        period_ms: input.period_ms,
    }
}

/// The error of a failed insert of a CAN message: a violation of a `CHECK`
/// constraint means that the message is invalid, and carries the database's
/// message; any other failure is a failed query, holding the insert's error.
pub open spec fn insert_error_spec(violation: Violation, e: diesel::result::Error) -> DbError {
    match violation {
        Violation::CheckViolation(message) => DbError::InvalidCanMessage(message),
        _ => DbError::Query(e),
    }
}

/// What the insert of a CAN message gives, from what the insert gave.
pub open spec fn created_message(inserted: diesel::QueryResult<TestCanMessageEntry>) -> Result<
    TestCanMessageEntry,
> {
    match inserted {
        Ok(entry) => Ok(entry),
        Err(e) => Err(insert_error_spec(failure_kind(e), e)),
    }
}

/// The row to insert when `input` is added to `profile`, the profile that its
/// name resolved to.
pub fn new_can_message(profile: &TestProfile, input: NewCanMessageInput) -> (row: NewCanMessage)
    ensures
        row == row_for(*profile, input),
{
    NewCanMessage {
        profile_id: profile.id,
        can_id: input.can_id,
        is_extended: input.is_extended,
        data: input.data,
        mode: input.mode,
        offset_ms: input.offset_ms,
        period_ms: input.period_ms,
    }
}

/// The row to insert when `input` is added to the profile that a lookup by
/// name gave: none where the lookup failed, whose error is passed on.
pub fn row_to_insert(looked_up: Result<TestProfile>, input: NewCanMessageInput) -> (r: Result<
    NewCanMessage,
>)
    ensures
        looked_up is Ok ==> r == Ok::<NewCanMessage, DbError>(row_for(looked_up->Ok_0, input)),
        looked_up is Err ==> r == Err::<NewCanMessage, DbError>(looked_up->Err_0),
{
    match looked_up {
        Ok(profile) => Ok(new_can_message(&profile, input)),
        Err(e) => Err(e),
    }
}

/// The id of the profile whose messages to load, from what a lookup by name
/// gave: none where the lookup failed, whose error is passed on.
pub fn profile_to_load(looked_up: Result<TestProfile>) -> (r: Result<i32>)
    ensures
        looked_up is Ok ==> r == Ok::<i32, DbError>(looked_up->Ok_0.id),
        looked_up is Err ==> r == Err::<i32, DbError>(looked_up->Err_0),
{
    match looked_up {
        Ok(profile) => Ok(profile.id),
        Err(e) => Err(e),
    }
}

/// The error that a failed insert of a CAN message is reported as, given what
/// the insert's error `e` reports about itself.
pub fn insert_error(violation: Violation, e: diesel::result::Error) -> (r: DbError)
    ensures
        r == insert_error_spec(violation, e),
{
    match violation {
        Violation::CheckViolation(message) => DbError::InvalidCanMessage(message),
        _ => DbError::Query(e),
    }
}

/// Add a CAN message to a profile, returning the inserted row.
///
/// `inserted` is what the insert of the row of [`row_to_insert`] gave.
/// Returns [`DbError::InvalidCanMessage`] if the message violates a database
/// constraint (out-of-range `can_id`, unknown `mode`, oversized `data`, or a
/// period/mode mismatch).
pub fn create(inserted: diesel::QueryResult<TestCanMessageEntry>) -> (r: Result<
    TestCanMessageEntry,
>)
    ensures
        r == created_message(inserted),
{
    match inserted {
        Ok(entry) => Ok(entry),
        Err(e) => {
            let violation = violation_of(&e);
            Err(insert_error(violation, e))
        },
    }
}

} // verus!
