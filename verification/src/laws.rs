//! Properties that span the services and the HTTP answers.

use crate::db::failure_kind;
use crate::error::DbError;
use crate::error::Result;
use crate::db::Violation;
use crate::http::create_profile_reply;
use crate::http::profile_names_reply;
use crate::http::profile_messages_reply;
use crate::http::Attempt;
use crate::http::Status;
use crate::models::NewCanMessageInput;
use crate::models::TestCanMessageEntry;
use crate::models::TestProfile;
use crate::services::messages::created_message;
use crate::services::messages::insert_error_spec;
use crate::services::messages::row_for;
use crate::services::profiles::creates_profile;
use crate::services::profiles::is_insert_error;
use crate::services::profiles::found_profile;
use crate::services::profiles::resolves_profile;
use vstd::prelude::*;

verus! {

/// Asking for the messages of a profile that does not exist is answered
/// `404 Not Found`: the query for the profile finds no row, the lookup fails
/// with `ProfileNotFound` naming the profile, and that failure, passed on by
/// the messages service, is what the endpoint answers.
pub proof fn unknown_profile_is_not_found(
    profile_name: Seq<char>,
    error: diesel::result::Error,
    looked_up: Result<TestProfile>,
)
    requires
        failure_kind(error) is NotFound,
        resolves_profile(
            found_profile(Err(error)),
            profile_name,
            looked_up,
        ),
    ensures
        looked_up matches Err(DbError::ProfileNotFound(n)) && n@ == profile_name,
        profile_messages_reply(Attempt::Finished(Err(looked_up->Err_0))) == Err::<
            Vec<TestCanMessageEntry>,
            Status,
        >(Status::NotFound),
{
}

/// Creating a profile under a name that is already taken is answered
/// `409 Conflict`: the insert is refused for its `UNIQUE` name, which the
/// service reports as `ProfileAlreadyExists`.
pub proof fn taken_name_is_conflict(
    inserted: diesel::QueryResult<TestProfile>,
    profile_name: Seq<char>,
    created: Result<TestProfile>,
)
    requires
        inserted is Err,
        failure_kind(inserted->Err_0) is UniqueViolation,
        creates_profile(inserted, profile_name, created),
    ensures
        created matches Err(DbError::ProfileAlreadyExists(n)) && n@ == profile_name,
        create_profile_reply(Attempt::Finished(created)) == Err::<(Status, TestProfile), Status>(
            Status::Conflict,
        ),
{
}

/// A profile insert that fails for any other reason is answered
/// `500 Internal Server Error`, and a successful one `201 Created` with the
/// inserted row.
pub proof fn other_profile_inserts(
    inserted: diesel::QueryResult<TestProfile>,
    profile_name: Seq<char>,
    created: Result<TestProfile>,
)
    requires
        !(inserted is Err && failure_kind(inserted->Err_0) is UniqueViolation),
        creates_profile(inserted, profile_name, created),
    ensures
        inserted is Err ==> create_profile_reply(Attempt::Finished(created)) == Err::<
            (Status, TestProfile),
            Status,
        >(Status::InternalServerError),
        inserted is Ok ==> create_profile_reply(Attempt::Finished(created)) == Ok::<
            (Status, TestProfile),
            Status,
        >((Status::Created, inserted->Ok_0)),
{
}

/// A CAN message added under a profile's name is inserted with the id of the
/// profile that the query for that name found.
pub proof fn message_row_belongs_to_found_profile(
    profile_name: Seq<char>,
    found: TestProfile,
    looked_up: Result<TestProfile>,
    input: NewCanMessageInput,
)
    requires
        resolves_profile(found_profile(Ok(found)), profile_name, looked_up),
    ensures
        looked_up == Ok::<TestProfile, DbError>(found),
        row_for(looked_up->Ok_0, input).profile_id == found.id,
{
}

/// `GET /profiles` answers whatever names the service loaded, unchanged and
/// whatever their number (no profiles at all included), and answers every
/// other outcome `500 Internal Server Error`, never `404` or `409`.
pub proof fn profile_names_are_answered_as_loaded(outcome: Attempt<Vec<String>>)
    ensures
        outcome matches Attempt::Finished(Ok(names)) ==> profile_names_reply(outcome) == Ok::<
            Vec<String>,
            Status,
        >(names),
        !(outcome matches Attempt::Finished(Ok(_))) ==> profile_names_reply(outcome) == Err::<
            Vec<String>,
            Status,
        >(Status::InternalServerError),
        profile_names_reply(outcome) != Err::<Vec<String>, Status>(Status::NotFound),
        profile_names_reply(outcome) != Err::<Vec<String>, Status>(Status::Conflict),
{
}

/// `GET /messages` answers whatever messages the service loaded, unchanged
/// and whatever their number (a profile without messages included); it
/// answers `404 Not Found` exactly when the service failed with
/// `ProfileNotFound`, and `500 Internal Server Error` in every other case.
pub proof fn profile_messages_are_answered_as_loaded(outcome: Attempt<Vec<TestCanMessageEntry>>)
    ensures
        outcome matches Attempt::Finished(Ok(messages)) ==> profile_messages_reply(outcome)
            == Ok::<Vec<TestCanMessageEntry>, Status>(messages),
        profile_messages_reply(outcome) == Err::<Vec<TestCanMessageEntry>, Status>(
            Status::NotFound,
        ) <==> outcome matches Attempt::Finished(Err(DbError::ProfileNotFound(_))),
        !(outcome matches Attempt::Finished(Ok(_))) && !(outcome matches Attempt::Finished(
            Err(DbError::ProfileNotFound(_)),
        )) ==> profile_messages_reply(outcome) == Err::<Vec<TestCanMessageEntry>, Status>(
            Status::InternalServerError,
        ),
{
}

/// `POST /profiles` answers `201 Created` with exactly the profile that the
/// service created, `409 Conflict` exactly when the name was taken, and
/// `500 Internal Server Error` in every other case.
pub proof fn created_profile_is_answered_as_created(outcome: Attempt<TestProfile>)
    ensures
        outcome matches Attempt::Finished(Ok(p)) ==> create_profile_reply(outcome) == Ok::<
            (Status, TestProfile),
            Status,
        >((Status::Created, p)),
        create_profile_reply(outcome) == Err::<(Status, TestProfile), Status>(Status::Conflict)
            <==> outcome matches Attempt::Finished(Err(DbError::ProfileAlreadyExists(_))),
        !(outcome matches Attempt::Finished(Ok(_))) && !(outcome matches Attempt::Finished(
            Err(DbError::ProfileAlreadyExists(_)),
        )) ==> create_profile_reply(outcome) == Err::<(Status, TestProfile), Status>(
            Status::InternalServerError,
        ),
{
}

/// The statuses carry their standard codes.
pub proof fn status_codes()
    ensures
        Status::Created.code_spec() == 201,
        Status::NotFound.code_spec() == 404,
        Status::Conflict.code_spec() == 409,
        Status::InternalServerError.code_spec() == 500,
{
}

/// The row that adding a CAN message inserts holds the resolved profile's
/// id and copies every field of the input unchanged.
pub proof fn message_row_copies_input(profile: TestProfile, input: NewCanMessageInput)
    ensures
        row_for(profile, input).profile_id == profile.id,
        row_for(profile, input).can_id == input.can_id,
        row_for(profile, input).is_extended == input.is_extended,
        row_for(profile, input).data == input.data,
        row_for(profile, input).mode == input.mode,
        row_for(profile, input).offset_ms == input.offset_ms,
        row_for(profile, input).period_ms == input.period_ms,
{
}

/// A CAN message insert that succeeded returns exactly the inserted row.
pub proof fn inserted_message_is_returned(entry: TestCanMessageEntry)
    ensures
        created_message(Ok(entry)) == Ok::<TestCanMessageEntry, DbError>(entry),
{
}

/// A CAN message refused by a `CHECK` constraint is reported as
/// `InvalidCanMessage` carrying the database's message, whatever it says;
/// every other failure is reported as a failed query holding the insert's
/// error.
pub proof fn refused_message_is_invalid(violation: Violation, e: diesel::result::Error)
    ensures
        violation matches Violation::CheckViolation(m) ==> insert_error_spec(violation, e)
            == DbError::InvalidCanMessage(m),
        !(violation is CheckViolation) ==> insert_error_spec(violation, e) == DbError::Query(e),
        failure_kind(e) matches Violation::CheckViolation(m) ==> created_message(Err(e)) == Err::<
            TestCanMessageEntry,
            DbError,
        >(DbError::InvalidCanMessage(m)),
        !(failure_kind(e) is CheckViolation) ==> created_message(Err(e)) == Err::<
            TestCanMessageEntry,
            DbError,
        >(DbError::Query(e)),
{
}

/// A profile insert that succeeded returns exactly the inserted row; one
/// refused for its taken name reports `ProfileAlreadyExists` with that name,
/// whatever the name; any other failure is a failed query holding the
/// insert's error.
pub proof fn profile_insert_outcomes(
    inserted: diesel::QueryResult<TestProfile>,
    profile_name: Seq<char>,
    created: Result<TestProfile>,
)
    requires
        creates_profile(inserted, profile_name, created),
    ensures
        inserted is Ok ==> created == Ok::<TestProfile, DbError>(inserted->Ok_0),
        inserted is Err && failure_kind(inserted->Err_0) is UniqueViolation ==> (created matches Err(
            DbError::ProfileAlreadyExists(n),
        ) && n@ == profile_name),
        inserted is Err && !(failure_kind(inserted->Err_0) is UniqueViolation) ==> created
            == Err::<TestProfile, DbError>(DbError::Query(inserted->Err_0)),
{
}

/// The search for a profile by name gives the row it found, `None` exactly
/// when the query found no row, and a failed query holding the error for
/// every other failure.
pub proof fn profile_search_outcomes(first: diesel::QueryResult<TestProfile>)
    ensures
        first is Ok ==> found_profile(first) == Ok::<Option<TestProfile>, DbError>(
            Some(first->Ok_0),
        ),
        found_profile(first) == Ok::<Option<TestProfile>, DbError>(None) <==> (first is Err
            && failure_kind(first->Err_0) is NotFound),
        first is Err && !(failure_kind(first->Err_0) is NotFound) ==> found_profile(first)
            == Err::<Option<TestProfile>, DbError>(DbError::Query(first->Err_0)),
{
}

/// A lookup by name gives the profile found, `ProfileNotFound` naming the
/// asked name when none was found, and the search's error unchanged.
pub proof fn lookup_outcomes(
    found: Result<Option<TestProfile>>,
    profile_name: Seq<char>,
    r: Result<TestProfile>,
)
    requires
        resolves_profile(found, profile_name, r),
    ensures
        found matches Ok(Some(p)) ==> r == Ok::<TestProfile, DbError>(p),
        found matches Ok(None) ==> (r matches Err(DbError::ProfileNotFound(n)) && n@
            == profile_name),
        found is Err ==> r == Err::<TestProfile, DbError>(found->Err_0),
{
}

/// A profile insert reports a taken name only for a `UNIQUE` violation.
pub proof fn taken_name_only_for_unique_violation(
    violation: Violation,
    e: diesel::result::Error,
    profile_name: Seq<char>,
    reported: DbError,
)
    requires
        is_insert_error(violation, e, profile_name, reported),
    ensures
        reported is ProfileAlreadyExists <==> violation is UniqueViolation,
        violation is UniqueViolation ==> (reported matches DbError::ProfileAlreadyExists(n) && n@
            == profile_name),
{
}

} // verus!
