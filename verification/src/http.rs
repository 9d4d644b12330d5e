//! What the HTTP endpoints answer, from what their database work gave.
//!
//! Each handler checks a connection out of the pool and runs a service on a
//! blocking thread; the functions here decide the response from the outcome.

use crate::error::DbError;
use crate::error::Result;
use crate::models::TestCanMessageEntry;
use crate::models::TestProfile;
use vstd::prelude::*;

verus! {

/// The HTTP statuses that the endpoints answer with.
#[derive(Debug, Clone, Copy, PartialEq, Eq)]
pub enum Status {
    Created,
    NotFound,
    Conflict,
    InternalServerError,
}

impl Status {
    /// The status's numeric code.
    pub open spec fn code_spec(self) -> u16 {
        match self {
            Status::Created => 201,
            Status::NotFound => 404,
            Status::Conflict => 409,
            Status::InternalServerError => 500,
        }
    }

    /// The status's numeric code.
    pub fn code(&self) -> (c: u16)
        ensures
            c == self.code_spec(),
    {
        match self {
            Status::Created => 201,
            Status::NotFound => 404,
            Status::Conflict => 409,
            Status::InternalServerError => 500,
        }
    }
}

/// How far a handler's database work got.
#[derive(Debug)]
pub enum Attempt<T> {
    /// No connection could be checked out of the pool.
    NoConnection,
    /// The blocking task that ran the service did not finish.
    Interrupted,
    /// The service ran and gave this.
    Finished(Result<T>),
}

/// Query parameters of `GET /messages`.
#[derive(Debug, Clone, PartialEq, Eq)]
pub struct ProfileQuery {
    /// Name of the test profile whose messages to fetch.
    pub profile: String,
}

/// Request body of `POST /profiles`.
#[derive(Debug, Clone, PartialEq, Eq)]
pub struct NewProfileBody {
    /// Name for the new test profile; must be unique.
    pub name: String,
}

/// The answer to `GET /profiles`: the names where the service gave them,
/// `500 Internal Server Error` in every other case.
pub open spec fn profile_names_reply(outcome: Attempt<Vec<String>>) -> std::result::Result<
    Vec<String>,
    Status,
> {
    match outcome {
        Attempt::Finished(Ok(names)) => Ok(names),
        _ => Err(Status::InternalServerError),
    }
}

/// The answer to `GET /messages?profile=<name>`: the messages where the
/// service gave them, `404 Not Found` where the profile does not exist, and
/// `500 Internal Server Error` in every other case.
pub open spec fn profile_messages_reply(outcome: Attempt<Vec<TestCanMessageEntry>>) -> std::result::Result<
    Vec<TestCanMessageEntry>,
    Status,
> {
    match outcome {
        Attempt::Finished(Ok(messages)) => Ok(messages),
        Attempt::Finished(Err(DbError::ProfileNotFound(_))) => Err(Status::NotFound),
        _ => Err(Status::InternalServerError),
    }
}

/// The answer to `POST /profiles`: `201 Created` with the new profile where
/// the service created it, `409 Conflict` where the name is taken, and
/// `500 Internal Server Error` in every other case.
pub open spec fn create_profile_reply(outcome: Attempt<TestProfile>) -> std::result::Result<
    (Status, TestProfile),
    Status,
> {
    match outcome {
        Attempt::Finished(Ok(profile)) => Ok((Status::Created, profile)),
        Attempt::Finished(Err(DbError::ProfileAlreadyExists(_))) => Err(Status::Conflict),
        _ => Err(Status::InternalServerError),
    }
}

/// `GET /profiles` — list the names of all test profiles.
pub fn list_profile_names(outcome: Attempt<Vec<String>>) -> (r: std::result::Result<
    Vec<String>,
    Status,
>)
    ensures
        r == profile_names_reply(outcome),
{
    match outcome {
        Attempt::Finished(Ok(names)) => Ok(names),
        _ => Err(Status::InternalServerError),
    }
}

/// `GET /messages?profile=<name>` — the CAN messages that the service loaded
/// for the given profile. Returns 404 if the profile doesn't exist.
pub fn list_profile_messages(outcome: Attempt<Vec<TestCanMessageEntry>>) -> (r:
    std::result::Result<Vec<TestCanMessageEntry>, Status>)
    ensures
        r == profile_messages_reply(outcome),
{
    match outcome {
        Attempt::Finished(Ok(messages)) => Ok(messages),
        Attempt::Finished(Err(DbError::ProfileNotFound(_))) => Err(Status::NotFound),
        _ => Err(Status::InternalServerError),
    }
}

/// `POST /profiles` — the created profile with `201 Created`, or
/// `409 Conflict` if a profile with that name already exists.
pub fn create_profile(outcome: Attempt<TestProfile>) -> (r: std::result::Result<
    (Status, TestProfile),
    Status,
>)
    ensures
        r == create_profile_reply(outcome),
{
    match outcome {
        Attempt::Finished(Ok(profile)) => Ok((Status::Created, profile)),
        Attempt::Finished(Err(DbError::ProfileAlreadyExists(_))) => Err(Status::Conflict),
        _ => Err(Status::InternalServerError),
    }
}

} // verus!
