use pythia_db::error::DbError;
use pythia_db::http;
use pythia_db::http::Attempt;
use pythia_db::http::Status;
use pythia_db::models::TestCanMessageEntry;
use pythia_db::models::TestProfile;
use pythia_db::services::profiles;

fn message(id: i32, offset_ms: i32) -> TestCanMessageEntry {
    TestCanMessageEntry {
        id,
        profile_id: 3,
        can_id: 513,
        is_extended: 0,
        data: vec![1],
        mode: "oneshot".to_string(),
        offset_ms,
        period_ms: None,
    }
}

#[test]
fn status_codes() {
    assert_eq!(Status::Created.code(), 201);
    assert_eq!(Status::NotFound.code(), 404);
    assert_eq!(Status::Conflict.code(), 409);
    assert_eq!(Status::InternalServerError.code(), 500);
}

#[test]
fn profile_names_are_returned() {
    let names = vec!["a".to_string(), "b".to_string()];
    assert_eq!(http::list_profile_names(Attempt::Finished(Ok(names.clone()))), Ok(names));
}

#[test]
fn profile_names_failures_are_server_errors() {
    assert_eq!(http::list_profile_names(Attempt::NoConnection), Err(Status::InternalServerError));
    assert_eq!(http::list_profile_names(Attempt::Interrupted), Err(Status::InternalServerError));
    let failed = Attempt::Finished(Err(DbError::Query(diesel::result::Error::NotFound)));
    assert_eq!(http::list_profile_names(failed), Err(Status::InternalServerError));
}

#[test]
fn profile_messages_are_returned_in_order_given() {
    let messages = vec![message(1, 0), message(2, 500)];
    assert_eq!(http::list_profile_messages(Attempt::Finished(Ok(messages.clone()))), Ok(messages));
}

#[test]
fn unknown_profile_messages_are_not_found() {
    let looked_up = profiles::get_by_name(Ok(None), "ghost");
    let outcome = Attempt::Finished(looked_up.map(|_| Vec::new()));
    assert_eq!(http::list_profile_messages(outcome), Err(Status::NotFound));
}

#[test]
fn profile_messages_failures_are_server_errors() {
    assert_eq!(http::list_profile_messages(Attempt::NoConnection), Err(Status::InternalServerError));
    assert_eq!(http::list_profile_messages(Attempt::Interrupted), Err(Status::InternalServerError));
    let failed = Attempt::Finished(Err(DbError::Migration("m".to_string())));
    assert_eq!(http::list_profile_messages(failed), Err(Status::InternalServerError));
}

#[test]
fn created_profile_is_created() {
    let p = TestProfile { id: 3, name: "PROFILE_001".to_string() };
    assert_eq!(http::create_profile(Attempt::Finished(Ok(p.clone()))), Ok((Status::Created, p)));
}

#[test]
fn taken_profile_name_is_conflict() {
    let err = diesel::result::Error::DatabaseError(
        diesel::result::DatabaseErrorKind::UniqueViolation,
        Box::new("UNIQUE constraint failed: test_profile.name".to_string()),
    );
    let created = profiles::create(Err(err), "PROFILE_001");
    assert_eq!(http::create_profile(Attempt::Finished(created)), Err(Status::Conflict));
}

#[test]
fn create_profile_failures_are_server_errors() {
    assert_eq!(http::create_profile(Attempt::NoConnection), Err(Status::InternalServerError));
    assert_eq!(http::create_profile(Attempt::Interrupted), Err(Status::InternalServerError));
    let created = profiles::create(Err(diesel::result::Error::RollbackTransaction), "p");
    assert_eq!(http::create_profile(Attempt::Finished(created)), Err(Status::InternalServerError));
    let missing = Attempt::Finished(Err(DbError::ProfileNotFound("p".to_string())));
    assert_eq!(http::create_profile(missing), Err(Status::InternalServerError));
}
