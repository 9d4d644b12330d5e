use diesel::result::DatabaseErrorKind;
use pythia_db::error::DbError;
use pythia_db::migrations::migration_result;
use pythia_db::models::NewCanMessageInput;
use pythia_db::models::TestCanMessageEntry;
use pythia_db::models::TestProfile;
use pythia_db::services::messages;
use pythia_db::services::profiles;

fn profile(id: i32, name: &str) -> TestProfile {
    TestProfile { id, name: name.to_string() }
}

fn database_error(kind: DatabaseErrorKind, message: &str) -> diesel::result::Error {
    diesel::result::Error::DatabaseError(kind, Box::new(message.to_string()))
}

fn entry() -> TestCanMessageEntry {
    TestCanMessageEntry {
        id: 12,
        profile_id: 3,
        can_id: 513,
        is_extended: 0,
        data: vec![1, 0, 0, 0, 0, 0, 0, 0],
        mode: "oneshot".to_string(),
        offset_ms: 500,
        period_ms: None,
    }
}

#[test]
fn find_by_name_gives_found_row() {
    let found = profiles::find_by_name(Ok(profile(3, "PROFILE_001")));
    assert!(matches!(found, Ok(Some(p)) if p == profile(3, "PROFILE_001")));
}

#[test]
fn find_by_name_turns_not_found_into_none() {
    let found = profiles::find_by_name(Err(diesel::result::Error::NotFound));
    assert!(matches!(found, Ok(None)));
}

#[test]
fn find_by_name_reports_other_failures_as_query_errors() {
    let found = profiles::find_by_name(Err(diesel::result::Error::RollbackTransaction));
    assert!(matches!(found, Err(DbError::Query(diesel::result::Error::RollbackTransaction))));
}

#[test]
fn get_by_name_returns_found_profile() {
    let got = profiles::get_by_name(Ok(Some(profile(7, "bench"))), "bench");
    assert!(matches!(got, Ok(p) if p == profile(7, "bench")));
}

#[test]
fn get_by_name_reports_missing_profile_by_name() {
    let got = profiles::get_by_name(Ok(None), "missing");
    assert!(matches!(got, Err(DbError::ProfileNotFound(n)) if n == "missing"));
}

#[test]
fn get_by_name_passes_lookup_failure_on() {
    let got = profiles::get_by_name(Err(DbError::Query(diesel::result::Error::NotInTransaction)), "x");
    assert!(matches!(got, Err(DbError::Query(diesel::result::Error::NotInTransaction))));
}

#[test]
fn get_by_name_with_empty_name() {
    let got = profiles::get_by_name(Ok(None), "");
    assert!(matches!(got, Err(DbError::ProfileNotFound(n)) if n.is_empty()));
}

#[test]
fn create_profile_returns_inserted_row() {
    let created = profiles::create(Ok(profile(4, "new")), "new");
    assert!(matches!(created, Ok(p) if p == profile(4, "new")));
}

#[test]
fn create_profile_reports_taken_name() {
    let err = database_error(DatabaseErrorKind::UniqueViolation, "UNIQUE constraint failed: test_profile.name");
    let created = profiles::create(Err(err), "PROFILE_001");
    assert!(matches!(created, Err(DbError::ProfileAlreadyExists(n)) if n == "PROFILE_001"));
}

#[test]
fn create_profile_reports_check_violation_as_query_error() {
    let err = database_error(DatabaseErrorKind::CheckViolation, "CHECK constraint failed");
    let created = profiles::create(Err(err), "p");
    assert!(matches!(created, Err(DbError::Query(diesel::result::Error::DatabaseError(DatabaseErrorKind::CheckViolation, _)))));
}

#[test]
fn create_profile_reports_other_failure_as_query_error() {
    let created = profiles::create(Err(diesel::result::Error::RollbackTransaction), "p");
    assert!(matches!(created, Err(DbError::Query(diesel::result::Error::RollbackTransaction))));
}

#[test]
fn new_can_message_takes_profile_id_and_input_fields() {
    let input = NewCanMessageInput {
        can_id: 0x1FFF_FFFF,
        is_extended: 1,
        data: vec![0xde, 0xad],
        mode: "broadcast".to_string(),
        offset_ms: 250,
        period_ms: Some(100),
    };
    let row = messages::new_can_message(&profile(9, "p"), input);
    assert_eq!(row.profile_id, 9);
    assert_eq!(row.can_id, 0x1FFF_FFFF);
    assert_eq!(row.is_extended, 1);
    assert_eq!(row.data, vec![0xde, 0xad]);
    assert_eq!(row.mode, "broadcast");
    assert_eq!(row.offset_ms, 250);
    assert_eq!(row.period_ms, Some(100));
}

#[test]
fn create_message_returns_inserted_row() {
    let created = messages::create(Ok(entry()));
    assert!(matches!(created, Ok(e) if e == entry()));
}

#[test]
fn create_message_reports_check_violation_with_database_message() {
    let err = database_error(DatabaseErrorKind::CheckViolation, "CHECK constraint failed: mode");
    let created = messages::create(Err(err));
    assert!(matches!(created, Err(DbError::InvalidCanMessage(m)) if m == "CHECK constraint failed: mode"));
}

#[test]
fn create_message_reports_unique_violation_as_query_error() {
    let err = database_error(DatabaseErrorKind::UniqueViolation, "UNIQUE constraint failed");
    let created = messages::create(Err(err));
    assert!(matches!(created, Err(DbError::Query(diesel::result::Error::DatabaseError(DatabaseErrorKind::UniqueViolation, _)))));
}

#[test]
fn create_message_reports_not_found_as_query_error() {
    let created = messages::create(Err(diesel::result::Error::NotFound));
    assert!(matches!(created, Err(DbError::Query(diesel::result::Error::NotFound))));
}

#[test]
fn query_error_converts_into_query_variant() {
    let e: DbError = diesel::result::Error::NotFound.into();
    assert!(matches!(e, DbError::Query(diesel::result::Error::NotFound)));
}

#[test]
fn migration_failure_keeps_its_message() {
    assert!(matches!(migration_result(Ok(())), Ok(())));
    let r = migration_result(Err("no such table".to_string()));
    assert!(matches!(r, Err(DbError::Migration(m)) if m == "no such table"));
}

fn input() -> NewCanMessageInput {
    NewCanMessageInput {
        can_id: 0x7FF,
        is_extended: 0,
        data: vec![1, 2, 3],
        mode: "oneshot".to_string(),
        offset_ms: 0,
        period_ms: None,
    }
}

#[test]
fn create_message_reports_foreign_key_violation_as_query_error() {
    let err = database_error(DatabaseErrorKind::ForeignKeyViolation, "FOREIGN KEY constraint failed");
    let created = messages::create(Err(err));
    assert!(matches!(created, Err(DbError::Query(diesel::result::Error::DatabaseError(DatabaseErrorKind::ForeignKeyViolation, _)))));
}

#[test]
fn row_to_insert_uses_found_profile() {
    let row = messages::row_to_insert(Ok(profile(11, "p")), input());
    assert!(matches!(row, Ok(r) if r.profile_id == 11 && r.can_id == 0x7FF && r.data == vec![1, 2, 3]));
}

#[test]
fn message_for_unknown_profile_is_not_inserted() {
    let looked_up = profiles::get_by_name(profiles::find_by_name(Err(diesel::result::Error::NotFound)), "ghost");
    let row = messages::row_to_insert(looked_up, input());
    assert!(matches!(row, Err(DbError::ProfileNotFound(n)) if n == "ghost"));
}

#[test]
fn message_insert_passes_lookup_failure_on() {
    let looked_up = profiles::get_by_name(profiles::find_by_name(Err(diesel::result::Error::RollbackTransaction)), "p");
    let row = messages::row_to_insert(looked_up, input());
    assert!(matches!(row, Err(DbError::Query(diesel::result::Error::RollbackTransaction))));
}

#[test]
fn profile_to_load_is_found_profile_id() {
    assert!(matches!(messages::profile_to_load(Ok(profile(5, "p"))), Ok(5)));
    let missing = messages::profile_to_load(Err(DbError::ProfileNotFound("p".to_string())));
    assert!(matches!(missing, Err(DbError::ProfileNotFound(n)) if n == "p"));
}
