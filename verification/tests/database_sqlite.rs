//! Behaviour of the SQLite-backed database: the pooled credential store and
//! the transactional event writer, exercised against a real database file.
//! Counting tests measure deltas, so a database file that outlives one run
//! does not disturb them.

use pop_ingest::app_context::{authenticate, fail_closed, insert_accepted, AppContext, Database, InitError};
use pop_ingest::real_time_pop_request::{
    end_time_from_civil, RealTimePopEntry, RealTimePopRequest, SubmissionOutcome,
};

const DB_FILE: &str = "/tmp/pop_ingest_suite.db";

fn open_db() -> Database {
    Database::from_sqlite(DB_FILE).expect("the suite database must open")
}

fn valid_entry() -> RealTimePopEntry {
    RealTimePopEntry {
        display_unit_id: 123,
        frame_id: 124,
        active_screens_count: 2,
        ad_copy_id: 56467,
        campaign_id: 61000,
        schedule_id: 61001,
        impressions: 675,
        interactions: 0,
        end_time: end_time_from_civil(2017, 11, 23, 13, 27, 12, 500).unwrap(),
        duration_ms: 12996,
        service_name: "bmb".to_owned(),
        service_value: "701".to_owned(),
        extra_data: "".to_owned(),
    }
}

fn valid_request(api_key: &str) -> RealTimePopRequest {
    RealTimePopRequest {
        api_key: api_key.to_owned(),
        player_id: 123456,
        pops: vec![valid_entry()],
    }
}

fn count_for(db: &Database, api_key: &str) -> i64 {
    db.pop_count_for_key(&api_key.to_owned()).expect("the count query must run")
}

#[test]
fn given_initialization_step_do_not_fail() {
    let _ = open_db();
}

#[test]
fn given_an_existing_api_key_user_exists_should_return_true() {
    let db = open_db();
    db.create_user("some_secure_api_key");
    let found = db.user_exists(&"some_secure_api_key".to_owned());
    assert_eq!(found, true);
}

#[test]
fn given_a_valid_pop_request_should_succeed_to_insert() {
    let db = open_db();
    db.create_user("some_secure_api_key");
    let result = db.store_pop(&valid_request("some_secure_api_key"));
    assert_eq!(result, true);
}

#[test]
fn given_a_valid_pop_and_healthy_server_respond_ok() {
    let app_context = AppContext { database: open_db() };
    app_context.database.create_user("some_secure_api_key");
    assert!(authenticate(&app_context, &"some_secure_api_key".to_owned()));
    let outcome = app_context.database.authenticate_and_store(&valid_request(
        "some_secure_api_key",
    ));
    assert_eq!(outcome, SubmissionOutcome::Stored);
}

#[test]
fn given_an_invalid_api_key_server_responds_401_unauthorized() {
    let app_context = AppContext { database: open_db() };
    app_context.database.create_user("some_secure_api_key");
    let before = count_for(&app_context.database, "some_invalid_api_key");
    let outcome = app_context.database.authenticate_and_store(&valid_request(
        "some_invalid_api_key",
    ));
    assert_eq!(outcome, SubmissionOutcome::Unauthorized);
    assert_eq!(count_for(&app_context.database, "some_invalid_api_key"), before);
}

#[test]
fn unstorable_event_rolls_back_the_whole_batch() {
    let db = open_db();
    db.create_user("atomicity_key");
    let before = count_for(&db, "atomicity_key");

    let mut request = valid_request("atomicity_key");
    let mut poison = valid_entry();
    poison.display_unit_id = u64::MAX;
    request.pops.push(poison);

    let outcome = db.authenticate_and_store(&request);
    assert_eq!(outcome, SubmissionOutcome::Failed);
    assert_eq!(count_for(&db, "atomicity_key"), before);
}

#[test]
fn duplicate_submission_adds_two_rows() {
    let db = open_db();
    db.create_user("dedup_key");
    let before = count_for(&db, "dedup_key");

    let request = valid_request("dedup_key");
    assert_eq!(db.authenticate_and_store(&request), SubmissionOutcome::Stored);
    assert_eq!(db.authenticate_and_store(&request), SubmissionOutcome::Stored);

    assert_eq!(count_for(&db, "dedup_key"), before + 2);
}

#[test]
fn ten_sequential_submissions_add_ten_rows() {
    let db = open_db();
    db.create_user("burst_key");
    let before = count_for(&db, "burst_key");
    for caller in 0..10u64 {
        let mut request = valid_request("burst_key");
        request.pops[0].schedule_id = 61001 + caller;
        assert_eq!(db.authenticate_and_store(&request), SubmissionOutcome::Stored);
    }
    assert_eq!(count_for(&db, "burst_key"), before + 10);
}

#[test]
fn stored_duration_is_readable_under_the_key() {
    let db = open_db();
    db.create_user("readback_key");
    let key = "readback_key".to_owned();
    let before = db.pop_durations_for_key(&key).expect("the duration query must run");

    assert_eq!(db.authenticate_and_store(&valid_request("readback_key")), SubmissionOutcome::Stored);

    let after = db.pop_durations_for_key(&key).expect("the duration query must run");
    assert_eq!(after.len(), before.len() + 1);
    assert_eq!(after.last().copied(), Some(12996));
}

#[test]
fn unknown_key_owns_zero_rows() {
    let db = open_db();
    assert!(!db.user_exists(&"never_registered_key".to_owned()));
    assert_eq!(count_for(&db, "never_registered_key"), 0);
}

#[test]
fn initialisation_with_an_unreachable_file_reports_unavailable() {
    let result = Database::from_sqlite("/no_such_directory_anywhere/pops.db");
    assert_eq!(result.err(), Some(InitError::Unavailable));
}

#[test]
fn credential_lookup_reads_fail_closed() {
    assert_eq!(fail_closed(Ok(true)), true);
    assert_eq!(fail_closed(Ok(false)), false);
    assert_eq!(fail_closed(Err(rusqlite::Error::QueryReturnedNoRows)), false);
}

#[test]
fn an_insert_is_accepted_only_when_it_stored_exactly_one_row() {
    assert_eq!(insert_accepted(Ok(1)), true);
    assert_eq!(insert_accepted(Ok(0)), false);
    assert_eq!(insert_accepted(Ok(2)), false);
    assert_eq!(insert_accepted(Err(rusqlite::Error::QueryReturnedNoRows)), false);
}
