//! Behaviour of the logical store: authentication gating, atomicity,
//! ordering, and the absence of deduplication.

use pop_ingest::ledger::Ledger;
use pop_ingest::real_time_pop_request::{
    end_time_from_civil, RealTimePopEntry, RealTimePopRequest, SubmissionOutcome, MAX_STORABLE_ID,
};

fn scenario_entry() -> RealTimePopEntry {
    RealTimePopEntry {
        display_unit_id: 123,
        frame_id: 124,
        active_screens_count: 2,
        ad_copy_id: 56467,
        campaign_id: 61000,
        schedule_id: 61001,
        impressions: 675,
        interactions: 0,
        end_time: end_time_from_civil(2017, 11, 23, 13, 27, 12, 500).unwrap(),
        duration_ms: 12996,
        service_name: "bmb".to_owned(),
        service_value: "701".to_owned(),
        extra_data: "".to_owned(),
    }
}

fn scenario_request(api_key: &str) -> RealTimePopRequest {
    RealTimePopRequest {
        api_key: api_key.to_owned(),
        player_id: 123456,
        pops: vec![scenario_entry()],
    }
}

#[test]
fn registered_key_stores_every_event_of_the_batch() {
    let mut ledger = Ledger::new();
    ledger.register("k1".to_owned());
    let mut request = scenario_request("k1");
    let mut second = scenario_entry();
    second.frame_id = 125;
    second.impressions = 1;
    request.pops.push(second);

    let outcome = ledger.authenticate_and_store(&request);

    assert_eq!(outcome, SubmissionOutcome::Stored);
    assert_eq!(ledger.pop_count(), 2);
    let first_row = ledger.pop_at(0);
    let second_row = ledger.pop_at(1);
    assert_eq!(first_row.user_id, second_row.user_id);
    assert_eq!(first_row.player_id, 123456);
    assert_eq!(first_row.frame_id, 124);
    assert_eq!(second_row.frame_id, 125);
    assert_eq!(first_row.service_name, "bmb");
    assert_eq!(first_row.extra_data, "");
}

#[test]
fn unregistered_key_is_unauthorized_and_stores_nothing() {
    let mut ledger = Ledger::new();
    ledger.register("k1".to_owned());
    let request = scenario_request("k2");

    let outcome = ledger.authenticate_and_store(&request);

    assert_eq!(outcome, SubmissionOutcome::Unauthorized);
    assert_eq!(ledger.pop_count(), 0);
}

#[test]
fn unstorable_event_fails_the_whole_batch() {
    let mut ledger = Ledger::new();
    ledger.register("k1".to_owned());
    let mut request = scenario_request("k1");
    let mut poison = scenario_entry();
    poison.display_unit_id = u64::MAX;
    request.pops.push(poison);

    let outcome = ledger.authenticate_and_store(&request);

    assert_eq!(outcome, SubmissionOutcome::Failed);
    assert_eq!(ledger.pop_count(), 0);
}

#[test]
fn duplicate_submission_stores_two_rows() {
    let mut ledger = Ledger::new();
    ledger.register("k1".to_owned());
    let request = scenario_request("k1");

    assert_eq!(ledger.authenticate_and_store(&request), SubmissionOutcome::Stored);
    assert_eq!(ledger.authenticate_and_store(&request), SubmissionOutcome::Stored);

    assert_eq!(ledger.pop_count(), 2);
    assert_eq!(ledger.pop_at(0).frame_id, ledger.pop_at(1).frame_id);
    assert_eq!(ledger.pop_at(0).end_time, ledger.pop_at(1).end_time);
}

#[test]
fn ten_single_event_submissions_store_exactly_ten_rows() {
    let mut ledger = Ledger::new();
    ledger.register("k1".to_owned());
    for caller in 0..10u64 {
        let mut request = scenario_request("k1");
        request.pops[0].schedule_id = 61001 + caller;
        assert_eq!(ledger.authenticate_and_store(&request), SubmissionOutcome::Stored);
    }
    assert_eq!(ledger.pop_count(), 10);
    for caller in 0..10usize {
        assert_eq!(ledger.pop_at(caller).schedule_id, 61001 + caller as u64);
    }
}

#[test]
fn scenario_registered_key_persists_one_row_with_duration() {
    let mut ledger = Ledger::new();
    ledger.register("k1".to_owned());
    let request = scenario_request("k1");

    let outcome = ledger.authenticate_and_store(&request);

    assert_eq!(outcome, SubmissionOutcome::Stored);
    assert_eq!(ledger.pop_count(), 1);
    let row = ledger.pop_at(0);
    assert_eq!(row.duration_ms, 12996);
    assert_eq!(row.player_id, 123456);
    assert_eq!(row.end_time, 1511443632500);
}

#[test]
fn scenario_unknown_key_persists_zero_rows() {
    let mut ledger = Ledger::new();
    ledger.register("k1".to_owned());
    let request = scenario_request("unknown");

    let outcome = ledger.authenticate_and_store(&request);

    assert_eq!(outcome, SubmissionOutcome::Unauthorized);
    assert_eq!(ledger.pop_count(), 0);
}

#[test]
fn register_is_idempotent() {
    let mut ledger = Ledger::new();
    ledger.register("k1".to_owned());
    ledger.register("k1".to_owned());
    assert_eq!(ledger.tenant_count(), 1);
    assert!(ledger.user_exists(&"k1".to_owned()));
    assert!(!ledger.user_exists(&"k2".to_owned()));
}

#[test]
fn distinct_tenants_resolve_to_distinct_identifiers() {
    let mut ledger = Ledger::new();
    ledger.register("k1".to_owned());
    ledger.register("k2".to_owned());
    let first = ledger.resolve(&"k1".to_owned()).unwrap();
    let second = ledger.resolve(&"k2".to_owned()).unwrap();
    assert_ne!(first, second);
    assert_eq!(ledger.resolve(&"k3".to_owned()), None);
}

#[test]
fn storability_boundary_is_the_largest_signed_column_value() {
    let mut entry = scenario_entry();
    entry.display_unit_id = MAX_STORABLE_ID;
    let request = RealTimePopRequest {
        api_key: "k1".to_owned(),
        player_id: 123456,
        pops: vec![entry],
    };
    assert!(request.is_storable());

    let mut ledger = Ledger::new();
    ledger.register("k1".to_owned());
    assert_eq!(ledger.authenticate_and_store(&request), SubmissionOutcome::Stored);
}

#[test]
fn end_time_from_civil_matches_the_epoch() {
    assert_eq!(end_time_from_civil(1970, 1, 1, 0, 0, 0, 0), Some(0));
    assert_eq!(end_time_from_civil(1970, 1, 2, 0, 0, 0, 0), Some(86_400_000));
    assert_eq!(end_time_from_civil(2017, 11, 23, 13, 27, 12, 500), Some(1_511_443_632_500));
    assert_eq!(end_time_from_civil(2017, 13, 1, 0, 0, 0, 0), None);
    assert_eq!(end_time_from_civil(2017, 2, 30, 0, 0, 0, 0), None);
}
