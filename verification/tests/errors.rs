use live_code_lib::clock::{
    decision_instant, decision_time, epoch_seconds, epoch_time, render,
};
use live_code_lib::errors::{
    classify, client_error_at, network_error_category, network_error_report,
    network_error_to_string, send_client_error, storage_error_report, storage_error_to_string,
    timestamp, timestamp_or_epoch, ErrorCategory, NetworkError, StorageError, EPOCH_TIMESTAMP,
};
use live_code_lib::models::{Field, TRY_AGAIN};
use live_code_lib::remote::{
    availability_query, settle_report, settle_response, CHECK_FIELD_ENDPOINT, LOGIN_ENDPOINT,
    REGISTER_ENDPOINT,
};
use live_code_lib::text_map::TextMap;
use live_code_lib::throttle::{should_send_error, ErrorThrottle, ERROR_COOLDOWN_SECS};
use std::time::{Duration, SystemTime, UNIX_EPOCH};

fn network(decode: bool, timeout: bool, connect: bool, body: bool) -> NetworkError {
    NetworkError {
        is_decode: decode,
        is_timeout: timeout,
        is_connect: connect,
        is_body: body,
        detail: "expected value at line 1 column 1 of /srv/secret/path".to_string(),
    }
}

#[test]
fn each_category_has_its_fixed_sentence() {
    assert_eq!(
        classify(ErrorCategory::Decode),
        "Received invalid response from server. Please try again."
    );
    assert_eq!(classify(ErrorCategory::Timeout), "Connection timed out. Please try again.");
    assert_eq!(
        classify(ErrorCategory::Connect),
        "Could not connect to server. Please check your internet connection."
    );
    assert_eq!(
        classify(ErrorCategory::Body),
        "Received invalid response from server. Please try again."
    );
    assert_eq!(
        classify(ErrorCategory::Storage),
        "Could not access local storage. Please check your permissions."
    );
    assert_eq!(classify(ErrorCategory::Unknown), "Network error occurred. Please try again.");
}

#[test]
fn network_errors_are_classified_in_order() {
    assert_eq!(network_error_category(&network(true, true, true, true)), ErrorCategory::Decode);
    assert_eq!(network_error_category(&network(false, true, true, true)), ErrorCategory::Timeout);
    assert_eq!(network_error_category(&network(false, false, true, true)), ErrorCategory::Connect);
    assert_eq!(network_error_category(&network(false, false, false, true)), ErrorCategory::Body);
    assert_eq!(
        network_error_category(&network(false, false, false, false)),
        ErrorCategory::Unknown
    );
}

#[test]
fn network_error_messages_are_the_fixed_sentences() {
    assert_eq!(
        network_error_to_string(network(true, false, false, false)),
        "Received invalid response from server. Please try again."
    );
    assert_eq!(
        network_error_to_string(network(false, true, true, false)),
        "Connection timed out. Please try again."
    );
    assert_eq!(
        network_error_to_string(network(false, false, true, false)),
        "Could not connect to server. Please check your internet connection."
    );
    assert_eq!(
        network_error_to_string(network(false, false, false, true)),
        "Received invalid response from server. Please try again."
    );
    assert_eq!(
        network_error_to_string(network(false, false, false, false)),
        "Network error occurred. Please try again."
    );
}

#[test]
fn user_messages_never_carry_the_detail() {
    for flags in 0..16u8 {
        let error = network(flags & 1 != 0, flags & 2 != 0, flags & 4 != 0, flags & 8 != 0);
        let message = network_error_to_string(error);
        assert!(!message.contains("secret"));
        assert!(!message.contains("line 1"));
    }
    let message = storage_error_to_string(StorageError { detail: "Io(/home/u/.secret)".to_string() });
    assert!(!message.contains("secret"));
}

#[test]
fn only_decode_failures_are_reported() {
    let report = network_error_report(&network(true, false, false, false)).unwrap();
    assert_eq!(report.error_type, "json_decode_network");
    assert_eq!(
        report.error_message,
        "JSON decode failed: expected value at line 1 column 1 of /srv/secret/path"
    );
    assert!(network_error_report(&network(false, true, true, true)).is_none());
    assert!(network_error_report(&network(false, false, false, false)).is_none());
}

#[test]
fn storage_errors_have_one_sentence_and_are_always_reported() {
    let error = StorageError { detail: "Io(Os { code: 13 })".to_string() };
    let report = storage_error_report(&error);
    assert_eq!(report.error_type, "storage_error");
    assert_eq!(report.error_message, "Storage error: Io(Os { code: 13 })");
    assert_eq!(
        storage_error_to_string(error),
        "Could not access local storage. Please check your permissions."
    );
}

#[test]
fn throttle_sends_once_per_window() {
    let mut throttle = ErrorThrottle::new();
    assert_eq!(ERROR_COOLDOWN_SECS, 60);
    assert_eq!(throttle.last_sent("x"), None);
    assert!(throttle.should_send_at("x", 1_000));
    assert_eq!(throttle.last_sent("x"), Some(1_000));
    assert!(!throttle.should_send_at("x", 1_000));
    assert!(!throttle.should_send_at("x", 1_030));
    assert!(!throttle.should_send_at("x", 1_059));
    assert_eq!(throttle.last_sent("x"), Some(1_000));
    assert!(throttle.should_send_at("x", 1_060));
    assert_eq!(throttle.last_sent("x"), Some(1_060));
    assert!(!throttle.should_send_at("x", 1_119));
    assert!(throttle.should_send_at("x", 5_000));
}

#[test]
fn throttle_is_not_a_sliding_window() {
    let mut throttle = ErrorThrottle::new();
    assert!(throttle.should_send_at("x", 100));
    assert!(!throttle.should_send_at("x", 150));
    assert!(throttle.should_send_at("x", 160));
    assert_eq!(throttle.last_sent("x"), Some(160));
}

#[test]
fn throttle_keeps_error_types_apart() {
    let mut throttle = ErrorThrottle::new();
    assert!(throttle.should_send_at("x", 1_000));
    assert!(throttle.should_send_at("y", 1_001));
    assert!(!throttle.should_send_at("x", 1_002));
    assert!(!throttle.should_send_at("y", 1_002));
    assert_eq!(throttle.last_sent("x"), Some(1_000));
    assert_eq!(throttle.last_sent("y"), Some(1_001));
    assert_eq!(throttle.last_sent("z"), None);
}

#[test]
fn throttle_holds_back_when_the_clock_goes_backwards() {
    let mut throttle = ErrorThrottle::new();
    assert!(throttle.should_send_at("x", 1_000));
    assert!(!throttle.should_send_at("x", 10));
    assert_eq!(throttle.last_sent("x"), Some(1_000));
    assert!(throttle.should_send_at("x", u64::MAX));
    assert!(!throttle.should_send_at("x", u64::MAX));
}

#[test]
fn throttle_by_the_clock_sends_then_holds_back() {
    let mut throttle = ErrorThrottle::new();
    assert!(should_send_error(&mut throttle, "x"));
    assert!(!should_send_error(&mut throttle, "x"));
    assert!(should_send_error(&mut throttle, "y"));
    let noted = throttle.last_sent("x").unwrap();
    assert!(noted > 1_600_000_000);
}

#[test]
fn client_error_record_is_built_when_due() {
    let mut throttle = ErrorThrottle::new();
    let record = client_error_at(
        &mut throttle,
        "storage_error",
        "Storage error: Io",
        "0.1.0",
        "linux",
        1_000,
        "2024-01-01T00:00:00+00:00".to_string(),
    )
    .unwrap();
    assert_eq!(record.timestamp, "2024-01-01T00:00:00+00:00");
    assert_eq!(record.error_type, "storage_error");
    assert_eq!(record.error_message, "Storage error: Io");
    assert_eq!(record.app_version, "0.1.0");
    assert_eq!(record.os, "linux");
    assert_eq!(throttle.last_sent("storage_error"), Some(1_000));

    let held = client_error_at(
        &mut throttle,
        "storage_error",
        "Storage error: Io",
        "0.1.0",
        "linux",
        1_059,
        "2024-01-01T00:00:59+00:00".to_string(),
    );
    assert!(held.is_none());
    assert_eq!(throttle.last_sent("storage_error"), Some(1_000));
}

#[test]
fn client_error_by_the_clock_is_stamped_and_throttled() {
    let mut throttle = ErrorThrottle::new();
    let record =
        send_client_error(&mut throttle, "json_decode_network", "JSON decode failed: x", "1.2.3", "macos")
            .unwrap();
    assert_eq!(record.error_type, "json_decode_network");
    assert_eq!(record.error_message, "JSON decode failed: x");
    assert_eq!(record.app_version, "1.2.3");
    assert_eq!(record.os, "macos");
    assert!(chrono::DateTime::parse_from_rfc3339(&record.timestamp).is_ok());
    assert!(send_client_error(&mut throttle, "json_decode_network", "again", "1.2.3", "macos")
        .is_none());
}

#[test]
fn text_map_inserts_replaces_and_removes() {
    let mut map: TextMap<u64> = TextMap::new();
    assert_eq!(map.get("a"), None);
    map.insert("a".to_string(), 1);
    map.insert("b".to_string(), 2);
    assert_eq!(map.get("a"), Some(&1));
    assert_eq!(map.get("b"), Some(&2));
    map.insert("a".to_string(), 3);
    assert_eq!(map.get("a"), Some(&3));
    assert_eq!(map.get("b"), Some(&2));
    assert!(map.remove("a"));
    assert!(!map.remove("a"));
    assert_eq!(map.get("a"), None);
    assert_eq!(map.get("b"), Some(&2));
}

#[test]
fn decoded_body_is_handed_on_whatever_the_status() {
    assert_eq!(settle_response(true, Ok(7u32)), Ok(7));
    assert_eq!(settle_response(false, Ok(7u32)), Ok(7));
}

#[test]
fn undecodable_body_under_an_error_status_is_generic() {
    let result: Result<u32, String> = settle_response(false, Err(network(true, false, false, false)));
    assert_eq!(result, Err(TRY_AGAIN.to_string()));
}

#[test]
fn undecodable_body_under_a_success_status_is_a_network_failure() {
    let result: Result<u32, String> = settle_response(true, Err(network(true, false, false, false)));
    assert_eq!(
        result,
        Err("Received invalid response from server. Please try again.".to_string())
    );
    let result: Result<u32, String> = settle_response(true, Err(network(false, true, false, false)));
    assert_eq!(result, Err("Connection timed out. Please try again.".to_string()));
}

#[test]
fn availability_query_names_field_and_value() {
    assert_eq!(
        availability_query(Field::Email, "a@b.com"),
        vec![
            ("field".to_string(), "email".to_string()),
            ("value".to_string(), "a@b.com".to_string()),
        ]
    );
    assert_eq!(
        availability_query(Field::Username, "alice"),
        vec![
            ("field".to_string(), "username".to_string()),
            ("value".to_string(), "alice".to_string()),
        ]
    );
    assert_eq!(REGISTER_ENDPOINT, "register");
    assert_eq!(LOGIN_ENDPOINT, "login");
    assert_eq!(CHECK_FIELD_ENDPOINT, "check-field");
}

#[test]
fn clock_before_the_epoch_gives_no_time_and_reads_as_the_epoch() {
    let before = UNIX_EPOCH - Duration::from_secs(5);
    assert_eq!(epoch_seconds(before.duration_since(UNIX_EPOCH)), None);
    assert_eq!(decision_time(None), 0);
}

#[test]
fn clock_after_the_epoch_gives_whole_seconds() {
    let after = UNIX_EPOCH + Duration::from_millis(90_500);
    assert_eq!(epoch_seconds(after.duration_since(UNIX_EPOCH)), Some(90));
    assert_eq!(epoch_seconds(UNIX_EPOCH.duration_since(UNIX_EPOCH)), Some(0));
    assert_eq!(decision_time(Some(90)), 90);
    let now = epoch_seconds(SystemTime::now().duration_since(UNIX_EPOCH)).unwrap();
    assert!(now > 1_600_000_000);
}

#[test]
fn epoch_timestamp_is_the_rendering_of_the_epoch() {
    assert_eq!(EPOCH_TIMESTAMP, "1970-01-01T00:00:00+00:00");
    assert_eq!(chrono::DateTime::UNIX_EPOCH.to_rfc3339(), EPOCH_TIMESTAMP);
}

#[test]
fn first_record_of_each_type_goes_out_by_the_clock() {
    let mut throttle = ErrorThrottle::new();
    for error_type in ["a", "b", "c"] {
        assert!(should_send_error(&mut throttle, error_type));
        assert!(throttle.last_sent(error_type).is_some());
    }
    for error_type in ["d", "e"] {
        assert!(send_client_error(&mut throttle, error_type, "m", "1", "linux").is_some());
        assert!(throttle.last_sent(error_type).is_some());
    }
    assert!(!should_send_error(&mut throttle, "d"));
    assert!(send_client_error(&mut throttle, "a", "m", "1", "linux").is_none());
}

#[test]
fn clock_reading_keeps_the_nanoseconds() {
    let after = UNIX_EPOCH + Duration::new(90, 500_000_000);
    assert_eq!(epoch_time(after.duration_since(UNIX_EPOCH)), Some((90, 500_000_000)));
    let before = UNIX_EPOCH - Duration::from_secs(5);
    assert_eq!(epoch_time(before.duration_since(UNIX_EPOCH)), None);
    assert_eq!(decision_instant(Some((90, 7))), (90, 7));
    assert_eq!(decision_instant(None), (0, 0));
}

#[test]
fn instants_are_rendered_as_rfc3339_in_utc() {
    assert_eq!(render(0, 0), Some("1970-01-01T00:00:00+00:00".to_string()));
    assert_eq!(render(1_700_000_000, 0), Some("2023-11-14T22:13:20+00:00".to_string()));
    assert_eq!(
        render(1_700_000_000, 500_000_000),
        Some("2023-11-14T22:13:20.500+00:00".to_string())
    );
    assert_eq!(
        render(1_700_000_000, 123_456_789),
        Some("2023-11-14T22:13:20.123456789+00:00".to_string())
    );
    assert_eq!(render(86_399, 1), Some("1970-01-01T23:59:59.000000001+00:00".to_string()));
}

#[test]
fn instants_out_of_range_have_no_rendering() {
    assert_eq!(render(u64::MAX, 0), None);
    assert_eq!(render(i64::MAX as u64, 0), None);
    assert_eq!(render(i64::MAX as u64 + 1, 0), None);
    assert_eq!(render(0, 2_000_000_000), None);
}

#[test]
fn timestamp_falls_back_to_the_epoch() {
    assert_eq!(timestamp(1_700_000_000, 0), "2023-11-14T22:13:20+00:00");
    assert_eq!(timestamp(0, 0), EPOCH_TIMESTAMP);
    assert_eq!(timestamp(u64::MAX, 0), EPOCH_TIMESTAMP);
    assert_eq!(timestamp(5, 2_000_000_000), EPOCH_TIMESTAMP);
    assert_eq!(timestamp_or_epoch(Some("2024-01-01T00:00:00+00:00".to_string())), "2024-01-01T00:00:00+00:00");
    assert_eq!(timestamp_or_epoch(None), "1970-01-01T00:00:00+00:00");
}

#[test]
fn record_by_the_clock_is_stamped_with_the_time_of_the_decision() {
    let mut throttle = ErrorThrottle::new();
    let record = send_client_error(&mut throttle, "x", "m", "1", "linux").unwrap();
    let noted = throttle.last_sent("x").unwrap();
    let stamped = chrono::DateTime::parse_from_rfc3339(&record.timestamp).unwrap();
    assert_eq!(stamped.timestamp() as u64, noted);
    assert_eq!(stamped.offset().local_minus_utc(), 0);
}

#[test]
fn only_an_undecodable_success_is_reported_to_telemetry() {
    let decode = network(true, false, false, false);
    let timeout = network(false, true, false, false);
    let report = settle_report(true, Some(&decode)).unwrap();
    assert_eq!(report.error_type, "json_decode_network");
    assert_eq!(
        report.error_message,
        "JSON decode failed: expected value at line 1 column 1 of /srv/secret/path"
    );
    assert!(settle_report(false, Some(&decode)).is_none());
    assert!(settle_report(true, Some(&timeout)).is_none());
    assert!(settle_report(false, Some(&timeout)).is_none());
    assert!(settle_report(true, None).is_none());
    assert!(settle_report(false, None).is_none());
}
