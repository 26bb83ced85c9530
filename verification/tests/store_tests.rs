use bzn::credential::{resolve_credential, str_is_blank, validate_credential};
use bzn::errors::WorkflowError;
use bzn::locator::{answer_url, cache_file_name, input_url};
use bzn::numerals::u32_to_decimal;
use bzn::schedule::{default_coordinate, Coordinate};

#[test]
fn decimal_rendering_is_exact() {
    assert_eq!(u32_to_decimal(0), "0");
    assert_eq!(u32_to_decimal(5), "5");
    assert_eq!(u32_to_decimal(10), "10");
    assert_eq!(u32_to_decimal(2023), "2023");
    assert_eq!(u32_to_decimal(u32::MAX), "4294967295");
}

#[test]
fn urls_are_built_from_the_coordinate() {
    assert_eq!(input_url(2023, 5), "https://adventofcode.com/2023/day/5/input");
    assert_eq!(answer_url(2023, 5), "https://adventofcode.com/2023/day/5/answer");
    assert_eq!(input_url(2015, 25), "https://adventofcode.com/2015/day/25/input");
}

#[test]
fn cache_file_name_is_year_underscore_day() {
    assert_eq!(cache_file_name(2023, 5), "2023_5");
    assert_eq!(cache_file_name(2016, 24), "2016_24");
}

#[test]
fn missing_credential_storage_fails() {
    let r = validate_credential(None);
    assert_eq!(r.unwrap_err(), WorkflowError::CredentialMissingOrEmpty);
}

#[test]
fn empty_credential_storage_fails() {
    let r = validate_credential(Some(String::new()));
    assert_eq!(r.unwrap_err(), WorkflowError::CredentialMissingOrEmpty);
}

#[test]
fn whitespace_only_credential_storage_fails() {
    let r = validate_credential(Some(String::from(" \t\r\n \u{a0}")));
    assert_eq!(r.unwrap_err(), WorkflowError::CredentialMissingOrEmpty);
}

#[test]
fn stored_credential_reads_back_exactly() {
    // Writing a token and reading it back yields the exact written string,
    // untrimmed.
    let written = String::from("  token-with-padding \n");
    let r = validate_credential(Some(written.clone()));
    assert_eq!(r.unwrap(), written);
}

#[test]
fn blankness_check_matches_whitespace() {
    assert!(str_is_blank(""));
    assert!(str_is_blank(" \t\n\r\u{2028}\u{3000}"));
    assert!(!str_is_blank(" x "));
}

#[test]
fn supplied_credential_wins_and_is_persisted() {
    let r = resolve_credential(Some(String::from("fresh")), Some(String::from("stale")));
    assert_eq!(r.unwrap(), (String::from("fresh"), true));
}

#[test]
fn stored_credential_is_used_when_none_is_supplied() {
    let r = resolve_credential(None, Some(String::from("stored-token")));
    assert_eq!(r.unwrap(), (String::from("stored-token"), false));
}

#[test]
fn no_credential_anywhere_is_fatal() {
    let r = resolve_credential(None, None);
    assert_eq!(r.unwrap_err(), WorkflowError::CredentialMissingOrEmpty);
    let r = resolve_credential(None, Some(String::from("   ")));
    assert_eq!(r.unwrap_err(), WorkflowError::CredentialMissingOrEmpty);
}

#[test]
fn coordinate_defaults_only_inside_the_active_window() {
    assert_eq!(default_coordinate(2023, 12, 5), Some(Coordinate { year: 2023, day: 5 }));
    assert_eq!(default_coordinate(2023, 12, 25), Some(Coordinate { year: 2023, day: 25 }));
    assert_eq!(default_coordinate(2023, 12, 26), None);
    assert_eq!(default_coordinate(2023, 11, 5), None);
}

#[test]
fn error_messages_name_the_failure() {
    assert_eq!(
        WorkflowError::CredentialMissingOrEmpty.message(),
        "session credential is missing or empty"
    );
    assert_eq!(WorkflowError::TransportFailure.message(), "the network request failed");
    assert_eq!(WorkflowError::DecodeFailure.message(), "the response body is not valid UTF-8");
    assert_eq!(
        WorkflowError::ExtractionFailure.message(),
        "the response holds no <main> fragment"
    );
    assert_eq!(
        WorkflowError::FilesystemFailure.message(),
        "a cache or configuration file operation failed"
    );
}
