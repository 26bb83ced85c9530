use bzn::errors::WorkflowError;
use bzn::workflow::{plan_fetch, process_submission, session_cookie, settle_fetch,
    submission_form, FetchPlan, HttpResponse};

#[test]
fn cache_hit_is_served_from_cache() {
    assert_eq!(plan_fetch(true), FetchPlan::ServeCache);
    assert_eq!(plan_fetch(false), FetchPlan::CallNetwork);
}

#[test]
fn successful_fetch_is_emitted_and_persisted() {
    // Coordinate (2023, 5), no cache entry, transport answers 200 with a body.
    let body = "1,2,3\n4,5,6".as_bytes().to_vec();
    let settled = settle_fetch(HttpResponse { ok: true, body: body.clone() }).unwrap();
    assert_eq!(settled.output, "1,2,3\n4,5,6");
    assert_eq!(settled.store, Some(body.clone()));

    // A second fetch for (2023, 5) is served from the now-present cache entry
    // with identical content, without consulting the transport.
    assert_eq!(plan_fetch(true), FetchPlan::ServeCache);
    let cached = settled.store.unwrap();
    assert_eq!(cached, body);
    assert_eq!(String::from_utf8(cached).unwrap(), "1,2,3\n4,5,6");
}

#[test]
fn failed_fetch_is_emitted_but_not_cached() {
    let settled = settle_fetch(HttpResponse {
        ok: false,
        body: b"404 you fell off the sleigh".to_vec(),
    })
    .unwrap();
    assert_eq!(settled.output, "404 you fell off the sleigh");
    assert_eq!(settled.store, None);
}

#[test]
fn fetch_body_that_is_not_utf8_is_a_decode_failure() {
    let r = settle_fetch(HttpResponse { ok: true, body: vec![0xff, 0xfe, 0x00] });
    assert_eq!(r.unwrap_err(), WorkflowError::DecodeFailure);
}

#[test]
fn submission_renders_exactly_the_main_fragment() {
    // (2023, 5), level 2, piped answer "42": the mocked transport answers the
    // usual page; the output is the rendered plain text of the fragment.
    let body = b"<html><body><main>That's the right answer!</main></body></html>".to_vec();
    let out = process_submission(body).unwrap();
    assert_eq!(out, "That's the right answer!");
}

#[test]
fn submission_without_main_fragment_fails_whole_operation() {
    let body = b"<html><body><p>Please log in</p></body></html>".to_vec();
    let r = process_submission(body);
    assert_eq!(r.unwrap_err(), WorkflowError::ExtractionFailure);
}

#[test]
fn submission_body_that_is_not_utf8_is_a_decode_failure() {
    let r = process_submission(vec![b'<', 0xc3, 0x28, b'>']);
    assert_eq!(r.unwrap_err(), WorkflowError::DecodeFailure);
}

#[test]
fn session_cookie_carries_the_credential() {
    let c = session_cookie(String::from("token-123"));
    assert_eq!(c.name, "session");
    assert_eq!(c.value, "token-123");
    assert_eq!(c.domain, "adventofcode.com");
    assert!(c.secure);
}

#[test]
fn submission_form_holds_level_and_answer() {
    let form = submission_form(2, String::from("42"));
    assert_eq!(form.len(), 2);
    assert_eq!(form[0], (String::from("level"), String::from("2")));
    assert_eq!(form[1], (String::from("answer"), String::from("42")));
}
