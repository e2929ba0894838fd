use node_boot::numeric::{parse_u64, u64_to_dec};
use node_boot::rpc::{
    handle_block_at_response, handle_latest_response, request_path, resolve_step, ResolveError,
    ResolvePhase,
};

fn latest_body(height: &str) -> String {
    format!("{{\"result\":{{\"block\":{{\"header\":{{\"height\":\"{}\"}}}}}}}}", height)
}

fn hash_body(hash: &str) -> String {
    format!("{{\"result\":{{\"block_id\":{{\"hash\":\"{}\"}}}}}}", hash)
}

#[test]
fn trust_height_is_latest_minus_window() {
    assert_eq!(handle_latest_response(200, &latest_body("1000")), Ok(900));
    assert_eq!(handle_latest_response(200, &latest_body("101")), Ok(1));
    assert_eq!(
        handle_latest_response(200, &latest_body("18446744073709551615")),
        Ok(18446744073709551515)
    );
}

#[test]
fn trust_hash_taken_verbatim() {
    let r = handle_block_at_response(200, &hash_body("ABCD1234"), 900);
    match r {
        Ok(params) => {
            assert_eq!(params.height, 900);
            assert_eq!(params.hash, "ABCD1234");
        },
        Err(_) => panic!("expected a resolved trust anchor"),
    }
}

#[test]
fn non_success_status_is_a_network_error() {
    assert_eq!(handle_latest_response(500, &latest_body("1000")), Err(ResolveError::NetworkError));
    assert_eq!(handle_latest_response(404, "not json"), Err(ResolveError::NetworkError));
    assert_eq!(handle_latest_response(199, &latest_body("1000")), Err(ResolveError::NetworkError));
    assert_eq!(handle_latest_response(300, &latest_body("1000")), Err(ResolveError::NetworkError));
    match handle_block_at_response(503, &hash_body("AB"), 900) {
        Err(ResolveError::NetworkError) => {},
        _ => panic!("expected a network error"),
    }
}

#[test]
fn failed_first_call_issues_no_second_request() {
    let next = resolve_step(ResolvePhase::NeedLatest, 500, &latest_body("1000"));
    match next {
        ResolvePhase::Failed { error } => assert_eq!(error, ResolveError::NetworkError),
        _ => panic!("expected resolution to fail"),
    }
    let next = resolve_step(ResolvePhase::NeedLatest, 500, &latest_body("1000"));
    assert!(request_path(&next).is_none());
}

#[test]
fn short_chain_is_rejected_not_wrapped() {
    assert_eq!(
        handle_latest_response(200, &latest_body("100")),
        Err(ResolveError::HeightOutOfRange)
    );
    assert_eq!(
        handle_latest_response(200, &latest_body("50")),
        Err(ResolveError::HeightOutOfRange)
    );
    assert_eq!(handle_latest_response(200, &latest_body("0")), Err(ResolveError::HeightOutOfRange));
}

#[test]
fn malformed_bodies_are_rejected() {
    assert_eq!(handle_latest_response(200, "not json"), Err(ResolveError::MalformedResponseError));
    assert_eq!(handle_latest_response(200, "{}"), Err(ResolveError::MalformedResponseError));
    assert_eq!(
        handle_latest_response(200, "{\"result\":{\"block\":{\"header\":{}}}}"),
        Err(ResolveError::MalformedResponseError)
    );
    // The height must be transmitted as a string, not a bare number.
    assert_eq!(
        handle_latest_response(200, "{\"result\":{\"block\":{\"header\":{\"height\":1000}}}}"),
        Err(ResolveError::MalformedResponseError)
    );
    assert_eq!(
        handle_latest_response(200, &latest_body("twelve")),
        Err(ResolveError::MalformedResponseError)
    );
    assert_eq!(
        handle_latest_response(200, &latest_body("18446744073709551616")),
        Err(ResolveError::MalformedResponseError)
    );
    match handle_block_at_response(200, &hash_body(""), 900) {
        Err(ResolveError::MalformedResponseError) => {},
        _ => panic!("an empty hash must be rejected"),
    }
    match handle_block_at_response(200, "{}", 900) {
        Err(ResolveError::MalformedResponseError) => {},
        _ => panic!("a missing hash must be rejected"),
    }
}

#[test]
fn end_to_end_resolution() {
    let phase = ResolvePhase::NeedLatest;
    assert_eq!(request_path(&phase).unwrap(), "/block");
    let phase = resolve_step(phase, 200, &latest_body("1000"));
    assert_eq!(request_path(&phase).unwrap(), "/block?height=900");
    let phase = resolve_step(phase, 200, &hash_body("ABCD1234"));
    match phase {
        ResolvePhase::Resolved { params } => {
            assert_eq!(params.height, 900);
            assert_eq!(params.hash, "ABCD1234");
        },
        _ => panic!("expected resolution to complete"),
    }
}

#[test]
fn decimal_parse_accepts_digit_strings_only() {
    assert_eq!(parse_u64("0"), Some(0));
    assert_eq!(parse_u64("007"), Some(7));
    assert_eq!(parse_u64("900"), Some(900));
    assert_eq!(parse_u64("18446744073709551615"), Some(u64::MAX));
    assert_eq!(parse_u64("18446744073709551616"), None);
    assert_eq!(parse_u64(""), None);
    assert_eq!(parse_u64("12a"), None);
    assert_eq!(parse_u64("-1"), None);
    assert_eq!(parse_u64(" 1"), None);
}

#[test]
fn decimal_rendering_round_trips() {
    assert_eq!(u64_to_dec(0), "0");
    assert_eq!(u64_to_dec(900), "900");
    assert_eq!(u64_to_dec(u64::MAX), "18446744073709551615");
    assert_eq!(parse_u64(&u64_to_dec(123456789)), Some(123456789));
}
