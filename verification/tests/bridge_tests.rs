use cloudkit::bridge::{
    error_from_reply, error_from_status, interior_nul_error, is_c_compatible, json_encode_error, json_parse_error,
    missing_error_payload, missing_json_error, results_limit_for_bridge, STATUS_INVALID_ARGUMENT, STATUS_TIMED_OUT,
};
use cloudkit::error::{CloudKitError, CloudKitErrorCode};
use cloudkit::payload::ErrorPayload;

#[test]
fn status_errors_name_the_failure() {
    let invalid = error_from_status(STATUS_INVALID_ARGUMENT, None);
    assert_eq!(invalid.message, "invalid argument");
    assert_eq!(invalid.code, -1);
    assert_eq!(invalid.domain, "CloudKitBridge");
    assert_eq!(error_from_status(STATUS_TIMED_OUT, None).message, "timed out waiting for CloudKit");
    assert_eq!(error_from_status(-9, None).message, "CloudKit bridge failure");
    let reported = CloudKitError::bridge(-4, "no container");
    assert_eq!(error_from_status(-2, Some(reported.clone())), reported);
    assert_eq!(missing_error_payload().kind(), CloudKitErrorCode::BridgeFailure);
}

#[test]
fn unreadable_replies_keep_the_text() {
    let parsed = error_from_reply(
        Ok(ErrorPayload { domain: "CKErrorDomain".into(), code: 9, message: "sign in".into(), retry_after_seconds: None }),
        "{}",
    );
    assert_eq!(parsed.kind(), CloudKitErrorCode::NotAuthenticated);
    let broken = error_from_reply(Err("expected value".into()), "nope");
    assert_eq!(broken.message, "failed to parse CloudKit error payload: expected value; payload=nope");
    assert_eq!(missing_json_error("record").message, "missing JSON payload for record");
    assert_eq!(json_parse_error("record", "eof", "{").message, "failed to parse record JSON: eof; payload={");
    assert_eq!(json_encode_error("query", "boom").message, "failed to encode query as JSON: boom");
    assert_eq!(
        interior_nul_error("share URL", "nul byte found in provided data at position: 3").message,
        "share URL contains an interior NUL byte: nul byte found in provided data at position: 3"
    );
    assert!(is_c_compatible("plain"));
    assert!(!is_c_compatible("a\0b"));
}

#[test]
fn results_limit_must_fit_an_i32() {
    assert_eq!(results_limit_for_bridge(None).unwrap(), 0);
    assert_eq!(results_limit_for_bridge(Some(25)).unwrap(), 25);
    let too_big = results_limit_for_bridge(Some(i32::MAX as usize + 1)).unwrap_err();
    assert_eq!(too_big.message, "results limit exceeds supported i32 range");
    assert_eq!(too_big.code, -1);
}
