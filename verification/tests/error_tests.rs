use cloudkit::error::{CloudKitError, CloudKitErrorCode, CLOUDKIT_ERROR_DOMAIN};
use cloudkit::payload::ErrorPayload;

#[test]
fn bridge_kind_maps_known_codes() {
    let cases = [
        (-1, CloudKitErrorCode::BridgeInvalidArgument),
        (-2, CloudKitErrorCode::BridgeFailure),
        (-3, CloudKitErrorCode::BridgeTimedOut),
        (-4, CloudKitErrorCode::BridgeDefaultContainerUnavailable),
    ];

    for (code, expected) in cases {
        let error = CloudKitError::bridge(code, "bridge failure");
        assert_eq!(error.kind(), expected);
    }
}

#[test]
fn framework_kind_maps_known_codes() {
    let cases = [
        (1, CloudKitErrorCode::InternalError),
        (8, CloudKitErrorCode::MissingEntitlement),
        (9, CloudKitErrorCode::NotAuthenticated),
        (27, CloudKitErrorCode::LimitExceeded),
    ];

    for (code, expected) in cases {
        let error = CloudKitError {
            domain: CLOUDKIT_ERROR_DOMAIN.into(),
            code,
            message: "framework failure".into(),
            retry_after_seconds: Some(1.5f64.to_bits()),
        };
        assert_eq!(error.kind(), expected);
    }
}

#[test]
fn unknown_domain_and_codes_stay_unknown() {
    let foreign_error = CloudKitError {
        domain: "OtherDomain".into(),
        code: 999,
        message: "foreign".into(),
        retry_after_seconds: None,
    };
    let bridge_error = CloudKitError::bridge(-99, "unknown bridge code");

    assert_eq!(foreign_error.kind(), CloudKitErrorCode::Unknown(999));
    assert_eq!(bridge_error.kind(), CloudKitErrorCode::Unknown(-99));
}

#[test]
fn convenience_predicates_match_expected_kinds() {
    let missing_entitlement = CloudKitError {
        domain: CLOUDKIT_ERROR_DOMAIN.into(),
        code: 8,
        message: "missing entitlement".into(),
        retry_after_seconds: None,
    };
    let not_authenticated = CloudKitError {
        domain: CLOUDKIT_ERROR_DOMAIN.into(),
        code: 9,
        message: "not authenticated".into(),
        retry_after_seconds: None,
    };
    let retryable = CloudKitError {
        domain: CLOUDKIT_ERROR_DOMAIN.into(),
        code: 7,
        message: "slow down".into(),
        retry_after_seconds: Some(2.5f64.to_bits()),
    };

    assert!(missing_entitlement.is_entitlement_or_account_issue());
    assert!(missing_entitlement.is_missing_entitlement());
    assert!(!missing_entitlement.is_not_authenticated());
    assert!(not_authenticated.is_entitlement_or_account_issue());
    assert!(not_authenticated.is_not_authenticated());
    assert!(retryable.is_retryable());
}

#[test]
fn from_payload_and_display_preserve_fields() {
    let error = CloudKitError::from_payload(ErrorPayload {
        domain: CLOUDKIT_ERROR_DOMAIN.into(),
        code: 7,
        message: "retry later".into(),
        retry_after_seconds: Some(2.5f64.to_bits()),
    });

    assert_eq!(error.retry_after_seconds.map(f64::from_bits), Some(2.5));
    assert_eq!(error.to_string(), "retry later (7) [CKErrorDomain]");
}

#[test]
fn error_payload_round_trip_keeps_every_field() {
    let error = CloudKitError::bridge(-3, "timed out waiting for CloudKit");
    let back = CloudKitError::from_payload(error.to_payload());
    assert_eq!(back, error);
    assert_eq!(back.domain, "CloudKitBridge");
    assert_eq!(back.kind(), CloudKitErrorCode::BridgeTimedOut);
}

#[test]
fn negative_codes_render_with_their_sign() {
    let error = CloudKitError::bridge(-2, "CloudKit bridge failure");
    assert_eq!(error.to_string(), "CloudKit bridge failure (-2) [CloudKitBridge]");
}

#[test]
fn retry_delays_compare_as_floats() {
    let mut a = cloudkit::error::CloudKitError::bridge(-2, "busy");
    let mut b = a.clone();
    a.retry_after_seconds = Some(0.0f64.to_bits());
    b.retry_after_seconds = Some((-0.0f64).to_bits());
    assert_eq!(a, b);
    a.retry_after_seconds = Some(f64::NAN.to_bits());
    b.retry_after_seconds = Some(f64::NAN.to_bits());
    assert_ne!(a, b);
    b.retry_after_seconds = None;
    assert_ne!(a, b);
}
