//! CloudKit errors: the error value, its classification into `CKError` codes,
//! and the errors that the bridge layer itself raises.
use vstd::prelude::*;

use crate::payload::ErrorPayload;
use crate::text::{append_decimal, append_text, decimal_text, owned, text_eq};

verus! {

/// Mirrors `CKErrorDomain`.
pub const CLOUDKIT_ERROR_DOMAIN: &'static str = "CKErrorDomain";
/// Mirrors `CloudKitBridge`.
pub const CLOUDKIT_BRIDGE_ERROR_DOMAIN: &'static str = "CloudKitBridge";

/// Mirrors `CKError.Code`.
#[derive(Debug, Clone, Copy, PartialEq, Eq, Hash, Structural)]
#[non_exhaustive]
pub enum CloudKitErrorCode {
    BridgeInvalidArgument,
    BridgeFailure,
    BridgeTimedOut,
    BridgeDefaultContainerUnavailable,
    InternalError,
    PartialFailure,
    NetworkUnavailable,
    NetworkFailure,
    BadContainer,
    ServiceUnavailable,
    RequestRateLimited,
    MissingEntitlement,
    NotAuthenticated,
    PermissionFailure,
    UnknownItem,
    InvalidArguments,
    ServerRecordChanged,
    OperationCancelled,
    BadDatabase,
    ZoneNotFound,
    LimitExceeded,
    Unknown(i64),
}

/// Wraps `CKError` details.
#[derive(Debug)]
pub struct CloudKitError {
    /// Mirrors `CKError.domain`.
    pub domain: String,
    /// Mirrors `CKError.code`.
    pub code: i64,
    /// Mirrors `CKError.localizedDescription`.
    pub message: String,
    /// Mirrors `CKErrorRetryAfterKey`: the bit pattern of the delay in seconds (an `f64`).
    pub retry_after_seconds: Option<u64>,
}

/// The abstract content of an error.
pub struct ErrorView {
    pub domain: Seq<char>,
    pub code: i64,
    pub message: Seq<char>,
    pub retry_after_seconds: Option<u64>,
}

impl View for CloudKitError {
    type V = ErrorView;

    open spec fn view(&self) -> ErrorView {
        ErrorView {
            domain: self.domain@,
            code: self.code,
            message: self.message@,
            retry_after_seconds: self.retry_after_seconds,
        }
    }
}

impl Clone for CloudKitError {
    fn clone(&self) -> (r: Self)
        ensures
            r@ == self@,
    {
        CloudKitError {
            domain: self.domain.clone(),
            code: self.code,
            message: self.message.clone(),
            retry_after_seconds: self.retry_after_seconds,
        }
    }
}

/// Whether the bit pattern of an `f64` is a NaN: all exponent bits set and a
/// nonzero fraction.
pub open spec fn float_bits_is_nan(bits: u64) -> bool {
    &&& bits & 0x7ff0_0000_0000_0000u64 == 0x7ff0_0000_0000_0000u64
    &&& bits & 0x000f_ffff_ffff_ffffu64 != 0
}

/// Whether two `f64` values, given by their bit patterns, are equal as `f64`
/// compares them: never when either is a NaN, always for zeros of either sign,
/// and otherwise when the patterns agree.
pub open spec fn float_bits_eq(a: u64, b: u64) -> bool {
    &&& !float_bits_is_nan(a)
    &&& !float_bits_is_nan(b)
    &&& (a == b || (a & 0x7fff_ffff_ffff_ffffu64 == 0 && b & 0x7fff_ffff_ffff_ffffu64 == 0))
}

/// Compares two `f64` values given by their bit patterns, as `==` on `f64` does.
pub fn float_bits_equal(a: u64, b: u64) -> (r: bool)
    ensures
        r == float_bits_eq(a, b),
{
    let a_nan = a & 0x7ff0_0000_0000_0000u64 == 0x7ff0_0000_0000_0000u64 && a & 0x000f_ffff_ffff_ffffu64 != 0;
    let b_nan = b & 0x7ff0_0000_0000_0000u64 == 0x7ff0_0000_0000_0000u64 && b & 0x000f_ffff_ffff_ffffu64 != 0;
    !a_nan && !b_nan && (a == b || (a & 0x7fff_ffff_ffff_ffffu64 == 0 && b & 0x7fff_ffff_ffff_ffffu64 == 0))
}

/// Whether two optional `f64` values, given by their bit patterns, are equal as
/// `==` on `Option<f64>` decides.
pub open spec fn float_bits_option_eq(a: Option<u64>, b: Option<u64>) -> bool {
    match (a, b) {
        (Some(x), Some(y)) => float_bits_eq(x, y),
        (None, None) => true,
        _ => false,
    }
}

impl PartialEq for CloudKitError {
    fn eq(&self, other: &Self) -> (r: bool) {
        let retry_equal = match (self.retry_after_seconds, other.retry_after_seconds) {
            (Some(x), Some(y)) => float_bits_equal(x, y),
            (None, None) => true,
            _ => false,
        };
        self.domain == other.domain && self.code == other.code && self.message == other.message && retry_equal
    }
}

impl vstd::std_specs::cmp::PartialEqSpecImpl for CloudKitError {
    open spec fn obeys_eq_spec() -> bool {
        true
    }

    open spec fn eq_spec(&self, other: &Self) -> bool {
        &&& self.domain@ == other.domain@
        &&& self.code == other.code
        &&& self.message@ == other.message@
        &&& float_bits_option_eq(self.retry_after_seconds, other.retry_after_seconds)
    }
}

/// The `CKError.Code` of a code in the bridge's own error domain.
pub open spec fn bridge_error_kind(code: i64) -> CloudKitErrorCode {
    if code == -1 {
        CloudKitErrorCode::BridgeInvalidArgument
    } else if code == -2 {
        CloudKitErrorCode::BridgeFailure
    } else if code == -3 {
        CloudKitErrorCode::BridgeTimedOut
    } else if code == -4 {
        CloudKitErrorCode::BridgeDefaultContainerUnavailable
    } else {
        CloudKitErrorCode::Unknown(code)
    }
}

/// The `CKError.Code` of a code in `CKErrorDomain`.
pub open spec fn framework_error_kind(code: i64) -> CloudKitErrorCode {
    if code == 1 {
        CloudKitErrorCode::InternalError
    } else if code == 2 {
        CloudKitErrorCode::PartialFailure
    } else if code == 3 {
        CloudKitErrorCode::NetworkUnavailable
    } else if code == 4 {
        CloudKitErrorCode::NetworkFailure
    } else if code == 5 {
        CloudKitErrorCode::BadContainer
    } else if code == 6 {
        CloudKitErrorCode::ServiceUnavailable
    } else if code == 7 {
        CloudKitErrorCode::RequestRateLimited
    } else if code == 8 {
        CloudKitErrorCode::MissingEntitlement
    } else if code == 9 {
        CloudKitErrorCode::NotAuthenticated
    } else if code == 10 {
        CloudKitErrorCode::PermissionFailure
    } else if code == 11 {
        CloudKitErrorCode::UnknownItem
    } else if code == 12 {
        CloudKitErrorCode::InvalidArguments
    } else if code == 14 {
        CloudKitErrorCode::ServerRecordChanged
    } else if code == 20 {
        CloudKitErrorCode::OperationCancelled
    } else if code == 24 {
        CloudKitErrorCode::BadDatabase
    } else if code == 26 {
        CloudKitErrorCode::ZoneNotFound
    } else if code == 27 {
        CloudKitErrorCode::LimitExceeded
    } else {
        CloudKitErrorCode::Unknown(code)
    }
}

/// The `CKError.Code` of an error with the given domain and code: bridge codes
/// in the bridge domain, framework codes in `CKErrorDomain`, and `Unknown`
/// carrying the raw code in any other domain.
pub open spec fn error_kind(domain: Seq<char>, code: i64) -> CloudKitErrorCode {
    if domain == CLOUDKIT_BRIDGE_ERROR_DOMAIN@ {
        bridge_error_kind(code)
    } else if domain == CLOUDKIT_ERROR_DOMAIN@ {
        framework_error_kind(code)
    } else {
        CloudKitErrorCode::Unknown(code)
    }
}

/// The kinds that stand for a missing entitlement or iCloud account problem.
pub open spec fn is_entitlement_or_account_kind(kind: CloudKitErrorCode) -> bool {
    ||| kind == CloudKitErrorCode::BridgeDefaultContainerUnavailable
    ||| kind == CloudKitErrorCode::BadContainer
    ||| kind == CloudKitErrorCode::MissingEntitlement
    ||| kind == CloudKitErrorCode::NotAuthenticated
    ||| kind == CloudKitErrorCode::PermissionFailure
}

/// The kinds after which a retry may succeed.
pub open spec fn is_retryable_kind(kind: CloudKitErrorCode) -> bool {
    ||| kind == CloudKitErrorCode::NetworkUnavailable
    ||| kind == CloudKitErrorCode::NetworkFailure
    ||| kind == CloudKitErrorCode::ServiceUnavailable
    ||| kind == CloudKitErrorCode::RequestRateLimited
}

/// An error in `CKErrorDomain` has the `CKError.Code` that its raw code names:
/// 1 internal error, 2 partial failure, 3 network unavailable, 4 network failure,
/// 5 bad container, 6 service unavailable, 7 request rate limited, 8 missing
/// entitlement, 9 not authenticated, 10 permission failure, 11 unknown item,
/// 12 invalid arguments, 14 server record changed, 20 operation cancelled,
/// 24 bad database, 26 zone not found, 27 limit exceeded; any other code is
/// kept as unknown. It is retryable exactly for codes 3, 4, 6 and 7, and an
/// entitlement or account issue exactly for codes 5, 8, 9 and 10.
pub proof fn lemma_framework_error_codes(code: i64)
    ensures
        (code == 1) <==> error_kind(CLOUDKIT_ERROR_DOMAIN@, code) == CloudKitErrorCode::InternalError,
        (code == 2) <==> error_kind(CLOUDKIT_ERROR_DOMAIN@, code) == CloudKitErrorCode::PartialFailure,
        (code == 3) <==> error_kind(CLOUDKIT_ERROR_DOMAIN@, code) == CloudKitErrorCode::NetworkUnavailable,
        (code == 4) <==> error_kind(CLOUDKIT_ERROR_DOMAIN@, code) == CloudKitErrorCode::NetworkFailure,
        (code == 5) <==> error_kind(CLOUDKIT_ERROR_DOMAIN@, code) == CloudKitErrorCode::BadContainer,
        (code == 6) <==> error_kind(CLOUDKIT_ERROR_DOMAIN@, code) == CloudKitErrorCode::ServiceUnavailable,
        (code == 7) <==> error_kind(CLOUDKIT_ERROR_DOMAIN@, code) == CloudKitErrorCode::RequestRateLimited,
        (code == 8) <==> error_kind(CLOUDKIT_ERROR_DOMAIN@, code) == CloudKitErrorCode::MissingEntitlement,
        (code == 9) <==> error_kind(CLOUDKIT_ERROR_DOMAIN@, code) == CloudKitErrorCode::NotAuthenticated,
        (code == 10) <==> error_kind(CLOUDKIT_ERROR_DOMAIN@, code) == CloudKitErrorCode::PermissionFailure,
        (code == 11) <==> error_kind(CLOUDKIT_ERROR_DOMAIN@, code) == CloudKitErrorCode::UnknownItem,
        (code == 12) <==> error_kind(CLOUDKIT_ERROR_DOMAIN@, code) == CloudKitErrorCode::InvalidArguments,
        (code == 14) <==> error_kind(CLOUDKIT_ERROR_DOMAIN@, code) == CloudKitErrorCode::ServerRecordChanged,
        (code == 20) <==> error_kind(CLOUDKIT_ERROR_DOMAIN@, code) == CloudKitErrorCode::OperationCancelled,
        (code == 24) <==> error_kind(CLOUDKIT_ERROR_DOMAIN@, code) == CloudKitErrorCode::BadDatabase,
        (code == 26) <==> error_kind(CLOUDKIT_ERROR_DOMAIN@, code) == CloudKitErrorCode::ZoneNotFound,
        (code == 27) <==> error_kind(CLOUDKIT_ERROR_DOMAIN@, code) == CloudKitErrorCode::LimitExceeded,
        !((1 <= code <= 12) || code == 14 || code == 20 || code == 24 || code == 26 || code == 27)
            <==> error_kind(CLOUDKIT_ERROR_DOMAIN@, code) == CloudKitErrorCode::Unknown(code),
        is_retryable_kind(error_kind(CLOUDKIT_ERROR_DOMAIN@, code))
            <==> (code == 3 || code == 4 || code == 6 || code == 7),
        is_entitlement_or_account_kind(error_kind(CLOUDKIT_ERROR_DOMAIN@, code))
            <==> (code == 5 || code == 8 || code == 9 || code == 10),
        CLOUDKIT_ERROR_DOMAIN@ == "CKErrorDomain"@,
        CLOUDKIT_BRIDGE_ERROR_DOMAIN@ == "CloudKitBridge"@,
{
    reveal_strlit("CKErrorDomain");
    reveal_strlit("CloudKitBridge");
    assert(CLOUDKIT_ERROR_DOMAIN@ == "CKErrorDomain"@);
    assert(CLOUDKIT_BRIDGE_ERROR_DOMAIN@ == "CloudKitBridge"@);
    assert(CLOUDKIT_ERROR_DOMAIN@.len() != CLOUDKIT_BRIDGE_ERROR_DOMAIN@.len());
}

/// An error in the bridge's own domain has the bridge code that its raw code
/// names: -1 invalid argument, -2 failure, -3 timed out, -4 default container
/// unavailable; any other code is kept as unknown. No bridge error is
/// retryable, and only -4 is an entitlement or account issue. In a domain that
/// is neither the bridge's nor `CKErrorDomain`, every code is kept as unknown.
pub proof fn lemma_bridge_error_codes(code: i64, domain: Seq<char>)
    ensures
        (code == -1) <==> error_kind(CLOUDKIT_BRIDGE_ERROR_DOMAIN@, code)
            == CloudKitErrorCode::BridgeInvalidArgument,
        (code == -2) <==> error_kind(CLOUDKIT_BRIDGE_ERROR_DOMAIN@, code) == CloudKitErrorCode::BridgeFailure,
        (code == -3) <==> error_kind(CLOUDKIT_BRIDGE_ERROR_DOMAIN@, code) == CloudKitErrorCode::BridgeTimedOut,
        (code == -4) <==> error_kind(CLOUDKIT_BRIDGE_ERROR_DOMAIN@, code)
            == CloudKitErrorCode::BridgeDefaultContainerUnavailable,
        !(-4 <= code <= -1) <==> error_kind(CLOUDKIT_BRIDGE_ERROR_DOMAIN@, code)
            == CloudKitErrorCode::Unknown(code),
        !is_retryable_kind(error_kind(CLOUDKIT_BRIDGE_ERROR_DOMAIN@, code)),
        is_entitlement_or_account_kind(error_kind(CLOUDKIT_BRIDGE_ERROR_DOMAIN@, code)) <==> code == -4,
        domain != CLOUDKIT_BRIDGE_ERROR_DOMAIN@ && domain != CLOUDKIT_ERROR_DOMAIN@
            ==> error_kind(domain, code) == CloudKitErrorCode::Unknown(code),
{
}

/// The text that `Display` gives an error: `"{message} ({code}) [{domain}]"`.
pub open spec fn error_display_text(domain: Seq<char>, code: i64, message: Seq<char>) -> Seq<char> {
    message + " ("@ + decimal_text(code as int) + ") ["@ + domain + "]"@
}

impl CloudKitError {
    /// Builds an error from a bridge payload, field for field.
    pub fn from_payload(payload: ErrorPayload) -> (r: Self)
        ensures
            r.domain == payload.domain,
            r.code == payload.code,
            r.message == payload.message,
            r.retry_after_seconds == payload.retry_after_seconds,
    {
        Self {
            domain: payload.domain,
            code: payload.code,
            message: payload.message,
            retry_after_seconds: payload.retry_after_seconds,
        }
    }

    /// Converts the error back into a bridge payload, field for field.
    pub fn to_payload(&self) -> (r: ErrorPayload)
        ensures
            r.domain@ == self.domain@,
            r.code == self.code,
            r.message@ == self.message@,
            r.retry_after_seconds == self.retry_after_seconds,
    {
        ErrorPayload {
            domain: self.domain.clone(),
            code: self.code,
            message: self.message.clone(),
            retry_after_seconds: self.retry_after_seconds,
        }
    }

    /// An error in the bridge's own domain, with no retry delay.
    pub fn bridge(code: i64, message: &str) -> (r: Self)
        ensures
            r.domain@ == CLOUDKIT_BRIDGE_ERROR_DOMAIN@,
            r.code == code,
            r.message@ == message@,
            r.retry_after_seconds is None,
    {
        Self {
            domain: owned(CLOUDKIT_BRIDGE_ERROR_DOMAIN),
            code,
            message: owned(message),
            retry_after_seconds: None,
        }
    }

    /// Mirrors `CKError.code`.
    pub fn kind(&self) -> (r: CloudKitErrorCode)
        ensures
            r == error_kind(self.domain@, self.code),
    {
        if text_eq(self.domain.as_str(), CLOUDKIT_BRIDGE_ERROR_DOMAIN) {
            return if self.code == -1 {
                CloudKitErrorCode::BridgeInvalidArgument
            } else if self.code == -2 {
                CloudKitErrorCode::BridgeFailure
            } else if self.code == -3 {
                CloudKitErrorCode::BridgeTimedOut
            } else if self.code == -4 {
                CloudKitErrorCode::BridgeDefaultContainerUnavailable
            } else {
                CloudKitErrorCode::Unknown(self.code)
            };
        }
        if !text_eq(self.domain.as_str(), CLOUDKIT_ERROR_DOMAIN) {
            return CloudKitErrorCode::Unknown(self.code);
        }
        match self.code {
            1 => CloudKitErrorCode::InternalError,
            2 => CloudKitErrorCode::PartialFailure,
            3 => CloudKitErrorCode::NetworkUnavailable,
            4 => CloudKitErrorCode::NetworkFailure,
            5 => CloudKitErrorCode::BadContainer,
            6 => CloudKitErrorCode::ServiceUnavailable,
            7 => CloudKitErrorCode::RequestRateLimited,
            8 => CloudKitErrorCode::MissingEntitlement,
            9 => CloudKitErrorCode::NotAuthenticated,
            10 => CloudKitErrorCode::PermissionFailure,
            11 => CloudKitErrorCode::UnknownItem,
            12 => CloudKitErrorCode::InvalidArguments,
            14 => CloudKitErrorCode::ServerRecordChanged,
            20 => CloudKitErrorCode::OperationCancelled,
            24 => CloudKitErrorCode::BadDatabase,
            26 => CloudKitErrorCode::ZoneNotFound,
            27 => CloudKitErrorCode::LimitExceeded,
            other => CloudKitErrorCode::Unknown(other),
        }
    }

    /// Reports whether the error stems from a missing entitlement or an account problem.
    pub fn is_entitlement_or_account_issue(&self) -> (r: bool)
        ensures
            r == is_entitlement_or_account_kind(error_kind(self.domain@, self.code)),
    {
        match self.kind() {
            CloudKitErrorCode::BridgeDefaultContainerUnavailable
            | CloudKitErrorCode::BadContainer
            | CloudKitErrorCode::MissingEntitlement
            | CloudKitErrorCode::NotAuthenticated
            | CloudKitErrorCode::PermissionFailure => true,
            _ => false,
        }
    }

    /// Reports whether retrying the request may succeed.
    pub fn is_retryable(&self) -> (r: bool)
        ensures
            r == is_retryable_kind(error_kind(self.domain@, self.code)),
    {
        match self.kind() {
            CloudKitErrorCode::NetworkUnavailable
            | CloudKitErrorCode::NetworkFailure
            | CloudKitErrorCode::ServiceUnavailable
            | CloudKitErrorCode::RequestRateLimited => true,
            _ => false,
        }
    }

    /// Reports whether the error is `CKError.Code.missingEntitlement`.
    pub fn is_missing_entitlement(&self) -> (r: bool)
        ensures
            r == (error_kind(self.domain@, self.code) == CloudKitErrorCode::MissingEntitlement),
    {
        match self.kind() {
            CloudKitErrorCode::MissingEntitlement => true,
            _ => false,
        }
    }

    /// Reports whether the error is `CKError.Code.notAuthenticated`.
    pub fn is_not_authenticated(&self) -> (r: bool)
        ensures
            r == (error_kind(self.domain@, self.code) == CloudKitErrorCode::NotAuthenticated),
    {
        match self.kind() {
            CloudKitErrorCode::NotAuthenticated => true,
            _ => false,
        }
    }

    /// The text that `Display` shows for the error.
    pub fn to_string(&self) -> (r: String)
        ensures
            r@ == error_display_text(self.domain@, self.code, self.message@),
    {
        let mut out = self.message.clone();
        append_text(&mut out, " (");
        append_decimal(&mut out, self.code);
        append_text(&mut out, ") [");
        append_text(&mut out, self.domain.as_str());
        append_text(&mut out, "]");
        out
    }
}

} // verus!
