//! The rules by which calls into the native bridge turn into results: status
//! codes, the errors that stand for a failed call or an unreadable reply, and
//! the limits the bridge's arguments must meet.
use vstd::prelude::*;

use crate::error::{CloudKitError, ErrorView, CLOUDKIT_BRIDGE_ERROR_DOMAIN};
use crate::payload::ErrorPayload;
use crate::text::{append_text, owned};

verus! {

/// The bridge call succeeded.
pub const STATUS_OK: i32 = 0;
/// The bridge rejected an argument.
pub const STATUS_INVALID_ARGUMENT: i32 = -1;
/// The bridge call failed.
pub const STATUS_FAILURE: i32 = -2;
/// The bridge gave up waiting for CloudKit.
pub const STATUS_TIMED_OUT: i32 = -3;

/// A bridge-domain error with the given code and message and no retry delay.
pub open spec fn bridge_error_view(code: i64, message: Seq<char>) -> ErrorView {
    ErrorView { domain: CLOUDKIT_BRIDGE_ERROR_DOMAIN@, code, message, retry_after_seconds: None }
}

/// The message of a failed call that came without an error payload.
pub open spec fn status_message(status: i32) -> Seq<char> {
    if status == STATUS_INVALID_ARGUMENT {
        "invalid argument"@
    } else if status == STATUS_TIMED_OUT {
        "timed out waiting for CloudKit"@
    } else {
        "CloudKit bridge failure"@
    }
}

/// The error of a failed bridge call: the error the bridge reported, or else
/// a bridge-domain error whose code is the status and whose message names it.
pub fn error_from_status(status: i32, reported: Option<CloudKitError>) -> (r: CloudKitError)
    ensures
        reported matches Some(e) ==> r@ == e@,
        reported is None ==> r@ == bridge_error_view(status as i64, status_message(status)),
{
    match reported {
        Some(e) => e,
        None => {
            let message = if status == STATUS_INVALID_ARGUMENT {
                "invalid argument"
            } else if status == STATUS_TIMED_OUT {
                "timed out waiting for CloudKit"
            } else {
                "CloudKit bridge failure"
            };
            CloudKitError::bridge(status as i64, message)
        },
    }
}

/// The message of an error reply that came without a payload.
pub const MISSING_ERROR_PAYLOAD_MESSAGE: &'static str = "CloudKit bridge returned an error without payload";

/// The error that stands for an error reply without a payload.
pub fn missing_error_payload() -> (r: CloudKitError)
    ensures
        r@ == bridge_error_view(-2i64, MISSING_ERROR_PAYLOAD_MESSAGE@),
{
    CloudKitError::bridge(-2, MISSING_ERROR_PAYLOAD_MESSAGE)
}

/// The message of an unreadable error reply.
pub open spec fn error_parse_message(parse_error: Seq<char>, json: Seq<char>) -> Seq<char> {
    "failed to parse CloudKit error payload: "@ + parse_error + "; payload="@ + json
}

/// The error that an error reply stands for: the reported error when its JSON
/// was read, else a bridge error naming the parse failure and the text.
pub fn error_from_reply(parsed: Result<ErrorPayload, String>, json: &str) -> (r: CloudKitError)
    ensures
        parsed matches Ok(p) ==> r@ == (ErrorView {
            domain: p.domain@,
            code: p.code,
            message: p.message@,
            retry_after_seconds: p.retry_after_seconds,
        }),
        parsed matches Err(e) ==> r@ == bridge_error_view(-1i64, error_parse_message(e@, json@)),
{
    match parsed {
        Ok(payload) => CloudKitError::from_payload(payload),
        Err(parse_error) => {
            let mut message = owned("failed to parse CloudKit error payload: ");
            append_text(&mut message, parse_error.as_str());
            append_text(&mut message, "; payload=");
            append_text(&mut message, json);
            CloudKitError::bridge(-1, message.as_str())
        },
    }
}

/// The message when an argument holds a NUL byte.
pub open spec fn interior_nul_message(context: Seq<char>, detail: Seq<char>) -> Seq<char> {
    context + " contains an interior NUL byte: "@ + detail
}

/// The error for an argument that cannot become a C string because it holds a NUL byte.
pub fn interior_nul_error(context: &str, detail: &str) -> (r: CloudKitError)
    ensures
        r@ == bridge_error_view(-1i64, interior_nul_message(context@, detail@)),
{
    let mut message = owned(context);
    append_text(&mut message, " contains an interior NUL byte: ");
    append_text(&mut message, detail);
    CloudKitError::bridge(-1, message.as_str())
}

/// Whether text can be handed to the bridge as a C string: it holds no NUL character.
pub open spec fn c_compatible(s: Seq<char>) -> bool {
    !s.contains('\0')
}

/// Whether `s` can be handed to the bridge as a C string.
pub fn is_c_compatible(s: &str) -> (r: bool)
    ensures
        r == c_compatible(s@),
{
    let chars = crate::text::chars_of(s);
    let mut i: usize = 0;
    while i < chars.len()
        invariant
            i <= chars@.len(),
            chars@ == s@,
            forall|j: int| 0 <= j < i ==> s@[j] != '\0',
        decreases chars@.len() - i,
    {
        if chars[i] == '\0' {
            assert(s@[i as int] == '\0');
            return false;
        }
        i = i + 1;
    }
    true
}

/// The message when a value cannot be written as JSON.
pub open spec fn json_encode_message(context: Seq<char>, detail: Seq<char>) -> Seq<char> {
    "failed to encode "@ + context + " as JSON: "@ + detail
}

/// The error for a value that could not be written as JSON.
pub fn json_encode_error(context: &str, detail: &str) -> (r: CloudKitError)
    ensures
        r@ == bridge_error_view(-1i64, json_encode_message(context@, detail@)),
{
    let mut message = owned("failed to encode ");
    append_text(&mut message, context);
    append_text(&mut message, " as JSON: ");
    append_text(&mut message, detail);
    CloudKitError::bridge(-1, message.as_str())
}

/// The message when a reply that should carry JSON carries nothing.
pub open spec fn missing_json_message(context: Seq<char>) -> Seq<char> {
    "missing JSON payload for "@ + context
}

/// The error for a reply without its JSON payload.
pub fn missing_json_error(context: &str) -> (r: CloudKitError)
    ensures
        r@ == bridge_error_view(-1i64, missing_json_message(context@)),
{
    let mut message = owned("missing JSON payload for ");
    append_text(&mut message, context);
    CloudKitError::bridge(-1, message.as_str())
}

/// The message when a reply's JSON cannot be read.
pub open spec fn json_parse_message(context: Seq<char>, detail: Seq<char>, json: Seq<char>) -> Seq<char> {
    "failed to parse "@ + context + " JSON: "@ + detail + "; payload="@ + json
}

/// The error for a reply whose JSON could not be read.
pub fn json_parse_error(context: &str, detail: &str, json: &str) -> (r: CloudKitError)
    ensures
        r@ == bridge_error_view(-1i64, json_parse_message(context@, detail@, json@)),
{
    let mut message = owned("failed to parse ");
    append_text(&mut message, context);
    append_text(&mut message, " JSON: ");
    append_text(&mut message, detail);
    append_text(&mut message, "; payload=");
    append_text(&mut message, json);
    CloudKitError::bridge(-1, message.as_str())
}

/// The message when a results limit does not fit the bridge's `i32`.
pub const RESULTS_LIMIT_MESSAGE: &'static str = "results limit exceeds supported i32 range";

/// The results limit as the bridge takes it: zero for none, the limit itself
/// when it fits an `i32`, and an error otherwise.
pub fn results_limit_for_bridge(results_limit: Option<usize>) -> (r: Result<i32, CloudKitError>)
    ensures
        match results_limit {
            None => r == Ok::<i32, CloudKitError>(0),
            Some(n) => if n <= i32::MAX {
                r == Ok::<i32, CloudKitError>(n as i32)
            } else {
                r matches Err(e) && e@ == bridge_error_view(-1i64, RESULTS_LIMIT_MESSAGE@)
            },
        },
{
    let limit: usize = match results_limit {
        Some(n) => n,
        None => 0,
    };
    if limit <= 2147483647usize {
        Ok(limit as i32)
    } else {
        Err(CloudKitError::bridge(-1, RESULTS_LIMIT_MESSAGE))
    }
}

} // verus!
