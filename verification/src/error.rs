//! The two error shapes: server-reported [`APIError`] entries, and the
//! unified [`InternalError`] that every operation surfaces to its caller.

use vstd::prelude::*;

verus! {

/// A failure reported by the remote service inside a response envelope.
#[derive(Debug)]
pub struct APIError {
    pub error_type: String,
    pub code: u16,
    pub message: String,
}

/// The single error shape surfaced to callers. `internal` is `true` for
/// failures that arose locally (transport or decode) and `false` for failures
/// the remote service reported.
#[derive(Debug)]
pub struct InternalError {
    pub error_type: String,
    pub code: u16,
    pub message: String,
    pub internal: bool,
}

/// A server-reported error normalized for the caller: fields verbatim,
/// `internal` false.
pub open spec fn normalize_api_error(e: APIError) -> InternalError {
    InternalError { error_type: e.error_type, code: e.code, message: e.message, internal: false }
}

/// A server-reported error list normalized entry by entry, order preserved.
pub open spec fn normalized(es: Seq<APIError>) -> Seq<InternalError> {
    es.map_values(|e: APIError| normalize_api_error(e))
}

/// The error type every locally-detected failure carries.
pub open spec fn failed_request_type() -> Seq<char> {
    "failed-api-request"@
}

/// The message carried when a response parses as JSON but does not match the
/// expected envelope.
pub open spec fn malformed_msg() -> Seq<char> {
    "response did not match the expected envelope"@
}

/// Exactly one locally-originated error: `internal` set, code 500, the fixed
/// failure type, and the given message.
pub open spec fn is_single_internal(es: Seq<InternalError>, msg: Seq<char>) -> bool {
    &&& es.len() == 1
    &&& es[0].internal
    &&& es[0].code == 500
    &&& es[0].error_type@ == failed_request_type()
    &&& es[0].message@ == msg
}

impl From<APIError> for InternalError {
    fn from(error: APIError) -> (r: InternalError) {
        InternalError {
            error_type: error.error_type,
            code: error.code,
            message: error.message,
            internal: false,
        }
    }
}

impl vstd::std_specs::convert::FromSpecImpl<APIError> for InternalError {
    open spec fn obeys_from_spec() -> bool {
        true
    }

    open spec fn from_spec(e: APIError) -> InternalError {
        normalize_api_error(e)
    }
}

} // verus!
