//! Tool dispatch: what a call is let through with, and what comes of it.

use crate::errors::{err_view, ErrorKind, ErrorView, WinkitError};
use crate::json::{json_text, Json, JsonView};
use crate::text::{byte_len, concat3, decimal, decimal_text, utf8_len};
use crate::tools::toolset::{overran, timeout_error};
use vstd::prelude::*;
use vstd::string::*;

verus! {

/// The code of an error in the protocol.
pub open spec fn protocol_code(kind: ErrorKind) -> int {
    match kind {
        ErrorKind::InvalidArgument => -32602,
        ErrorKind::ProviderUnavailable => -32001,
        ErrorKind::ApplicationUnavailable => -32002,
        ErrorKind::FeatureDisabled => -32003,
        ErrorKind::EndpointUnavailable => -32004,
        ErrorKind::BrowserExited => -32005,
        _ => -32603,
    }
}

/// The data of an error in the protocol: its stable name, so that a caller can
/// tell errors apart without reading the message.
pub open spec fn protocol_data(kind: ErrorKind) -> JsonView {
    JsonView::object().with("winkit_code"@, JsonView::Text(kind.code_view()))
}

/// The code and the data of an error in the protocol.
pub fn map_protocol_error(err: &WinkitError) -> (r: (i64, Json))
    ensures
        r.0 == protocol_code(err.kind),
        r.1@ == protocol_data(err.kind),
{
    let code: i64 = match err.kind {
        ErrorKind::InvalidArgument => -32602,
        ErrorKind::ProviderUnavailable => -32001,
        ErrorKind::ApplicationUnavailable => -32002,
        ErrorKind::FeatureDisabled => -32003,
        ErrorKind::EndpointUnavailable => -32004,
        ErrorKind::BrowserExited => -32005,
        _ => -32603,
    };
    (code, Json::object().with("winkit_code", Json::text(err.kind.code())))
}

/// Errors of different codes are told apart, and none but the unavailable kinds
/// fall in the range of server errors.
pub proof fn law_codes(a: ErrorKind, b: ErrorKind)
    ensures
        protocol_code(a) == protocol_code(b) ==> a == b || (protocol_code(a) == -32603),
        -32099 <= protocol_code(a) <= -32000 <==> (a == ErrorKind::ProviderUnavailable || a
            == ErrorKind::ApplicationUnavailable || a == ErrorKind::FeatureDisabled || a
            == ErrorKind::EndpointUnavailable || a == ErrorKind::BrowserExited),
{
}

/// The error of a result that is too large.
pub open spec fn too_large(bytes: nat, max_payload_bytes: usize) -> ErrorView {
    err_view(
        ErrorKind::PayloadLimit,
        "tool result of "@ + decimal(bytes) + (" bytes exceeds the "@ + decimal(
            max_payload_bytes as nat,
        ) + " byte limit"@),
    )
}

/// What comes of a call: the text of the result, where it came in time and is
/// not too large.
pub open spec fn call_result(
    name: Seq<char>,
    timeout_ms: u64,
    outcome: Option<Result<JsonView, ErrorView>>,
    max_payload_bytes: usize,
) -> Result<Seq<char>, ErrorView> {
    match outcome {
        None => Err(overran(name, timeout_ms)),
        Some(Err(e)) => Err(e),
        Some(Ok(v)) => if utf8_len(json_text(v)) > max_payload_bytes {
            Err(too_large(utf8_len(json_text(v)), max_payload_bytes))
        } else {
            Ok(json_text(v))
        },
    }
}

/// An outcome taken by its views.
pub open spec fn outcome_view(outcome: Option<Result<Json, WinkitError>>) -> Option<
    Result<JsonView, ErrorView>,
> {
    match outcome {
        None => None,
        Some(Ok(v)) => Some(Ok(v@)),
        Some(Err(e)) => Some(Err(e@)),
    }
}

/// What comes of a call; no outcome is one that did not come in time.
pub fn finish_call(
    name: &str,
    timeout_ms: u64,
    outcome: Option<Result<Json, WinkitError>>,
    max_payload_bytes: usize,
) -> (r: Result<String, WinkitError>)
    ensures
        crate::tools::args::text_result(r) == call_result(
            name@,
            timeout_ms,
            outcome_view(outcome),
            max_payload_bytes,
        ),
{
    match outcome {
        None => Err(timeout_error(name, timeout_ms)),
        Some(Err(e)) => Err(e),
        Some(Ok(v)) => {
            let text = v.render();
            let bytes: usize = byte_len(&text);
            if bytes > max_payload_bytes {
                return Err(
                    WinkitError::payload_limit(
                        &concat3(
                            "tool result of ",
                            &decimal_text(bytes as u64),
                            &concat3(
                                " bytes exceeds the ",
                                &decimal_text(max_payload_bytes as u64),
                                " byte limit",
                            ),
                        ),
                    ),
                );
            }
            Ok(text)
        },
    }
}

/// A result that is handed on came in time, and fits the limit.
pub proof fn law_results_fit(
    name: Seq<char>,
    timeout_ms: u64,
    outcome: Option<Result<JsonView, ErrorView>>,
    max_payload_bytes: usize,
)
    requires
        call_result(name, timeout_ms, outcome, max_payload_bytes) is Ok,
    ensures
        outcome matches Some(Ok(v)) && call_result(name, timeout_ms, outcome, max_payload_bytes)
            == Ok::<Seq<char>, ErrorView>(json_text(v)),
        utf8_len(call_result(name, timeout_ms, outcome, max_payload_bytes)->Ok_0)
            <= max_payload_bytes,
{
}

/// Every kind of error has its code in the protocol; those without one of their own
/// are internal errors. The stable name of the kind goes with it.
pub proof fn law_errors_have_codes(err: WinkitError, r: (i64, Json))
    requires
        call_ensures(map_protocol_error, (&err,), r),
    ensures
        r.0 == -32602 <==> err.kind == ErrorKind::InvalidArgument,
        r.0 == -32001 <==> err.kind == ErrorKind::ProviderUnavailable,
        r.0 == -32002 <==> err.kind == ErrorKind::ApplicationUnavailable,
        r.0 == -32003 <==> err.kind == ErrorKind::FeatureDisabled,
        r.0 == -32004 <==> err.kind == ErrorKind::EndpointUnavailable,
        r.0 == -32005 <==> err.kind == ErrorKind::BrowserExited,
        r.0 == -32603 <==> err.kind != ErrorKind::InvalidArgument && err.kind != ErrorKind::ProviderUnavailable && err.kind != ErrorKind::ApplicationUnavailable && err.kind != ErrorKind::FeatureDisabled && err.kind != ErrorKind::EndpointUnavailable && err.kind != ErrorKind::BrowserExited,
        r.1@.text_at("winkit_code"@) == Some(err.kind.code_view()),
{
}

/// A call that did not end in time is a timeout, an error is handed on, and a result
/// is its text, unless that is longer than allowed.
pub proof fn law_calls_end(
    name: &str,
    timeout_ms: u64,
    outcome: Option<Result<Json, WinkitError>>,
    max_payload_bytes: usize,
    r: Result<String, WinkitError>,
)
    requires
        call_ensures(finish_call, (name, timeout_ms, outcome, max_payload_bytes), r),
    ensures
        match outcome {
            None => r is Err && r->Err_0.kind == ErrorKind::Timeout,
            Some(Err(e)) => r is Err && r->Err_0.kind == e.kind && r->Err_0.message@ == e.message@,
            Some(Ok(v)) => if utf8_len(json_text(v@)) <= max_payload_bytes {
                r is Ok && r->Ok_0@ == json_text(v@)
            } else {
                r is Err && r->Err_0.kind == ErrorKind::PayloadLimit
            },
        },
{
}

} // verus!
