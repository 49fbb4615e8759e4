//! The error type that every operation reports with.

use vstd::prelude::*;

verus! {

/// What kind of failure an error is.
#[derive(Debug, Clone, Copy, PartialEq, Eq, Structural)]
pub enum ErrorKind {
    /// A request named an argument wrongly or left it out.
    InvalidArgument,
    /// A provider does not implement what was asked.
    UnsupportedCapability,
    /// What was asked for does not exist.
    NotFound,
    /// An operation ran out of time.
    Timeout,
    /// A peer did not keep to its protocol.
    ProtocolError,
    /// A provider is not enabled.
    ProviderUnavailable,
    /// An application cannot be reached.
    ApplicationUnavailable,
    /// A feature is switched off in the configuration.
    FeatureDisabled,
    /// A debugging endpoint cannot be used.
    EndpointUnavailable,
    /// A managed browser is gone.
    BrowserExited,
    /// Something could not be removed again.
    CleanupFailure,
    /// Too many of a kind are running.
    ConcurrencyLimit,
    /// A path may not be read.
    PathRejected,
    /// A result is too large.
    PayloadLimit,
    /// The permission mode does not allow it.
    PermissionDenied,
    /// Something broke inside.
    InternalError,
}

impl ErrorKind {
    /// The stable name of the kind, for callers that match on it.
    pub open spec fn code_view(self) -> Seq<char> {
        match self {
            ErrorKind::InvalidArgument => "invalid_argument"@,
            ErrorKind::UnsupportedCapability => "unsupported_capability"@,
            ErrorKind::NotFound => "not_found"@,
            ErrorKind::Timeout => "timeout"@,
            ErrorKind::ProtocolError => "protocol_error"@,
            ErrorKind::ProviderUnavailable => "provider_unavailable"@,
            ErrorKind::ApplicationUnavailable => "application_unavailable"@,
            ErrorKind::FeatureDisabled => "feature_disabled"@,
            ErrorKind::EndpointUnavailable => "endpoint_unavailable"@,
            ErrorKind::BrowserExited => "browser_exited"@,
            ErrorKind::CleanupFailure => "cleanup_failure"@,
            ErrorKind::ConcurrencyLimit => "concurrency_limit"@,
            ErrorKind::PathRejected => "path_rejected"@,
            ErrorKind::PayloadLimit => "payload_limit"@,
            ErrorKind::PermissionDenied => "permission_denied"@,
            ErrorKind::InternalError => "internal_error"@,
        }
    }

    /// The stable name of the kind, for callers that match on it.
    pub fn code(self) -> (r: &'static str)
        ensures
            r@ == self.code_view(),
    {
        match self {
            ErrorKind::InvalidArgument => "invalid_argument",
            ErrorKind::UnsupportedCapability => "unsupported_capability",
            ErrorKind::NotFound => "not_found",
            ErrorKind::Timeout => "timeout",
            ErrorKind::ProtocolError => "protocol_error",
            ErrorKind::ProviderUnavailable => "provider_unavailable",
            ErrorKind::ApplicationUnavailable => "application_unavailable",
            ErrorKind::FeatureDisabled => "feature_disabled",
            ErrorKind::EndpointUnavailable => "endpoint_unavailable",
            ErrorKind::BrowserExited => "browser_exited",
            ErrorKind::CleanupFailure => "cleanup_failure",
            ErrorKind::ConcurrencyLimit => "concurrency_limit",
            ErrorKind::PathRejected => "path_rejected",
            ErrorKind::PayloadLimit => "payload_limit",
            ErrorKind::PermissionDenied => "permission_denied",
            ErrorKind::InternalError => "internal_error",
        }
    }
}

/// An error: its kind and a message for people.
#[derive(Debug)]
pub struct WinkitError {
    pub kind: ErrorKind,
    pub message: String,
}

/// What an error says.
pub struct ErrorView {
    pub kind: ErrorKind,
    pub message: Seq<char>,
}

impl View for WinkitError {
    type V = ErrorView;

    open spec fn view(&self) -> ErrorView {
        ErrorView { kind: self.kind, message: self.message@ }
    }
}

/// The view of an error of kind `kind` with message `message`.
pub open spec fn err_view(kind: ErrorKind, message: Seq<char>) -> ErrorView {
    ErrorView { kind, message }
}

/// The same outcome with the error taken by its view.
pub open spec fn res_view<T>(r: Result<T, WinkitError>) -> Result<T, ErrorView> {
    match r {
        Ok(v) => Ok(v),
        Err(e) => Err(e@),
    }
}

impl WinkitError {
    /// An error of any kind.
    pub fn new(kind: ErrorKind, message: String) -> (r: Self)
        ensures
            r@ == err_view(kind, message@),
    {
        WinkitError { kind, message }
    }

    /// An error of the same kind with the same message.
    pub fn copy(&self) -> (r: Self)
        ensures
            r@ == self@,
    {
        WinkitError { kind: self.kind, message: self.message.clone() }
    }

    /// An error of kind [`ErrorKind::InvalidArgument`].
    pub fn invalid_argument(message: &str) -> (r: Self)
        ensures
            r@ == err_view(ErrorKind::InvalidArgument, message@),
    {
        WinkitError { kind: ErrorKind::InvalidArgument, message: message.to_owned() }
    }

    /// An error of kind [`ErrorKind::UnsupportedCapability`].
    pub fn unsupported_capability(message: &str) -> (r: Self)
        ensures
            r@ == err_view(ErrorKind::UnsupportedCapability, message@),
    {
        WinkitError { kind: ErrorKind::UnsupportedCapability, message: message.to_owned() }
    }

    /// An error of kind [`ErrorKind::NotFound`].
    pub fn not_found(message: &str) -> (r: Self)
        ensures
            r@ == err_view(ErrorKind::NotFound, message@),
    {
        WinkitError { kind: ErrorKind::NotFound, message: message.to_owned() }
    }

    /// An error of kind [`ErrorKind::Timeout`].
    pub fn timeout(message: &str) -> (r: Self)
        ensures
            r@ == err_view(ErrorKind::Timeout, message@),
    {
        WinkitError { kind: ErrorKind::Timeout, message: message.to_owned() }
    }

    /// An error of kind [`ErrorKind::ProtocolError`].
    pub fn protocol(message: &str) -> (r: Self)
        ensures
            r@ == err_view(ErrorKind::ProtocolError, message@),
    {
        WinkitError { kind: ErrorKind::ProtocolError, message: message.to_owned() }
    }

    /// An error of kind [`ErrorKind::ProviderUnavailable`].
    pub fn provider_unavailable(message: &str) -> (r: Self)
        ensures
            r@ == err_view(ErrorKind::ProviderUnavailable, message@),
    {
        WinkitError { kind: ErrorKind::ProviderUnavailable, message: message.to_owned() }
    }

    /// An error of kind [`ErrorKind::ApplicationUnavailable`].
    pub fn application_unavailable(message: &str) -> (r: Self)
        ensures
            r@ == err_view(ErrorKind::ApplicationUnavailable, message@),
    {
        WinkitError { kind: ErrorKind::ApplicationUnavailable, message: message.to_owned() }
    }

    /// An error of kind [`ErrorKind::FeatureDisabled`].
    pub fn feature_disabled(message: &str) -> (r: Self)
        ensures
            r@ == err_view(ErrorKind::FeatureDisabled, message@),
    {
        WinkitError { kind: ErrorKind::FeatureDisabled, message: message.to_owned() }
    }

    /// An error of kind [`ErrorKind::EndpointUnavailable`].
    pub fn endpoint_unavailable(message: &str) -> (r: Self)
        ensures
            r@ == err_view(ErrorKind::EndpointUnavailable, message@),
    {
        WinkitError { kind: ErrorKind::EndpointUnavailable, message: message.to_owned() }
    }

    /// An error of kind [`ErrorKind::BrowserExited`].
    pub fn browser_exited(message: &str) -> (r: Self)
        ensures
            r@ == err_view(ErrorKind::BrowserExited, message@),
    {
        WinkitError { kind: ErrorKind::BrowserExited, message: message.to_owned() }
    }

    /// An error of kind [`ErrorKind::CleanupFailure`].
    pub fn cleanup_failure(message: &str) -> (r: Self)
        ensures
            r@ == err_view(ErrorKind::CleanupFailure, message@),
    {
        WinkitError { kind: ErrorKind::CleanupFailure, message: message.to_owned() }
    }

    /// An error of kind [`ErrorKind::ConcurrencyLimit`].
    pub fn concurrency_limit(message: &str) -> (r: Self)
        ensures
            r@ == err_view(ErrorKind::ConcurrencyLimit, message@),
    {
        WinkitError { kind: ErrorKind::ConcurrencyLimit, message: message.to_owned() }
    }

    /// An error of kind [`ErrorKind::PathRejected`].
    pub fn path_rejected(message: &str) -> (r: Self)
        ensures
            r@ == err_view(ErrorKind::PathRejected, message@),
    {
        WinkitError { kind: ErrorKind::PathRejected, message: message.to_owned() }
    }

    /// An error of kind [`ErrorKind::PayloadLimit`].
    pub fn payload_limit(message: &str) -> (r: Self)
        ensures
            r@ == err_view(ErrorKind::PayloadLimit, message@),
    {
        WinkitError { kind: ErrorKind::PayloadLimit, message: message.to_owned() }
    }

    /// An error of kind [`ErrorKind::InternalError`].
    pub fn internal(message: &str) -> (r: Self)
        ensures
            r@ == err_view(ErrorKind::InternalError, message@),
    {
        WinkitError { kind: ErrorKind::InternalError, message: message.to_owned() }
    }
}

/// Every kind of error has a stable name of its own.
pub proof fn law_kinds_have_names_of_their_own(a: ErrorKind, b: ErrorKind)
    ensures
        a.code_view() == b.code_view() <==> a == b,
{
    reveal_strlit("invalid_argument");
    assert("invalid_argument"@.len() == 16);
    reveal_strlit("unsupported_capability");
    assert("unsupported_capability"@.len() == 22);
    reveal_strlit("not_found");
    assert("not_found"@.len() == 9);
    reveal_strlit("timeout");
    assert("timeout"@.len() == 7);
    reveal_strlit("protocol_error");
    assert("protocol_error"@.len() == 14);
    reveal_strlit("provider_unavailable");
    assert("provider_unavailable"@.len() == 20);
    reveal_strlit("application_unavailable");
    assert("application_unavailable"@.len() == 23);
    reveal_strlit("feature_disabled");
    assert("feature_disabled"@.len() == 16);
    reveal_strlit("endpoint_unavailable");
    assert("endpoint_unavailable"@.len() == 20);
    reveal_strlit("browser_exited");
    assert("browser_exited"@.len() == 14);
    reveal_strlit("cleanup_failure");
    assert("cleanup_failure"@.len() == 15);
    reveal_strlit("concurrency_limit");
    assert("concurrency_limit"@.len() == 17);
    reveal_strlit("path_rejected");
    assert("path_rejected"@.len() == 13);
    reveal_strlit("payload_limit");
    assert("payload_limit"@.len() == 13);
    reveal_strlit("permission_denied");
    assert("permission_denied"@.len() == 17);
    reveal_strlit("internal_error");
    assert("internal_error"@.len() == 14);
    assert("invalid_argument"@[0] != "feature_disabled"@[0]);
    assert("protocol_error"@[0] != "browser_exited"@[0]);
    assert("protocol_error"@[0] != "internal_error"@[0]);
    assert("provider_unavailable"@[0] != "endpoint_unavailable"@[0]);
    assert("browser_exited"@[0] != "internal_error"@[0]);
    assert("concurrency_limit"@[0] != "permission_denied"@[0]);
    assert("path_rejected"@[2] != "payload_limit"@[2]);
}

/// An error is of the kind that it is made as, and says what it is given.
pub proof fn law_errors_are_of_their_kind(message: &str, e: WinkitError)
    ensures
        call_ensures(WinkitError::invalid_argument, (message,), e) ==> e.kind == ErrorKind::InvalidArgument && e.message@
            == message@,
        call_ensures(WinkitError::unsupported_capability, (message,), e) ==> e.kind == ErrorKind::UnsupportedCapability && e.message@
            == message@,
        call_ensures(WinkitError::not_found, (message,), e) ==> e.kind == ErrorKind::NotFound && e.message@
            == message@,
        call_ensures(WinkitError::timeout, (message,), e) ==> e.kind == ErrorKind::Timeout && e.message@
            == message@,
        call_ensures(WinkitError::protocol, (message,), e) ==> e.kind == ErrorKind::ProtocolError && e.message@
            == message@,
        call_ensures(WinkitError::provider_unavailable, (message,), e) ==> e.kind == ErrorKind::ProviderUnavailable && e.message@
            == message@,
        call_ensures(WinkitError::application_unavailable, (message,), e) ==> e.kind == ErrorKind::ApplicationUnavailable && e.message@
            == message@,
        call_ensures(WinkitError::feature_disabled, (message,), e) ==> e.kind == ErrorKind::FeatureDisabled && e.message@
            == message@,
        call_ensures(WinkitError::endpoint_unavailable, (message,), e) ==> e.kind == ErrorKind::EndpointUnavailable && e.message@
            == message@,
        call_ensures(WinkitError::browser_exited, (message,), e) ==> e.kind == ErrorKind::BrowserExited && e.message@
            == message@,
        call_ensures(WinkitError::cleanup_failure, (message,), e) ==> e.kind == ErrorKind::CleanupFailure && e.message@
            == message@,
        call_ensures(WinkitError::concurrency_limit, (message,), e) ==> e.kind == ErrorKind::ConcurrencyLimit && e.message@
            == message@,
        call_ensures(WinkitError::path_rejected, (message,), e) ==> e.kind == ErrorKind::PathRejected && e.message@
            == message@,
        call_ensures(WinkitError::payload_limit, (message,), e) ==> e.kind == ErrorKind::PayloadLimit && e.message@
            == message@,
        call_ensures(WinkitError::internal, (message,), e) ==> e.kind == ErrorKind::InternalError && e.message@
            == message@,
{
}

} // verus!
