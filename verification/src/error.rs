//! The one error type every operation reports through.

use vstd::prelude::*;

verus! {

/// `reqwest::Error`, declared to Verus as a type it cannot look into. The
/// library makes no such value and reads none: it carries the transport's
/// error from where it arose to the caller.
#[verifier::external_type_specification]
#[verifier::external_body]
pub struct ExTransportError(reqwest::Error);

/// Why an operation did not yield its result.
#[derive(Debug)]
pub enum RequestError {
    /// The request could not be completed, or its response could not be
    /// decoded. The transport's error is attached as it came.
    LocalError(reqwest::Error),
    /// The server answered in a well-formed way and flagged a failure. The
    /// text is the server's own.
    ServerError(String),
    /// A timestamp in an otherwise valid payload, given here, is no point in
    /// time that can be represented.
    DecodeError(u64),
    /// The credentials lack a field the operation needs.
    ConfigurationError,
}

/// A `RequestError` as a mathematical value.
pub enum RequestErrorView {
    LocalError(reqwest::Error),
    ServerError(Seq<char>),
    DecodeError(u64),
    ConfigurationError,
}

impl View for RequestError {
    type V = RequestErrorView;

    open spec fn view(&self) -> RequestErrorView {
        match self {
            RequestError::LocalError(cause) => RequestErrorView::LocalError(*cause),
            RequestError::ServerError(desc) => RequestErrorView::ServerError(desc@),
            RequestError::DecodeError(time) => RequestErrorView::DecodeError(*time),
            RequestError::ConfigurationError => RequestErrorView::ConfigurationError,
        }
    }
}

} // verus!
