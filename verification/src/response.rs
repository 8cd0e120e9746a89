//! The one place where a response is classified: transport first, then the
//! record's own error descriptor.

use crate::error::{RequestError, RequestErrorView};
use crate::json::MalojaResponse;
use vstd::prelude::*;

verus! {

/// What a response comes to. A failed transport or decoding stays a local
/// error with its cause. A decoded record that carries an error descriptor is
/// a server error with the descriptor's text, whatever else the record holds.
/// Any other record is the result.
pub open spec fn normalized<T: MalojaResponse>(response: Result<T, reqwest::Error>) -> Result<
    T,
    RequestErrorView,
> {
    match response {
        Err(cause) => Err(RequestErrorView::LocalError(cause)),
        Ok(record) => match record.error_descriptor() {
            Some(error) => Err(RequestErrorView::ServerError(error.desc)),
            None => Ok(record),
        },
    }
}

/// The mathematical value of an outcome: the record as it is, the error by
/// its view.
pub open spec fn outcome_view<T>(outcome: Result<T, RequestError>) -> Result<T, RequestErrorView> {
    match outcome {
        Ok(value) => Ok(value),
        Err(error) => Err(error@),
    }
}

/// Classifies what the transport and the decoder returned for one request.
pub fn handle_response<T: MalojaResponse>(response: Result<T, reqwest::Error>) -> (outcome: Result<
    T,
    RequestError,
>)
    ensures
        outcome_view(outcome) == normalized(response),
{
    match response {
        Err(cause) => Err(RequestError::LocalError(cause)),
        Ok(record) => match record.get_error() {
            None => Ok(record),
            Some(error) => Err(RequestError::ServerError(error.desc)),
        },
    }
}

/// A record with an error descriptor comes to a server error that carries
/// exactly the descriptor's text.
pub proof fn lemma_descriptor_becomes_server_error<T: MalojaResponse>(record: T)
    requires
        record.error_descriptor() is Some,
    ensures
        normalized(Ok::<T, reqwest::Error>(record)) == Err::<T, RequestErrorView>(
            RequestErrorView::ServerError(record.error_descriptor()->0.desc),
        ),
{
}

/// A transport failure comes to a local error with the same cause, and to no
/// other kind of error.
pub proof fn lemma_transport_failure_stays_local<T: MalojaResponse>(cause: reqwest::Error)
    ensures
        normalized(Err::<T, reqwest::Error>(cause)) == Err::<T, RequestErrorView>(
            RequestErrorView::LocalError(cause),
        ),
        !(normalized(Err::<T, reqwest::Error>(cause)) matches Err(RequestErrorView::ServerError(_))),
{
}

/// A record comes through unchanged exactly when it carries no descriptor.
pub proof fn lemma_success_needs_no_descriptor<T: MalojaResponse>(
    response: Result<T, reqwest::Error>,
)
    ensures
        normalized(response) is Ok <==> response is Ok && response->Ok_0.error_descriptor() is None,
        normalized(response) is Ok ==> normalized(response)->Ok_0 == response->Ok_0,
{
}

} // verus!
