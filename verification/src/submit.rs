//! Submitting one scrobble: the record to post and where to post it.

use crate::credentials::MalojaCredentials;
use crate::error::{RequestError, RequestErrorView};
use crate::json::{ScrobbleReq, ScrobbleReqView};
use vstd::prelude::*;

verus! {

/// The path of the submission endpoint under the base URL.
pub open spec fn newscrobble_endpoint() -> Seq<char> {
    "/apis/mlj_1/newscrobble"@
}

/// The record that submits a track by one artist under a key: title, the
/// one artist and the key, and nothing else.
pub open spec fn submission(title: Seq<char>, artist: Seq<char>, key: Seq<char>) -> ScrobbleReqView {
    ScrobbleReqView {
        artist: Some(artist),
        artists: None,
        title,
        album: None,
        albumartists: None,
        duration: None,
        length: None,
        time: None,
        key,
    }
}

/// What building a submission comes to under an optional key: the record
/// where there is a key, a configuration error where there is none.
pub open spec fn submission_under(
    title: Seq<char>,
    artist: Seq<char>,
    api_key: Option<Seq<char>>,
) -> Result<ScrobbleReqView, RequestErrorView> {
    match api_key {
        Some(key) => Ok(submission(title, artist, key)),
        None => Err(RequestErrorView::ConfigurationError),
    }
}

/// The mathematical value of the outcome of building a submission.
pub open spec fn submission_view(outcome: Result<ScrobbleReq, RequestError>) -> Result<
    ScrobbleReqView,
    RequestErrorView,
> {
    match outcome {
        Ok(record) => Ok(record@),
        Err(error) => Err(error@),
    }
}

/// Builds the record that submits `title` by `artist`. The credentials must
/// hold an API key: without one there is nothing to send, and the outcome is
/// a configuration error.
pub fn scrobble_body(title: String, artist: String, credentials: &MalojaCredentials) -> (outcome:
    Result<ScrobbleReq, RequestError>)
    ensures
        submission_view(outcome) == submission_under(
            title@,
            artist@,
            credentials.api_key.deep_view(),
        ),
{
    match &credentials.api_key {
        None => Err(RequestError::ConfigurationError),
        Some(key) => Ok(
            ScrobbleReq {
                artist: Some(artist),
                artists: None,
                title,
                album: None,
                albumartists: None,
                duration: None,
                length: None,
                time: None,
                key: key.clone(),
            },
        ),
    }
}

/// The URL to post a submission to: the submission endpoint under the base
/// URL.
pub fn scrobble_url(credentials: &MalojaCredentials) -> (url: String)
    ensures
        url@ == credentials.url() + newscrobble_endpoint(),
{
    credentials.get_url().concat("/apis/mlj_1/newscrobble")
}

} // verus!
