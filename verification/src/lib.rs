//! Client-side marshalling for the Maloja scrobble server's HTTP API.
//!
//! The crate holds everything that decides something: how a time range
//! becomes query parameters, how a request record becomes a URL, how a
//! decoded response becomes a typed result or a classified error, and how
//! wire records become domain objects. Sending and receiving is left to the
//! caller, who hands over what the transport returned.
//!
//! # Modules
//!
//! - `credentials`: where the server is, and the base URL of its endpoints.
//! - `range`: a time range and the three query parameters it resolves to.
//! - `json`: the records of the wire, and what all responses have in common.
//! - `query`: from a request record to a path with a query string.
//! - `headers`: the caller's headers, filtered into a header map.
//! - `response`: the classification of a response as result or error.
//! - `types`: the track a caller receives, mapped from the wire.
//! - `history`: listing and counting, from the URL to the result.
//! - `submit`: the submission of one scrobble.
//! - `error`: the error every operation reports through.
//! - `text`: decimal numerals and trimming.
//!
//! # What is proved and what is not
//!
//! Every function states what it returns over mathematical values, and
//! Verus proves that it does. The proofs rest on contracts that are given
//! without proof for calls into other crates: `serde_qs::to_string` encodes a
//! key and its value, `chrono::DateTime::from_timestamp` makes a moment of
//! seconds, and `HeaderName::from_str`, `HeaderValue::from_str`,
//! `HeaderMap::new` and `HeaderMap::try_insert` of the `http` crate, reached
//! through `reqwest`, build the header map. Most of these contracts only name
//! what the call returns. Where the other crate decides whether a call
//! succeeds, the function here says what holds either way.

pub mod credentials;
pub mod error;
pub mod headers;
pub mod history;
pub mod json;
pub mod query;
pub mod range;
pub mod response;
pub mod submit;
pub mod text;
pub mod types;

pub use credentials::MalojaCredentials;
pub use error::RequestError;
pub use headers::parse_headers;
pub use history::Scrobble;
pub use query::full_query_path;
pub use range::{process_range, Range};
pub use response::handle_response;
