//! The request pipeline of an authenticated open-API HTTP client, without
//! the I/O.
//!
//! A request is built with [`RequestBuilder`] and sent in attempts. For each
//! attempt the library says where the base URL comes from, assembles the
//! request that is to be signed, attaches the signature, and judges what the
//! transport brought back; between attempts it says whether to go on and how
//! long to wait. Resolving the jurisdiction, reading the clock, encoding the
//! query parameters, computing the signature, moving the bytes and sleeping
//! are the caller's part.
//!
//! - [`codec`]: payloads to and from typed values.
//! - [`headers`]: header names, values and maps.
//! - [`url`]: the address of a request.
//! - [`request`]: the client's configuration and the request builder.
//! - [`attempt`]: the steps of one attempt.
//! - [`signing`]: the request as it is signed and transmitted.
//! - [`envelope`] and [`response`]: reading and judging a response.
//! - [`retry`]: the retry controller.
//! - [`error`]: the errors.

pub mod attempt;
pub mod codec;
pub mod envelope;
pub mod error;
pub mod headers;
pub mod request;
pub mod response;
pub mod retry;
pub mod signing;
pub mod url;

pub use codec::FromPayload;
pub use codec::Json;
pub use codec::ToPayload;
pub use error::HttpClientError;
pub use error::HttpClientResult;
pub use request::HttpClient;
pub use request::HttpClientConfig;
pub use request::RequestBuilder;
pub use reqwest::Method;
