//! The ways a request can fail.

use vstd::prelude::*;

verus! {

/// The status that a gateway answers with when it is asked too often.
pub const TOO_MANY_REQUESTS: u16 = 429;

/// The status of a plain success.
pub const STATUS_OK: u16 = 200;

/// An error of the HTTP client.
#[derive(Debug, Clone, PartialEq, Eq)]
pub enum HttpClientError {
    /// The API key is not a legal header value.
    InvalidApiKey,
    /// The access token is not a legal header value.
    InvalidAccessToken,
    /// The request body could not be encoded; nothing was sent.
    SerializeRequestBody(String),
    /// The response was not an envelope, or its payload could not be decoded.
    DeserializeResponseBody(String),
    /// The attempt did not finish within its time limit.
    RequestTimeout,
    /// The transport failed; the text is what it reported.
    Http(String),
    /// The response was no envelope and carried this HTTP status.
    BadStatus(u16),
    /// The remote service refused the call.
    OpenApi { code: i32, message: String, trace_id: String },
    /// The envelope reported success and carried no payload.
    UnexpectedResponse,
}

/// The result of an operation of the client.
pub type HttpClientResult<T> = Result<T, HttpClientError>;

/// An error as a value of the specification: its texts as sequences of characters.
pub enum ErrorModel {
    InvalidApiKey,
    InvalidAccessToken,
    SerializeRequestBody(Seq<char>),
    DeserializeResponseBody(Seq<char>),
    RequestTimeout,
    Http(Seq<char>),
    BadStatus(u16),
    OpenApi { code: i32, message: Seq<char>, trace_id: Seq<char> },
    UnexpectedResponse,
}

impl View for HttpClientError {
    type V = ErrorModel;

    open spec fn view(&self) -> ErrorModel {
        match self {
            HttpClientError::InvalidApiKey => ErrorModel::InvalidApiKey,
            HttpClientError::InvalidAccessToken => ErrorModel::InvalidAccessToken,
            HttpClientError::SerializeRequestBody(m) => ErrorModel::SerializeRequestBody(m@),
            HttpClientError::DeserializeResponseBody(m) => ErrorModel::DeserializeResponseBody(m@),
            HttpClientError::RequestTimeout => ErrorModel::RequestTimeout,
            HttpClientError::Http(m) => ErrorModel::Http(m@),
            HttpClientError::BadStatus(status) => ErrorModel::BadStatus(*status),
            HttpClientError::OpenApi { code, message, trace_id } => ErrorModel::OpenApi {
                code: *code,
                message: message@,
                trace_id: trace_id@,
            },
            HttpClientError::UnexpectedResponse => ErrorModel::UnexpectedResponse,
        }
    }
}

impl ErrorModel {
    /// Whether the error is the one that a retry may cure: a bad status 429.
    pub open spec fn is_rate_limited(self) -> bool {
        self == ErrorModel::BadStatus(TOO_MANY_REQUESTS)
    }
}

impl HttpClientError {
    /// Whether the error is the one that a retry may cure: a bad status 429.
    pub fn is_rate_limited(&self) -> (r: bool)
        ensures
            r == self@.is_rate_limited(),
    {
        match self {
            HttpClientError::BadStatus(status) => *status == TOO_MANY_REQUESTS,
            _ => false,
        }
    }
}

/// The view of a result: the value as it is, the error by its view.
pub open spec fn result_view<T>(r: HttpClientResult<T>) -> Result<T, ErrorModel> {
    match r {
        Ok(value) => Ok(value),
        Err(err) => Err(err@),
    }
}

} // verus!
