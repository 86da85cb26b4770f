//! The client's configuration and the request builder.
//!
//! A builder is made for one call, takes the parts of the request one by
//! one, each time giving a new builder, and is used up by `send`.

use crate::codec::FromPayload;
use crate::codec::ToPayload;
use crate::headers::header_entries;
use crate::headers::header_map_has_room;
use crate::headers::header_name_ok;
use crate::headers::header_value_ok;
use crate::headers::new_header_map;
use crate::headers::no_headers;
use crate::headers::try_insert_header;
use crate::headers::with_header;
use crate::error::result_view;
use crate::error::HttpClientResult;
use crate::retry::verdict_of;
use crate::retry::Backoff;
use crate::retry::Verdict;
use crate::retry::VerdictModel;
use crate::retry::RETRY_COUNT;
use reqwest::header::HeaderMap;
use reqwest::header::HeaderValue;
use reqwest::Method;
use std::marker::PhantomData;
use vstd::prelude::*;
use vstd::string::StringExecFns;
use vstd::utf8::encode_utf8;

verus! {

/// The base URL of the gateway outside the domestic jurisdiction.
pub const HTTP_URL: &'static str = "https://openapi.longportapp.com";

/// The base URL of the gateway inside the domestic jurisdiction.
pub const HTTP_URL_CN: &'static str = "https://openapi.longportapp.cn";

/// `reqwest::Method`, carried from the caller to the transport unread.
#[verifier::external_type_specification]
#[verifier::external_body]
pub struct ExMethod(Method);

/// `Method::clone`: the copy is the method itself.
pub assume_specification[ <Method as Clone>::clone ](method: &Method) -> (r: Method)
    ensures
        r == *method,
;

/// What a client is configured with.
#[derive(Debug, Clone, PartialEq, Eq)]
pub struct HttpClientConfig {
    /// The API key.
    pub app_key: String,
    /// The secret that signatures are made with.
    pub app_secret: String,
    /// The access token.
    pub access_token: String,
    /// The base URL to use whatever the jurisdiction, if any.
    pub http_url: Option<String>,
}

/// The client's part in every request: its configuration and the headers it
/// sends by default. Neither changes once the client is made.
#[derive(Debug)]
pub struct HttpClient {
    pub config: HttpClientConfig,
    pub default_headers: HeaderMap<HeaderValue>,
}

impl HttpClient {
    /// A client with the given configuration and default headers.
    pub fn new(config: HttpClientConfig, default_headers: HeaderMap<HeaderValue>) -> (r: Self)
        ensures
            r.config == config,
            r.default_headers == default_headers,
    {
        HttpClient { config, default_headers }
    }

    /// Starts a request.
    pub fn request<'a>(&'a self, method: Method, path: &str) -> (r: RequestBuilder<'a, (), (), ()>)
        ensures
            r@.client == *self,
            r@.method == method,
            r@.path == path@,
            header_entries(r@.headers) == no_headers(),
            header_map_has_room(r@.headers),
            r@.body is None,
            r@.query_params is None,
    {
        RequestBuilder::new(self, method, path)
    }
}

/// A request that is being built: what the builder has taken in so far.
pub struct PendingRequest<T, Q> {
    pub client: HttpClient,
    pub method: Method,
    pub path: Seq<char>,
    pub headers: HeaderMap<HeaderValue>,
    pub body: Option<T>,
    pub query_params: Option<Q>,
}

/// A request builder.
pub struct RequestBuilder<'a, T, Q, R> {
    client: &'a HttpClient,
    method: Method,
    path: String,
    headers: HeaderMap<HeaderValue>,
    body: Option<T>,
    query_params: Option<Q>,
    mark_resp: PhantomData<R>,
}

impl<'a, T, Q, R> View for RequestBuilder<'a, T, Q, R> {
    type V = PendingRequest<T, Q>;

    closed spec fn view(&self) -> PendingRequest<T, Q> {
        PendingRequest {
            client: *self.client,
            method: self.method,
            path: self.path@,
            headers: self.headers,
            body: self.body,
            query_params: self.query_params,
        }
    }
}

impl<'a> RequestBuilder<'a, (), (), ()> {
    /// A request with no header, no body and no query, whose response is not read.
    pub fn new(client: &'a HttpClient, method: Method, path: &str) -> (r: Self)
        ensures
            r@.client == *client,
            r@.method == method,
            r@.path == path@,
            header_entries(r@.headers) == no_headers(),
            header_map_has_room(r@.headers),
            r@.body is None,
            r@.query_params is None,
    {
        RequestBuilder {
            client,
            method,
            path: String::from_str(path),
            headers: new_header_map(),
            body: None,
            query_params: None,
            mark_resp: PhantomData,
        }
    }
}

impl<'a, T, Q, R> RequestBuilder<'a, T, Q, R> {
    /// Sets the request body, in place of any set before.
    #[must_use]
    pub fn body<T2>(self, body: T2) -> (r: RequestBuilder<'a, T2, Q, R>) where T2: ToPayload
        ensures
            r@.client == self@.client,
            r@.method == self@.method,
            r@.path == self@.path,
            r@.headers == self@.headers,
            r@.body == Some(body),
            r@.query_params == self@.query_params,
    {
        RequestBuilder {
            client: self.client,
            method: self.method,
            path: self.path,
            headers: self.headers,
            body: Some(body),
            query_params: self.query_params,
            mark_resp: self.mark_resp,
        }
    }

    /// Sets a header. Where the name and the value are well-formed, the value
    /// takes the place of all that the name held. Where either is not, or
    /// the map is full, the call changes nothing and reports nothing.
    #[must_use]
    pub fn header(self, key: &str, value: &str) -> (r: Self)
        ensures
            r@.client == self@.client,
            r@.method == self@.method,
            r@.path == self@.path,
            r@.body == self@.body,
            r@.query_params == self@.query_params,
            header_entries(r@.headers) == with_header(
                header_entries(self@.headers),
                header_map_has_room(self@.headers),
                key@,
                encode_utf8(value@),
            ),
    {
        let mut this = self;
        let name_ok = header_name_ok(key);
        let value_ok = header_value_ok(value.as_bytes());
        if name_ok && value_ok {
            let _ = try_insert_header(&mut this.headers, key, value.as_bytes());
        }
        this
    }

    /// Sets the query parameters, in place of any set before.
    #[must_use]
    pub fn query_params<Q2>(self, params: Q2) -> (r: RequestBuilder<'a, T, Q2, R>) where
        Q2: Send + Sync,

        ensures
            r@.client == self@.client,
            r@.method == self@.method,
            r@.path == self@.path,
            r@.headers == self@.headers,
            r@.body == self@.body,
            r@.query_params == Some(params),
    {
        RequestBuilder {
            client: self.client,
            method: self.method,
            path: self.path,
            headers: self.headers,
            body: self.body,
            query_params: Some(params),
            mark_resp: self.mark_resp,
        }
    }

    /// The client that the request belongs to.
    pub fn client(&self) -> (r: &'a HttpClient)
        ensures
            *r == self@.client,
    {
        self.client
    }

    /// The method of the request.
    pub fn method(&self) -> (r: &Method)
        ensures
            *r == self@.method,
    {
        &self.method
    }

    /// The path of the request.
    pub fn path(&self) -> (r: &str)
        ensures
            r@ == self@.path,
    {
        self.path.as_str()
    }

    /// The headers that the request was given.
    pub fn headers(&self) -> (r: &HeaderMap<HeaderValue>)
        ensures
            *r == self@.headers,
    {
        &self.headers
    }

    /// The body that the request was given, if any.
    pub fn body_ref(&self) -> (r: Option<&T>)
        ensures
            match r {
                Some(body) => self@.body == Some(*body),
                None => self@.body is None,
            },
    {
        self.body.as_ref()
    }

    /// The query parameters that the request was given, if any.
    pub fn query_ref(&self) -> (r: Option<&Q>)
        ensures
            match r {
                Some(params) => self@.query_params == Some(*params),
                None => self@.query_params is None,
            },
    {
        self.query_params.as_ref()
    }

    /// Sets the type that the response payload is decoded into. Nothing of
    /// the request changes.
    #[must_use]
    pub fn response<R2>(self) -> (r: RequestBuilder<'a, T, Q, R2>) where R2: FromPayload
        ensures
            r@ == self@,
    {
        RequestBuilder {
            client: self.client,
            method: self.method,
            path: self.path,
            headers: self.headers,
            body: self.body,
            query_params: self.query_params,
            mark_resp: PhantomData,
        }
    }
}

/// A send under way: the request, which changes no more, and the state of
/// its retries.
pub struct Sending<'a, T, Q, R> {
    request: RequestBuilder<'a, T, Q, R>,
    backoff: Backoff,
}

/// How a send goes on after an attempt.
pub enum Progress<'a, T, Q, R> {
    /// The send ends with this result.
    Done(HttpClientResult<R>),
    /// Wait for the delay, then make the next attempt of `sending`.
    RetryAfter { delay_ms: u64, sending: Sending<'a, T, Q, R> },
}

impl<'a, T, Q, R> RequestBuilder<'a, T, Q, R> where T: ToPayload, Q: Send, R: FromPayload {
    /// Ends the building and starts the send. The builder is used up: what
    /// it built can be sent once, and is the same in every attempt.
    pub fn send(self) -> (r: Sending<'a, T, Q, R>)
        ensures
            r.pending() == self@,
            r.retries() == 0,
    {
        Sending { request: self, backoff: Backoff::start() }
    }
}

impl<'a, T, Q, R> Sending<'a, T, Q, R> {
    /// The request that is being sent.
    pub closed spec fn pending(&self) -> PendingRequest<T, Q> {
        self.request@
    }

    /// The retries made so far.
    pub closed spec fn retries(&self) -> nat {
        self.backoff.retries()
    }

    /// The request that is being sent, for the steps of the next attempt.
    pub fn request(&self) -> (r: &RequestBuilder<'a, T, Q, R>)
        ensures
            r@ == self.pending(),
    {
        &self.request
    }

    /// The retries made so far.
    pub fn retries_made(&self) -> (r: usize)
        ensures
            r == self.retries(),
            r <= RETRY_COUNT,
    {
        self.backoff.retries_made()
    }

    /// Judges the outcome of an attempt: the send ends with every outcome
    /// but a rate-limit error while retries are left, after which the same
    /// request is attempted again.
    pub fn judge(self, outcome: HttpClientResult<R>) -> (r: Progress<'a, T, Q, R>)
        ensures
            match verdict_of(self.retries(), result_view(outcome)) {
                VerdictModel::Done(result) => r matches Progress::Done(ended) && result_view(ended)
                    == result,
                VerdictModel::RetryAfter { delay_ms, retries } => r matches Progress::RetryAfter {
                    delay_ms: wait,
                    sending,
                } && wait == delay_ms && sending.retries() == retries && sending.pending()
                    == self.pending(),
            },
    {
        match self.backoff.judge(outcome) {
            Verdict::Done(result) => Progress::Done(result),
            Verdict::RetryAfter { delay_ms, backoff } => Progress::RetryAfter {
                delay_ms,
                sending: Sending { request: self.request, backoff },
            },
        }
    }
}

} // verus!
