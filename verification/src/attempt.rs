//! The steps of one attempt to send a request: where the base URL comes
//! from, which timestamp the attempt bears, what is signed and transmitted,
//! and what the exchange comes to.
//!
//! The library performs no I/O. Whoever drives an attempt asks the
//! jurisdiction where `http_url` says so, encodes the query parameters,
//! computes the signature over what `prepare` gives, hands the signed request
//! to the transport, and brings the exchange to `conclude`.

use crate::codec::encoded_view;
use crate::codec::FromPayload;
use crate::codec::ToPayload;
use crate::error::result_view;
use crate::error::ErrorModel;
use crate::error::HttpClientError;
use crate::error::HttpClientResult;
use crate::headers::header_entries;
use crate::headers::header_list;
use crate::headers::header_seq;
use crate::headers::header_text;
use crate::headers::header_value_ok;
use crate::headers::ascii_text;
use crate::headers::canonical_name;
use crate::headers::is_header_name;
use crate::headers::is_header_value;
use crate::headers::is_value_byte;
use crate::headers::is_visible_byte;
use crate::headers::is_visible_value;
use crate::headers::with_header;
use crate::headers::lemma_values_of_occurs;
use crate::headers::lemma_values_of_single;
use crate::headers::overlaid;
use crate::headers::overlay;
use crate::headers::text_in;
use crate::headers::values_in;
use crate::headers::values_of;
use crate::headers::Header;
use crate::request::HttpClientConfig;
use crate::request::PendingRequest;
use crate::request::RequestBuilder;
use crate::request::HTTP_URL;
use crate::request::HTTP_URL_CN;
use crate::response::conclude;
use crate::response::is_concluded;
use crate::response::Exchange;
use crate::signing::bytes_view;
use crate::signing::fixed_headers;
use crate::signing::signature_header;
use crate::signing::SigningInput;
use crate::signing::UnsignedRequest;
use crate::signing::CONTENT_TYPE;
use crate::signing::USER_AGENT;
use crate::url::build_target_url;
use crate::url::target_url;
use vstd::prelude::*;
use vstd::string::StrSliceExecFns;
use vstd::string::StringExecFns;
use vstd::utf8::encode_utf8;

verus! {

/// Where the base URL of a request comes from.
#[derive(Debug, Clone, PartialEq, Eq)]
pub enum BaseUrl {
    /// The client is configured with this base URL: it is used as it is.
    Configured(String),
    /// The jurisdiction decides: ask whether the call is domestic, and take
    /// the answer to `jurisdiction_url`.
    ByJurisdiction,
}

/// The base URL for a call that is, or is not, domestic.
pub fn jurisdiction_url(domestic: bool) -> (r: &'static str)
    ensures
        r@ == if domestic {
            HTTP_URL_CN@
        } else {
            HTTP_URL@
        },
{
    if domestic {
        HTTP_URL_CN
    } else {
        HTTP_URL
    }
}

/// The values that an unsigned request transmits under `name`: those the
/// protocol fixes, else those the request was given, else the client's defaults.
pub open spec fn transmitted_values<T, Q>(
    pending: PendingRequest<T, Q>,
    timestamp: Seq<char>,
    name: Seq<char>,
) -> Seq<Seq<u8>> {
    overlaid(
        overlaid(
            values_in(header_entries(pending.client.default_headers), name),
            values_in(header_entries(pending.headers), name),
        ),
        values_of(
            fixed_headers(
                pending.client.config.app_key@,
                pending.client.config.access_token@,
                timestamp,
            ),
            name,
        ),
    )
}

/// The credential that is no legal header value, if there is one: the API
/// key before the access token.
pub open spec fn credentials_error(config: HttpClientConfig) -> Option<ErrorModel> {
    if !is_header_value(encode_utf8(config.app_key@)) {
        Some(ErrorModel::InvalidApiKey)
    } else if !is_header_value(encode_utf8(config.access_token@)) {
        Some(ErrorModel::InvalidAccessToken)
    } else {
        None
    }
}

/// Whether `request` is the unsigned request of `pending` with the given
/// timestamp, address and encoded body.
pub open spec fn is_prepared<T, Q>(
    request: UnsignedRequest,
    pending: PendingRequest<T, Q>,
    timestamp: Seq<char>,
    url: Seq<char>,
    body: Option<Seq<u8>>,
) -> bool {
    &&& request.signing.method == pending.method
    &&& request.signing.url@ == url
    &&& bytes_view(request.signing.body) == body
    &&& request.signing.app_key@ == pending.client.config.app_key@
    &&& request.signing.access_token@ == pending.client.config.access_token@
    &&& request.signing.app_secret@ == pending.client.config.app_secret@
    &&& request.signing.timestamp@ == timestamp
    &&& forall|name: Seq<char>| #[trigger]
        values_of(header_seq(request.headers@), name) == transmitted_values(
            pending,
            timestamp,
            name,
        )
}

/// The query string that is attached to the address: the encoding of the
/// query parameters, where the request has any.
pub open spec fn attached_query<T, Q>(
    pending: PendingRequest<T, Q>,
    query: Option<Seq<char>>,
) -> Option<Seq<char>> {
    if pending.query_params is Some {
        query
    } else {
        None
    }
}

/// Whether `r` is what preparing `pending` comes to, given the encoding of
/// its query parameters and the outcome of encoding its body. In this
/// order: a credential that is no legal header value is an error; so is a
/// body that could not be encoded; a timestamp that is no legal header
/// value, or an address that is no URL, leaves no request to send;
/// otherwise the request is prepared.
pub open spec fn prepare_outcome<T, Q>(
    pending: PendingRequest<T, Q>,
    timestamp: Seq<char>,
    base_url: Seq<char>,
    query: Option<Seq<char>>,
    encoded: Option<Result<Seq<u8>, Seq<char>>>,
    r: Result<Option<UnsignedRequest>, HttpClientError>,
) -> bool {
    match credentials_error(pending.client.config) {
        Some(err) => r matches Err(e) && e@ == err,
        None => match encoded {
            Some(Err(message)) => r matches Err(e) && e@ == ErrorModel::SerializeRequestBody(
                message,
            ),
            _ => {
                let body = match encoded {
                    Some(Ok(bytes)) => Some(bytes),
                    _ => None,
                };
                match target_url(base_url, pending.path, attached_query(pending, query)) {
                    Some(url) if is_header_value(encode_utf8(timestamp)) => r matches Ok(
                        Some(request),
                    ) && is_prepared(request, pending, timestamp, url, body),
                    _ => r matches Ok(None),
                }
            },
        },
    }
}

impl<'a, T, Q, R> RequestBuilder<'a, T, Q, R> where T: ToPayload, Q: Send, R: FromPayload {
    /// Where the base URL comes from. With a base URL configured the
    /// jurisdiction is not asked for.
    pub fn http_url(&self) -> (r: BaseUrl)
        ensures
            match self@.client.config.http_url {
                Some(url) => r matches BaseUrl::Configured(chosen) && chosen@ == url@,
                None => r is ByJurisdiction,
            },
    {
        match &self.client().config.http_url {
            Some(url) => BaseUrl::Configured(url.clone()),
            None => BaseUrl::ByJurisdiction,
        }
    }

    /// The text of the `X-Timestamp` header that the request was given, if
    /// it was given one that reads as text.
    pub fn preset_timestamp(&self) -> (r: Option<String>)
        ensures
            r.deep_view() == text_in(header_entries(self@.headers), "X-Timestamp"@),
    {
        header_text(self.headers(), "X-Timestamp")
    }

    /// Checks that the API key and the access token are legal header values.
    pub fn check_credentials(&self) -> (r: Result<(), HttpClientError>)
        ensures
            match credentials_error(self@.client.config) {
                Some(err) => r matches Err(e) && e@ == err,
                None => r is Ok,
            },
    {
        if !header_value_ok(self.client().config.app_key.as_str().as_bytes()) {
            Err(HttpClientError::InvalidApiKey)
        } else if !header_value_ok(self.client().config.access_token.as_str().as_bytes()) {
            Err(HttpClientError::InvalidAccessToken)
        } else {
            Ok(())
        }
    }

    /// Prepares the request of one attempt from the timestamp, the base URL,
    /// the encoding of the query parameters and the outcome of encoding the
    /// body. The query string is attached where the request has query
    /// parameters, and not otherwise.
    pub fn prepare_encoded(
        &self,
        timestamp: &str,
        base_url: &str,
        query: Option<&str>,
        encoded: Option<Result<Vec<u8>, String>>,
    ) -> (r: Result<Option<UnsignedRequest>, HttpClientError>)
        ensures
            prepare_outcome(
                self@,
                timestamp@,
                base_url@,
                query.deep_view(),
                match encoded {
                    Some(outcome) => Some(encoded_view(outcome)),
                    None => None,
                },
                r,
            ),
    {
        let client = self.client();
        let config = &client.config;
        if !header_value_ok(config.app_key.as_str().as_bytes()) {
            return Err(HttpClientError::InvalidApiKey);
        }
        if !header_value_ok(config.access_token.as_str().as_bytes()) {
            return Err(HttpClientError::InvalidAccessToken);
        }
        let body = match encoded {
            Some(Err(message)) => {
                return Err(HttpClientError::SerializeRequestBody(message));
            },
            Some(Ok(bytes)) => Some(bytes),
            None => None,
        };
        let query = if self.query_ref().is_some() {
            query
        } else {
            None
        };
        let url = match build_target_url(base_url, self.path(), query) {
            Some(url) => url,
            None => {
                return Ok(None);
            },
        };
        if !header_value_ok(timestamp.as_bytes()) {
            return Ok(None);
        }
        let defaults = header_list(&client.default_headers);
        let own = header_list(self.headers());
        let mut fixed: Vec<Header> = Vec::new();
        fixed.push(Header { name: String::from_str("user-agent"), value: USER_AGENT.as_bytes_vec() });
        fixed.push(
            Header {
                name: String::from_str("x-api-key"),
                value: config.app_key.as_str().as_bytes_vec(),
            },
        );
        fixed.push(
            Header {
                name: String::from_str("authorization"),
                value: config.access_token.as_str().as_bytes_vec(),
            },
        );
        fixed.push(Header { name: String::from_str("x-timestamp"), value: timestamp.as_bytes_vec() });
        fixed.push(
            Header { name: String::from_str("content-type"), value: CONTENT_TYPE.as_bytes_vec() },
        );
        assert(header_seq(fixed@) == fixed_headers(
            config.app_key@,
            config.access_token@,
            timestamp@,
        ));
        let merged = overlay(&defaults, &own);
        let headers = overlay(&merged, &fixed);
        let request = UnsignedRequest {
            signing: SigningInput {
                method: self.method().clone(),
                url,
                body,
                app_key: config.app_key.clone(),
                access_token: config.access_token.clone(),
                app_secret: config.app_secret.clone(),
                timestamp: String::from_str(timestamp),
            },
            headers,
        };
        assert forall|name: Seq<char>| #[trigger]
            values_of(header_seq(request.headers@), name) == transmitted_values(
                self@,
                timestamp@,
                name,
            ) by {
            assert(values_of(header_seq(merged@), name) == overlaid(
                values_of(header_seq(defaults@), name),
                values_of(header_seq(own@), name),
            ));
        }
        Ok(Some(request))
    }

    /// Prepares the request of one attempt: encodes the body, if there is
    /// one, and goes on as `prepare_encoded` does with the outcome.
    pub fn prepare(&self, timestamp: &str, base_url: &str, query: Option<&str>) -> (r: Result<
        Option<UnsignedRequest>,
        HttpClientError,
    >)
        ensures
            match self@.body {
                None => prepare_outcome(self@, timestamp@, base_url@, query.deep_view(), None, r),
                Some(body) => exists|encoded: Result<Seq<u8>, Seq<char>>|
                    body.encodes_as(encoded) && #[trigger] prepare_outcome(
                        self@,
                        timestamp@,
                        base_url@,
                        query.deep_view(),
                        Some(encoded),
                        r,
                    ),
            },
    {
        match self.body_ref() {
            None => self.prepare_encoded(timestamp, base_url, query, None),
            Some(body) => {
                let encoded = body.to_bytes();
                let ghost outcome = encoded_view(encoded);
                let r = self.prepare_encoded(timestamp, base_url, query, Some(encoded));
                assert(body.encodes_as(outcome) && prepare_outcome(
                    self@,
                    timestamp@,
                    base_url@,
                    query.deep_view(),
                    Some(outcome),
                    r,
                ));
                r
            },
        }
    }

    /// Judges an exchange and decodes the payload of a success into the
    /// response type of the request.
    pub fn conclude(&self, exchange: Exchange) -> (r: HttpClientResult<R>)
        ensures
            is_concluded(exchange, result_view(r)),
    {
        conclude(exchange)
    }
}

/// The timestamp of an attempt: the one the request was given, where it
/// could be read as a timestamp, else the time at which the attempt is made.
pub fn attempt_timestamp(preset: Option<String>, now: String) -> (r: String)
    ensures
        r@ == match preset {
            Some(given) => given@,
            None => now@,
        },
{
    match preset {
        Some(given) => given,
        None => now,
    }
}

/// The header that presets the timestamp is well named, and filed under
/// `x-timestamp`.
pub proof fn lemma_timestamp_header_name()
    ensures
        is_header_name("X-Timestamp"@),
        canonical_name("X-Timestamp"@) == "x-timestamp"@,
{
    reveal_strlit("X-Timestamp");
    reveal_strlit("x-timestamp");
    assert(canonical_name("X-Timestamp"@) =~= "x-timestamp"@);
}

/// A timestamp that was set as a header, in visible ASCII, is the preset
/// timestamp of the request.
pub proof fn lemma_preset_timestamp_is_read_back(
    entries: Map<Seq<char>, Seq<Seq<u8>>>,
    value: Seq<u8>,
)
    requires
        is_visible_value(value),
    ensures
        text_in(with_header(entries, true, "X-Timestamp"@, value), "X-Timestamp"@) == Some(
            ascii_text(value),
        ),
{
    lemma_timestamp_header_name();
    assert(is_header_value(value)) by {
        assert forall|i: int| 0 <= i < value.len() implies is_value_byte(#[trigger] value[i]) by {
            assert(is_visible_byte(value[i]));
        }
    }
}

/// The headers that the protocol fixes are transmitted with their fixed
/// values alone, whatever the request and the client's defaults hold under
/// the same names.
pub proof fn lemma_fixed_headers_override<T, Q>(pending: PendingRequest<T, Q>, timestamp: Seq<char>)
    ensures
        transmitted_values(pending, timestamp, "user-agent"@) == seq![encode_utf8(USER_AGENT@)],
        transmitted_values(pending, timestamp, "x-api-key"@) == seq![
            encode_utf8(pending.client.config.app_key@),
        ],
        transmitted_values(pending, timestamp, "authorization"@) == seq![
            encode_utf8(pending.client.config.access_token@),
        ],
        transmitted_values(pending, timestamp, "x-timestamp"@) == seq![encode_utf8(timestamp)],
        transmitted_values(pending, timestamp, "content-type"@) == seq![
            encode_utf8(CONTENT_TYPE@),
        ],
{
    reveal_strlit("user-agent");
    reveal_strlit("x-api-key");
    reveal_strlit("authorization");
    reveal_strlit("x-timestamp");
    reveal_strlit("content-type");
    let fixed = fixed_headers(
        pending.client.config.app_key@,
        pending.client.config.access_token@,
        timestamp,
    );
    assert(fixed.len() == 5);
    assert(fixed[0].0.len() == 10 && fixed[1].0.len() == 9 && fixed[2].0.len() == 13
        && fixed[3].0.len() == 11 && fixed[4].0.len() == 12);
    lemma_values_of_single(fixed, 0, "user-agent"@);
    lemma_values_of_single(fixed, 1, "x-api-key"@);
    lemma_values_of_single(fixed, 2, "authorization"@);
    lemma_values_of_single(fixed, 3, "x-timestamp"@);
    lemma_values_of_single(fixed, 4, "content-type"@);
}

/// The values that a signed request transmits under `name`: those of the
/// unsigned request, but for the signature header, which holds the signature alone.
pub open spec fn signed_values<T, Q>(
    pending: PendingRequest<T, Q>,
    timestamp: Seq<char>,
    signature: Seq<char>,
    name: Seq<char>,
) -> Seq<Seq<u8>> {
    overlaid(
        transmitted_values(pending, timestamp, name),
        values_of(signature_header(signature), name),
    )
}

/// A signed request carries each protocol header once, with the value of
/// this attempt: user agent, API key, access token, timestamp, content type
/// and signature. Nothing that the request or the client's defaults hold
/// under these names is transmitted.
pub proof fn lemma_protocol_headers_always_present<T, Q>(
    pending: PendingRequest<T, Q>,
    timestamp: Seq<char>,
    signature: Seq<char>,
)
    ensures
        signed_values(pending, timestamp, signature, "user-agent"@) == seq![
            encode_utf8(USER_AGENT@),
        ],
        signed_values(pending, timestamp, signature, "x-api-key"@) == seq![
            encode_utf8(pending.client.config.app_key@),
        ],
        signed_values(pending, timestamp, signature, "authorization"@) == seq![
            encode_utf8(pending.client.config.access_token@),
        ],
        signed_values(pending, timestamp, signature, "x-timestamp"@) == seq![
            encode_utf8(timestamp),
        ],
        signed_values(pending, timestamp, signature, "content-type"@) == seq![
            encode_utf8(CONTENT_TYPE@),
        ],
        signed_values(pending, timestamp, signature, "x-api-signature"@) == seq![
            encode_utf8(signature),
        ],
{
    lemma_fixed_headers_override(pending, timestamp);
    reveal_strlit("user-agent");
    reveal_strlit("x-api-key");
    reveal_strlit("authorization");
    reveal_strlit("x-timestamp");
    reveal_strlit("content-type");
    reveal_strlit("x-api-signature");
    let header = signature_header(signature);
    assert(header[0].0.len() == 15);
    lemma_values_of_single(header, 0, "x-api-signature"@);
    lemma_values_of_occurs(header, "user-agent"@);
    lemma_values_of_occurs(header, "x-api-key"@);
    lemma_values_of_occurs(header, "authorization"@);
    lemma_values_of_occurs(header, "x-timestamp"@);
    lemma_values_of_occurs(header, "content-type"@);
}

/// A header that the protocol does not fix is transmitted as the request
/// set it, else as the client's defaults have it.
pub proof fn lemma_other_headers_pass<T, Q>(
    pending: PendingRequest<T, Q>,
    timestamp: Seq<char>,
    name: Seq<char>,
)
    requires
        name != "user-agent"@,
        name != "x-api-key"@,
        name != "authorization"@,
        name != "x-timestamp"@,
        name != "content-type"@,
    ensures
        transmitted_values(pending, timestamp, name) == overlaid(
            values_in(header_entries(pending.client.default_headers), name),
            values_in(header_entries(pending.headers), name),
        ),
{
    let fixed = fixed_headers(
        pending.client.config.app_key@,
        pending.client.config.access_token@,
        timestamp,
    );
    lemma_values_of_occurs(fixed, name);
}

} // verus!
