//! Judging what the transport brought back: the outcome of an exchange, the
//! envelope of a response, and the payload of a success.

use crate::codec::parsed_view;
use crate::codec::FromPayload;
use crate::envelope::envelope_of;
use crate::envelope::parse_envelope;
use crate::envelope::Envelope;
use crate::envelope::EnvelopeModel;
use crate::error::result_view;
use crate::error::ErrorModel;
use crate::error::HttpClientError;
use crate::error::HttpClientResult;
use crate::error::STATUS_OK;
use crate::error::TOO_MANY_REQUESTS;
use crate::headers::canonical_name;
use crate::retry::first_delays;
use crate::retry::lemma_other_error_halts;
use crate::retry::lemma_six_rate_limits_exhaust_retries;
use crate::retry::lemma_success_stops_retrying;
use crate::retry::rate_limited;
use crate::retry::run;
use crate::retry::RETRY_COUNT;
use crate::headers::header_entries;
use crate::headers::is_header_name;
use crate::headers::header_text;
use crate::headers::text_in;
use reqwest::header::HeaderMap;
use reqwest::header::HeaderValue;
use vstd::prelude::*;
use vstd::utf8::encode_utf8;

verus! {

/// What became of a request that was handed to the transport.
#[derive(Debug)]
pub enum Exchange {
    /// The exchange did not finish within its time limit.
    TimedOut,
    /// The transport failed, and reported this.
    TransportFailed(String),
    /// A response arrived.
    Responded { status: u16, headers: HeaderMap<HeaderValue>, body: String },
}

/// What judging a response comes to before its payload is decoded: the raw
/// payload of a success, or the error. An envelope decides by its code,
/// whatever the HTTP status; a body that is no envelope is a deserialize
/// error under status 200 and a bad status under any other.
pub open spec fn classified(
    status: u16,
    trace_id: Seq<char>,
    parsed: Result<EnvelopeModel, Seq<char>>,
) -> Result<Seq<char>, ErrorModel> {
    match parsed {
        Ok(envelope) => if envelope.code == 0 {
            match envelope.data {
                Some(payload) => Ok(payload),
                None => Err(ErrorModel::UnexpectedResponse),
            }
        } else {
            Err(
                ErrorModel::OpenApi {
                    code: envelope.code,
                    message: envelope.message,
                    trace_id,
                },
            )
        },
        Err(message) => if status == STATUS_OK {
            Err(ErrorModel::DeserializeResponseBody(message))
        } else {
            Err(ErrorModel::BadStatus(status))
        },
    }
}

/// The trace id of a response: the text of its `x-trace-id` header, empty
/// where there is none to read.
pub open spec fn trace_id_in(entries: Map<Seq<char>, Seq<Seq<u8>>>) -> Seq<char> {
    match text_in(entries, "x-trace-id"@) {
        Some(text) => text,
        None => Seq::empty(),
    }
}

/// The header that carries the trace id is well named, and filed under its
/// own name.
pub proof fn lemma_trace_id_header_name()
    ensures
        is_header_name("x-trace-id"@),
        canonical_name("x-trace-id"@) == "x-trace-id"@,
{
    reveal_strlit("x-trace-id");
    assert(canonical_name("x-trace-id"@) =~= "x-trace-id"@);
}

/// What an exchange comes to before a payload is decoded.
pub open spec fn outcome_of(exchange: Exchange) -> Result<Seq<char>, ErrorModel> {
    match exchange {
        Exchange::TimedOut => Err(ErrorModel::RequestTimeout),
        Exchange::TransportFailed(message) => Err(ErrorModel::Http(message@)),
        Exchange::Responded { status, headers, body } => classified(
            status,
            trace_id_in(header_entries(headers)),
            envelope_of(body@),
        ),
    }
}

/// What the outcome of decoding a payload comes to.
pub open spec fn decoded_view<R>(parsed: Result<R, Seq<char>>) -> Result<R, ErrorModel> {
    match parsed {
        Ok(value) => Ok(value),
        Err(message) => Err(ErrorModel::DeserializeResponseBody(message)),
    }
}

/// The raw payload or the error, as a value of the specification.
pub open spec fn payload_view(r: HttpClientResult<String>) -> Result<Seq<char>, ErrorModel> {
    match r {
        Ok(payload) => Ok(payload@),
        Err(err) => Err(err@),
    }
}

/// The outcome of reading an envelope, as a value of the specification.
pub open spec fn envelope_view(parsed: Result<Envelope, String>) -> Result<EnvelopeModel, Seq<char>> {
    match parsed {
        Ok(envelope) => Ok(envelope@),
        Err(message) => Err(message@),
    }
}

/// Judges a response by its status, its trace id and what reading its body
/// as an envelope gave.
pub fn classify_envelope(status: u16, trace_id: String, parsed: Result<Envelope, String>) -> (r:
    HttpClientResult<String>)
    ensures
        payload_view(r) == classified(status, trace_id@, envelope_view(parsed)),
{
    match parsed {
        Ok(envelope) => {
            if envelope.code == 0 {
                match envelope.data {
                    Some(payload) => Ok(payload),
                    None => Err(HttpClientError::UnexpectedResponse),
                }
            } else {
                Err(
                    HttpClientError::OpenApi {
                        code: envelope.code,
                        message: envelope.message,
                        trace_id,
                    },
                )
            }
        },
        Err(message) => {
            if status == STATUS_OK {
                Err(HttpClientError::DeserializeResponseBody(message))
            } else {
                Err(HttpClientError::BadStatus(status))
            }
        },
    }
}

/// Judges an exchange: the raw payload of a success, or the error.
pub fn classify(exchange: Exchange) -> (r: HttpClientResult<String>)
    ensures
        payload_view(r) == outcome_of(exchange),
{
    match exchange {
        Exchange::TimedOut => Err(HttpClientError::RequestTimeout),
        Exchange::TransportFailed(message) => Err(HttpClientError::Http(message)),
        Exchange::Responded { status, headers, body } => {
            let trace_id = match header_text(&headers, "x-trace-id") {
                Some(text) => text,
                None => String::new(),
            };
            classify_envelope(status, trace_id, parse_envelope(body.as_str()))
        },
    }
}

/// Turns the outcome of decoding a payload into the result of the send.
pub fn decoded<R>(parsed: Result<R, String>) -> (r: HttpClientResult<R>)
    ensures
        result_view(r) == decoded_view(parsed_view(parsed)),
{
    match parsed {
        Ok(value) => Ok(value),
        Err(message) => Err(HttpClientError::DeserializeResponseBody(message)),
    }
}

/// Whether `outcome` is what decoding `payload` into the response type may
/// come to: the value the codec gave, or a deserialize error with its message.
pub open spec fn is_decoded<R: FromPayload>(payload: Seq<char>, outcome: Result<R, ErrorModel>) -> bool {
    exists|parsed: Result<R, Seq<char>>| #[trigger]
        R::parses_as(encode_utf8(payload), parsed) && outcome == decoded_view(parsed)
}

/// Whether `outcome` is what an exchange may come to for the response type:
/// the error of the exchange, or what decoding its payload comes to.
pub open spec fn is_concluded<R: FromPayload>(exchange: Exchange, outcome: Result<R, ErrorModel>) -> bool {
    match outcome_of(exchange) {
        Err(err) => outcome == Err::<R, ErrorModel>(err),
        Ok(payload) => is_decoded(payload, outcome),
    }
}

/// Decodes a raw payload into the response type.
pub fn decode_payload<R: FromPayload>(payload: &str) -> (r: HttpClientResult<R>)
    ensures
        is_decoded(payload@, result_view(r)),
{
    let parsed = R::parse_from_bytes(payload.as_bytes());
    let ghost outcome = parsed_view(parsed);
    let r = decoded(parsed);
    assert(R::parses_as(encode_utf8(payload@), outcome) && result_view(r) == decoded_view(outcome));
    r
}

/// Judges an exchange and decodes the payload of a success into the
/// response type. A payload that cannot be decoded is a deserialize error.
pub fn conclude<R: FromPayload>(exchange: Exchange) -> (r: HttpClientResult<R>)
    ensures
        is_concluded(exchange, result_view(r)),
{
    match classify(exchange) {
        Err(err) => Err(err),
        Ok(payload) => decode_payload(payload.as_str()),
    }
}

/// Whether the exchange brought a response of status 429 whose body is no
/// envelope.
pub open spec fn is_rate_limit_response(exchange: Exchange) -> bool {
    exchange matches Exchange::Responded { status, body, .. } && status == TOO_MANY_REQUESTS
        && envelope_of(body@) is Err
}

/// Six responses of status 429 in a row make exactly five retries, after
/// 100, 200, 400, 800 and 1600 milliseconds, and the send ends with the
/// rate-limit error. The responses are such as bear no envelope: one that
/// does is judged by its code and not retried.
pub proof fn lemma_six_429_responses_exhaust_retries<R: FromPayload>(
    exchanges: Seq<Exchange>,
    outcomes: Seq<Result<R, ErrorModel>>,
)
    requires
        exchanges.len() >= 6,
        outcomes.len() == exchanges.len(),
        forall|i: int| 0 <= i < 6 ==> is_rate_limit_response(#[trigger] exchanges[i]),
        forall|i: int|
            0 <= i < exchanges.len() ==> is_concluded(exchanges[i], #[trigger] outcomes[i]),
    ensures
        run(0, outcomes).delays == seq![100nat, 200, 400, 800, 1600],
        run(0, outcomes).result == Some(rate_limited::<R>()),
        run(0, outcomes).attempts == 6,
{
    assert forall|i: int| 0 <= i < 6 implies outcomes[i] == rate_limited::<R>() by {
        assert(is_rate_limit_response(exchanges[i]));
        assert(is_concluded(exchanges[i], outcomes[i]));
    }
    lemma_six_rate_limits_exhaust_retries(outcomes);
}

/// A success on the second to the sixth attempt, after responses of status
/// 429 on all attempts before, ends the send with that success; the
/// retries before it waited the first delays, one each.
pub proof fn lemma_success_response_stops_retrying<R: FromPayload>(
    exchanges: Seq<Exchange>,
    outcomes: Seq<Result<R, ErrorModel>>,
    last: nat,
    value: R,
)
    requires
        last <= RETRY_COUNT,
        last < exchanges.len(),
        outcomes.len() == exchanges.len(),
        forall|i: int| 0 <= i < last ==> is_rate_limit_response(#[trigger] exchanges[i]),
        forall|i: int|
            0 <= i < exchanges.len() ==> is_concluded(exchanges[i], #[trigger] outcomes[i]),
        outcomes[last as int] == Ok::<R, ErrorModel>(value),
    ensures
        run(0, outcomes).result == Some(Ok::<R, ErrorModel>(value)),
        run(0, outcomes).attempts == last + 1,
        run(0, outcomes).delays == first_delays(last),
{
    assert forall|i: int| 0 <= i < last implies outcomes[i] == rate_limited::<R>() by {
        assert(is_rate_limit_response(exchanges[i]));
        assert(is_concluded(exchanges[i], outcomes[i]));
    }
    lemma_success_stops_retrying(last, value, outcomes);
}

/// A send ends with the first exchange that comes to an error other than
/// the rate limit: a timeout, a failure of the transport, a domain error, a
/// deserialize error, any other bad status. No attempt follows it.
pub proof fn lemma_first_other_error_ends_the_send<R: FromPayload>(
    exchanges: Seq<Exchange>,
    outcomes: Seq<Result<R, ErrorModel>>,
    last: nat,
    err: ErrorModel,
)
    requires
        last <= RETRY_COUNT,
        last < exchanges.len(),
        outcomes.len() == exchanges.len(),
        forall|i: int| 0 <= i < last ==> is_rate_limit_response(#[trigger] exchanges[i]),
        forall|i: int|
            0 <= i < exchanges.len() ==> is_concluded(exchanges[i], #[trigger] outcomes[i]),
        outcome_of(exchanges[last as int]) == Err::<Seq<char>, ErrorModel>(err),
        !err.is_rate_limited(),
    ensures
        run(0, outcomes).result == Some(Err::<R, ErrorModel>(err)),
        run(0, outcomes).attempts == last + 1,
        run(0, outcomes).delays == first_delays(last),
{
    assert forall|i: int| 0 <= i < last implies outcomes[i] == rate_limited::<R>() by {
        assert(is_rate_limit_response(exchanges[i]));
        assert(is_concluded(exchanges[i], outcomes[i]));
    }
    assert(is_concluded(exchanges[last as int], outcomes[last as int]));
    lemma_other_error_halts(last, err, outcomes);
}

/// A success envelope with a payload comes to that payload, whatever the
/// HTTP status; decoding it gives the decoded value or a deserialize error.
pub proof fn lemma_success_payload_is_decoded<R>(
    status: u16,
    trace_id: Seq<char>,
    message: Seq<char>,
    payload: Seq<char>,
    parsed: Result<R, Seq<char>>,
)
    ensures
        classified(status, trace_id, Ok(EnvelopeModel { code: 0, message, data: Some(payload) }))
            == Ok::<Seq<char>, ErrorModel>(payload),
        parsed matches Ok(value) ==> decoded_view(parsed) == Ok::<R, ErrorModel>(value),
        parsed matches Err(reason) ==> decoded_view(parsed) == Err::<R, ErrorModel>(
            ErrorModel::DeserializeResponseBody(reason),
        ),
{
}

/// A success envelope without a payload is an unexpected response,
/// whatever the HTTP status and the type the response is decoded into.
pub proof fn lemma_success_without_payload_is_unexpected(
    status: u16,
    trace_id: Seq<char>,
    message: Seq<char>,
)
    ensures
        classified(status, trace_id, Ok(EnvelopeModel { code: 0, message, data: None })) == Err::<
            Seq<char>,
            ErrorModel,
        >(ErrorModel::UnexpectedResponse),
{
}

/// An envelope with a code other than zero is a domain error that carries
/// the code, the message and the trace id, whatever the HTTP status.
pub proof fn lemma_refusal_is_domain_error(status: u16, trace_id: Seq<char>, envelope: EnvelopeModel)
    requires
        envelope.code != 0,
    ensures
        classified(status, trace_id, Ok(envelope)) == Err::<Seq<char>, ErrorModel>(
            ErrorModel::OpenApi { code: envelope.code, message: envelope.message, trace_id },
        ),
{
}

/// Whatever a response holds, judging it gives a payload or one of four
/// errors: unexpected response, domain error, deserialize error, bad status.
pub proof fn lemma_response_outcomes(
    status: u16,
    trace_id: Seq<char>,
    parsed: Result<EnvelopeModel, Seq<char>>,
)
    ensures
        match classified(status, trace_id, parsed) {
            Ok(_) => true,
            Err(ErrorModel::UnexpectedResponse) => true,
            Err(ErrorModel::OpenApi { .. }) => true,
            Err(ErrorModel::DeserializeResponseBody(_)) => status == STATUS_OK,
            Err(ErrorModel::BadStatus(bad)) => bad == status && status != STATUS_OK,
            Err(_) => false,
        },
{
}

/// A response of status 429 whose body is no envelope is the rate-limit
/// error, the one outcome that is retried.
pub proof fn lemma_status_429_is_rate_limited(headers: HeaderMap<HeaderValue>, body: String)
    requires
        envelope_of(body@) is Err,
    ensures
        outcome_of(Exchange::Responded { status: TOO_MANY_REQUESTS, headers, body }) == Err::<
            Seq<char>,
            ErrorModel,
        >(ErrorModel::BadStatus(TOO_MANY_REQUESTS)),
        ErrorModel::BadStatus(TOO_MANY_REQUESTS).is_rate_limited(),
{
}

/// A timeout and a failure of the transport are errors of their own,
/// whatever status a response might have had; neither is retried.
pub proof fn lemma_no_response_is_not_retried(message: String)
    ensures
        outcome_of(Exchange::TimedOut) == Err::<Seq<char>, ErrorModel>(ErrorModel::RequestTimeout),
        outcome_of(Exchange::TransportFailed(message)) == Err::<Seq<char>, ErrorModel>(
            ErrorModel::Http(message@),
        ),
        !ErrorModel::RequestTimeout.is_rate_limited(),
        !ErrorModel::Http(message@).is_rate_limited(),
{
}

} // verus!
