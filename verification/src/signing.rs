//! The request of one attempt as it is signed and transmitted.

use crate::headers::header_seq;
use crate::headers::header_value_ok;
use crate::headers::is_header_value;
use crate::headers::overlaid;
use crate::headers::overlay;
use crate::headers::values_of;
use crate::headers::Header;
use reqwest::Method;
use vstd::prelude::*;
use vstd::string::StrSliceExecFns;
use vstd::string::StringExecFns;
use vstd::utf8::encode_utf8;

verus! {

/// The value of the `User-Agent` header.
pub const USER_AGENT: &'static str = "openapi-sdk";

/// The value of the `Content-Type` header.
pub const CONTENT_TYPE: &'static str = "application/json; charset=utf-8";

/// The seconds that one attempt may take, connecting and reading together.
pub const REQUEST_TIMEOUT_SECS: u64 = 30;

/// What a signature is computed over.
#[derive(Debug, Clone, PartialEq, Eq)]
pub struct SigningInput {
    pub method: Method,
    /// The address in full, query string included.
    pub url: String,
    /// The bytes of the body, if the request has one.
    pub body: Option<Vec<u8>>,
    pub app_key: String,
    pub access_token: String,
    pub app_secret: String,
    pub timestamp: String,
}

/// A request that is complete but for its signature.
#[derive(Debug, Clone, PartialEq, Eq)]
pub struct UnsignedRequest {
    pub signing: SigningInput,
    /// The headers to transmit, the signature not among them.
    pub headers: Vec<Header>,
}

/// A request as it is handed to the transport.
#[derive(Debug, Clone, PartialEq, Eq)]
pub struct SignedRequest {
    pub method: Method,
    pub url: String,
    pub headers: Vec<Header>,
    pub body: Option<Vec<u8>>,
    /// The seconds that the whole exchange may take.
    pub timeout_secs: u64,
}

/// The bytes of a body as a value of the specification.
pub open spec fn bytes_view(body: Option<Vec<u8>>) -> Option<Seq<u8>> {
    match body {
        Some(bytes) => Some(bytes@),
        None => None,
    }
}

/// The headers that the protocol fixes, with the values they have in a
/// request of the given credentials and timestamp.
pub open spec fn fixed_headers(app_key: Seq<char>, access_token: Seq<char>, timestamp: Seq<char>) -> Seq<
    (Seq<char>, Seq<u8>),
> {
    seq![
        ("user-agent"@, encode_utf8(USER_AGENT@)),
        ("x-api-key"@, encode_utf8(app_key)),
        ("authorization"@, encode_utf8(access_token)),
        ("x-timestamp"@, encode_utf8(timestamp)),
        ("content-type"@, encode_utf8(CONTENT_TYPE@)),
    ]
}

/// The header that carries the signature.
pub open spec fn signature_header(signature: Seq<char>) -> Seq<(Seq<char>, Seq<u8>)> {
    seq![("x-api-signature"@, encode_utf8(signature))]
}

impl UnsignedRequest {
    /// Attaches the signature. A signature that is no legal header value
    /// leaves no request to send.
    pub fn sign(self, signature: &str) -> (r: Option<SignedRequest>)
        ensures
            match r {
                None => !is_header_value(encode_utf8(signature@)),
                Some(request) => {
                    &&& is_header_value(encode_utf8(signature@))
                    &&& request.method == self.signing.method
                    &&& request.url@ == self.signing.url@
                    &&& bytes_view(request.body) == bytes_view(self.signing.body)
                    &&& request.timeout_secs == REQUEST_TIMEOUT_SECS
                    &&& forall|name: Seq<char>| #[trigger]
                        values_of(header_seq(request.headers@), name) == overlaid(
                            values_of(header_seq(self.headers@), name),
                            values_of(signature_header(signature@), name),
                        )
                },
            },
    {
        if !header_value_ok(signature.as_bytes()) {
            return None;
        }
        let mut over: Vec<Header> = Vec::new();
        over.push(
            Header { name: String::from_str("x-api-signature"), value: signature.as_bytes_vec() },
        );
        assert(header_seq(over@) == signature_header(signature@));
        let headers = overlay(&self.headers, &over);
        Some(
            SignedRequest {
                method: self.signing.method,
                url: self.signing.url,
                headers,
                body: self.signing.body,
                timeout_secs: REQUEST_TIMEOUT_SECS,
            },
        )
    }
}

} // verus!
