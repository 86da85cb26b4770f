//! Payload codecs: how a typed value becomes the bytes of a request body, and
//! how the bytes of a response payload become a typed value.

use vstd::prelude::*;
use vstd::slice::slice_to_vec;
use vstd::string::StrSliceExecFns;
use vstd::utf8::encode_utf8;
use vstd::utf8::valid_utf8;

verus! {

/// `serde_json::Value`, a JSON document, known by `json_text`.
#[verifier::external_type_specification]
#[verifier::external_body]
pub struct ExJsonValue(serde_json::Value);

/// A JSON payload.
#[derive(Debug)]
pub struct Json<T>(pub T);

/// The outcome of encoding, as a value of the specification.
pub open spec fn encoded_view(r: Result<Vec<u8>, String>) -> Result<Seq<u8>, Seq<char>> {
    match r {
        Ok(bytes) => Ok(bytes@),
        Err(message) => Err(message@),
    }
}

/// The outcome of decoding, as a value of the specification.
pub open spec fn parsed_view<V>(r: Result<V, String>) -> Result<V, Seq<char>> {
    match r {
        Ok(value) => Ok(value),
        Err(message) => Err(message@),
    }
}

/// A type that can be parsed from a payload.
pub trait FromPayload: Sized + Send + Sync + 'static {
    /// What the codec says of its own outcomes: whether decoding `data` may
    /// give `r`. A codec that promises nothing leaves this as it is.
    open spec fn parses_as(data: Seq<u8>, r: Result<Self, Seq<char>>) -> bool {
        true
    }

    /// Parses the payload into a value; a failure carries the codec's message.
    fn parse_from_bytes(data: &[u8]) -> (r: Result<Self, String>)
        ensures
            Self::parses_as(data@, parsed_view(r)),
    ;
}

/// A type that can be converted to a payload.
pub trait ToPayload: core::fmt::Debug + Sized + Send + Sync + 'static {
    /// What the codec says of its own outcomes: whether encoding the value
    /// may give `r`. A codec that promises nothing leaves this as it is.
    open spec fn encodes_as(&self, r: Result<Seq<u8>, Seq<char>>) -> bool {
        true
    }

    /// Converts the value to a payload; a failure carries the codec's message.
    fn to_bytes(&self) -> (r: Result<Vec<u8>, String>)
        ensures
            self.encodes_as(encoded_view(r)),
    ;
}

/// What `String::from_utf8` reports of bytes that are not UTF-8.
pub uninterp spec fn utf8_error_text(bytes: Seq<u8>) -> Seq<char>;

/// `String::from_utf8`: well-formed UTF-8 becomes the string with those very
/// bytes; anything else is refused with a description.
#[verifier::external_body]
pub(crate) fn string_from_utf8(bytes: Vec<u8>) -> (r: Result<String, String>)
    ensures
        match r {
            Ok(text) => valid_utf8(bytes@) && encode_utf8(text@) == bytes@,
            Err(message) => !valid_utf8(bytes@) && message@ == utf8_error_text(bytes@),
        },
{
    match String::from_utf8(bytes) {
        Ok(text) => Ok(text),
        Err(err) => Err(err.to_string()),
    }
}

/// The compact JSON text of a document: what `serde_json::to_vec` writes
/// for it.
pub uninterp spec fn json_text(document: serde_json::Value) -> Seq<u8>;

/// The compact text of the document that `serde_json::from_slice` reads out
/// of bytes, or what it reports of bytes that hold no document.
pub uninterp spec fn json_read(data: Seq<u8>) -> Result<Seq<u8>, Seq<char>>;

/// `serde_json::from_slice` into a JSON document: which document comes out,
/// or which message, goes by the bytes alone.
#[verifier::external_body]
fn json_value_from_slice(data: &[u8]) -> (r: Result<serde_json::Value, String>)
    ensures
        match r {
            Ok(document) => json_read(data@) == Ok::<_, Seq<char>>(json_text(document)),
            Err(message) => json_read(data@) == Err::<Seq<u8>, _>(message@),
        },
{
    match serde_json::from_slice(data) {
        Ok(value) => Ok(value),
        Err(err) => Err(err.to_string()),
    }
}

/// `serde_json::to_vec` of a JSON document. It fails only where a value
/// refuses to be written or a map has a key that is no string; a document
/// does neither, so its compact text is always written.
#[verifier::external_body]
fn json_value_to_vec(value: &serde_json::Value) -> (r: Result<Vec<u8>, String>)
    ensures
        match r {
            Ok(bytes) => bytes@ == json_text(*value),
            Err(_) => false,
        },
{
    match serde_json::to_vec(value) {
        Ok(bytes) => Ok(bytes),
        Err(err) => Err(err.to_string()),
    }
}

impl FromPayload for Json<serde_json::Value> {
    /// Decoding gives the document that the bytes hold, known by its compact
    /// text, or the message of what is wrong with the bytes.
    open spec fn parses_as(data: Seq<u8>, r: Result<Self, Seq<char>>) -> bool {
        match r {
            Ok(json) => json_read(data) == Ok::<Seq<u8>, Seq<char>>(json_text(json.0)),
            Err(message) => json_read(data) == Err::<Seq<u8>, Seq<char>>(message),
        }
    }

    fn parse_from_bytes(data: &[u8]) -> (r: Result<Self, String>) {
        match json_value_from_slice(data) {
            Ok(value) => Ok(Json(value)),
            Err(message) => Err(message),
        }
    }
}

impl ToPayload for Json<serde_json::Value> {
    /// Encoding always succeeds, with the compact text of the document.
    open spec fn encodes_as(&self, r: Result<Seq<u8>, Seq<char>>) -> bool {
        r == Ok::<Seq<u8>, Seq<char>>(json_text(self.0))
    }

    fn to_bytes(&self) -> (r: Result<Vec<u8>, String>) {
        json_value_to_vec(&self.0)
    }
}

/// A document that was read out of bytes is written as the compact text of
/// what those bytes hold.
pub proof fn lemma_json_written_as_read(
    data: Seq<u8>,
    json: Json<serde_json::Value>,
    written: Result<Seq<u8>, Seq<char>>,
)
    requires
        <Json<serde_json::Value> as FromPayload>::parses_as(
            data,
            Ok::<Json<serde_json::Value>, Seq<char>>(json),
        ),
        json.encodes_as(written),
    ensures
        written == json_read(data),
{
}

impl FromPayload for String {
    /// Decoding succeeds exactly on well-formed UTF-8, with the text that
    /// those bytes encode.
    open spec fn parses_as(data: Seq<u8>, r: Result<Self, Seq<char>>) -> bool {
        match r {
            Ok(text) => valid_utf8(data) && encode_utf8(text@) == data,
            Err(message) => !valid_utf8(data) && message == utf8_error_text(data),
        }
    }

    fn parse_from_bytes(data: &[u8]) -> (r: Result<Self, String>) {
        string_from_utf8(slice_to_vec(data))
    }
}

impl ToPayload for String {
    /// Encoding always succeeds, with the UTF-8 bytes of the text.
    open spec fn encodes_as(&self, r: Result<Seq<u8>, Seq<char>>) -> bool {
        r == Ok::<Seq<u8>, Seq<char>>(encode_utf8(self@))
    }

    fn to_bytes(&self) -> (r: Result<Vec<u8>, String>) {
        Ok(self.as_str().as_bytes_vec())
    }
}

impl FromPayload for () {
    /// Decoding always succeeds, whatever the payload holds.
    open spec fn parses_as(data: Seq<u8>, r: Result<Self, Seq<char>>) -> bool {
        r is Ok
    }

    fn parse_from_bytes(_data: &[u8]) -> (r: Result<Self, String>) {
        Ok(())
    }
}

impl ToPayload for () {
    /// Encoding always succeeds, with no bytes.
    open spec fn encodes_as(&self, r: Result<Seq<u8>, Seq<char>>) -> bool {
        r == Ok::<Seq<u8>, Seq<char>>(Seq::empty())
    }

    fn to_bytes(&self) -> (r: Result<Vec<u8>, String>) {
        Ok(Vec::new())
    }
}

} // verus!
