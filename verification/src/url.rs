//! The address a request is sent to: base URL, path and query string, brought
//! into the form in which they are signed and transmitted.

use reqwest::Url;
use vstd::prelude::*;
use vstd::string::StringExecFns;
use vstd::utf8::encode_utf8;

verus! {

/// The longest address, and the longest query string, that a query is attached to.
pub const MAX_URL_BYTES: usize = 0x0100_0000;

/// The normal form `Url::parse` gives an address, if it accepts it.
pub uninterp spec fn parsed_url(raw: Seq<char>) -> Option<Seq<char>>;

/// The address `url` with its query replaced through `Url::set_query`.
pub uninterp spec fn url_with_query(url: Seq<char>, query: Seq<char>) -> Option<Seq<char>>;

/// `Url::parse`, with the address it accepted written out again.
#[verifier::external_body]
fn parse_url(raw: &str) -> (r: Option<String>)
    ensures
        r.deep_view() == parsed_url(raw@),
{
    match Url::parse(raw) {
        Ok(url) => Some(url.into()),
        Err(_) => None,
    }
}

/// `Url::set_query` on an address read back by `Url::parse`, written out
/// again. The bounds keep the address far within the 32 bits in which the
/// outside crate counts its bytes.
#[verifier::external_body]
fn set_url_query(url: &str, query: &str) -> (r: Option<String>)
    requires
        byte_len(url@) <= MAX_URL_BYTES,
        byte_len(query@) <= MAX_URL_BYTES,
    ensures
        r.deep_view() == url_with_query(url@, query@),
{
    match Url::parse(url) {
        Ok(mut parsed) => {
            parsed.set_query(Some(query));
            Some(parsed.into())
        },
        Err(_) => None,
    }
}

/// The number of bytes that a text takes.
pub open spec fn byte_len(text: Seq<char>) -> nat {
    encode_utf8(text).len()
}

/// The address of a request: base URL and path joined and normalised, then
/// the query string attached where there is one. `None` where the address
/// is not a URL, or is too long for a query to be attached.
pub open spec fn target_url(base_url: Seq<char>, path: Seq<char>, query: Option<Seq<char>>) -> Option<
    Seq<char>,
> {
    match parsed_url(base_url + path) {
        None => None,
        Some(url) => match query {
            None => Some(url),
            Some(q) => if byte_len(url) <= MAX_URL_BYTES && byte_len(q) <= MAX_URL_BYTES {
                url_with_query(url, q)
            } else {
                None
            },
        },
    }
}

/// Builds the address of a request from the base URL, the path and the
/// encoded query string.
pub fn build_target_url(base_url: &str, path: &str, query: Option<&str>) -> (r: Option<String>)
    ensures
        r.deep_view() == target_url(base_url@, path@, query.deep_view()),
{
    let mut raw = String::from_str(base_url);
    raw.append(path);
    match parse_url(raw.as_str()) {
        None => None,
        Some(url) => match query {
            None => Some(url),
            Some(q) => {
                if url.as_str().as_bytes().len() <= MAX_URL_BYTES && q.as_bytes().len() <= MAX_URL_BYTES {
                    set_url_query(url.as_str(), q)
                } else {
                    None
                }
            },
        },
    }
}

} // verus!
