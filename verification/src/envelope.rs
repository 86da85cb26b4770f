//! The response envelope `{code, message, data}` that the gateway wraps every
//! answer in. JSON itself is read by `serde_json`; which members make an
//! envelope is decided here.

use serde_json::value::RawValue;
use std::collections::BTreeMap;
use vstd::prelude::*;
use vstd::string::StringExecFns;

verus! {

/// The members of the JSON object that a text holds, each with the raw text
/// of its value, or what `serde_json` reports of a text that holds none.
pub uninterp spec fn json_members(text: Seq<char>) -> Result<Seq<(Seq<char>, Seq<char>)>, Seq<char>>;

/// The 32-bit integer that a JSON text holds, or what `serde_json` reports.
pub uninterp spec fn json_i32(text: Seq<char>) -> Result<i32, Seq<char>>;

/// The string that a JSON text holds, or what `serde_json` reports.
pub uninterp spec fn json_string(text: Seq<char>) -> Result<Seq<char>, Seq<char>>;

/// `serde_json::from_str` into a map from member names to raw values.
#[verifier::external_body]
fn read_json_members(text: &str) -> (r: Result<Vec<(String, String)>, String>)
    ensures
        match r {
            Ok(members) => json_members(text@) == Ok::<_, Seq<char>>(members.deep_view()),
            Err(message) => json_members(text@) == Err::<Seq<(Seq<char>, Seq<char>)>, _>(message@),
        },
{
    match serde_json::from_str::<BTreeMap<String, Box<RawValue>>>(text) {
        Ok(map) => Ok(map.into_iter().map(|(name, raw)| (name, raw.get().to_string())).collect()),
        Err(err) => Err(err.to_string()),
    }
}

/// `serde_json::from_str` into an `i32`.
#[verifier::external_body]
fn read_json_i32(text: &str) -> (r: Result<i32, String>)
    ensures
        match r {
            Ok(value) => json_i32(text@) == Ok::<_, Seq<char>>(value),
            Err(message) => json_i32(text@) == Err::<i32, _>(message@),
        },
{
    match serde_json::from_str::<i32>(text) {
        Ok(value) => Ok(value),
        Err(err) => Err(err.to_string()),
    }
}

/// `serde_json::from_str` into a `String`.
#[verifier::external_body]
fn read_json_string(text: &str) -> (r: Result<String, String>)
    ensures
        match r {
            Ok(value) => json_string(text@) == Ok::<_, Seq<char>>(value@),
            Err(message) => json_string(text@) == Err::<Seq<char>, _>(message@),
        },
{
    match serde_json::from_str::<String>(text) {
        Ok(value) => Ok(value),
        Err(err) => Err(err.to_string()),
    }
}

/// The envelope of a response.
#[derive(Debug, Clone, PartialEq, Eq)]
pub struct Envelope {
    /// Zero for success, anything else for a refusal of the remote service.
    pub code: i32,
    /// What the remote service says of the outcome; empty if it says nothing.
    pub message: String,
    /// The raw JSON text of the payload, absent where the member is missing or null.
    pub data: Option<String>,
}

/// An envelope as a value of the specification.
pub struct EnvelopeModel {
    pub code: i32,
    pub message: Seq<char>,
    pub data: Option<Seq<char>>,
}

impl View for Envelope {
    type V = EnvelopeModel;

    open spec fn view(&self) -> EnvelopeModel {
        EnvelopeModel { code: self.code, message: self.message@, data: self.data.deep_view() }
    }
}

/// The raw text of the first member called `name`.
pub open spec fn member_text(members: Seq<(Seq<char>, Seq<char>)>, name: Seq<char>) -> Option<
    Seq<char>,
>
    decreases members.len(),
{
    if members.len() == 0 {
        None
    } else if members[0].0 == name {
        Some(members[0].1)
    } else {
        member_text(members.drop_first(), name)
    }
}

/// What is reported of an object without the member `code`.
pub open spec fn missing_code_message() -> Seq<char> {
    "missing field `code`"@
}

/// The payload that the member `data` stands for: none where it is missing or null.
pub open spec fn payload_of(data: Option<Seq<char>>) -> Option<Seq<char>> {
    match data {
        Some(raw) if raw != "null"@ => Some(raw),
        _ => None,
    }
}

/// The envelope that a response body holds: a JSON object with an integer
/// `code`, optionally a string `message` and optionally a payload `data`.
/// A body that is no such object gives the message of what is wrong with it.
pub open spec fn envelope_of(text: Seq<char>) -> Result<EnvelopeModel, Seq<char>> {
    match json_members(text) {
        Err(message) => Err(message),
        Ok(members) => match member_text(members, "code"@) {
            None => Err(missing_code_message()),
            Some(raw_code) => match json_i32(raw_code) {
                Err(message) => Err(message),
                Ok(code) => match member_text(members, "message"@) {
                    None => Ok(
                        EnvelopeModel {
                            code,
                            message: Seq::empty(),
                            data: payload_of(member_text(members, "data"@)),
                        },
                    ),
                    Some(raw_message) => match json_string(raw_message) {
                        Err(message) => Err(message),
                        Ok(message) => Ok(
                            EnvelopeModel {
                                code,
                                message,
                                data: payload_of(member_text(members, "data"@)),
                            },
                        ),
                    },
                },
            },
        },
    }
}

/// Finds the raw text of the first member called `name`.
fn find_member(members: &Vec<(String, String)>, name: &str) -> (r: Option<String>)
    ensures
        r.deep_view() == member_text(members.deep_view(), name@),
{
    let wanted = String::from_str(name);
    let mut i: usize = 0;
    assert(members.deep_view().subrange(0, members.len() as int) == members.deep_view());
    while i < members.len()
        invariant
            i <= members.len(),
            wanted@ == name@,
            member_text(members.deep_view(), name@) == member_text(
                members.deep_view().subrange(i as int, members.len() as int),
                name@,
            ),
        decreases members.len() - i,
    {
        let ghost rest = members.deep_view().subrange(i as int, members.len() as int);
        assert(rest[0] == members.deep_view()[i as int]);
        assert(rest.drop_first() == members.deep_view().subrange(i + 1, members.len() as int));
        if members[i].0 == wanted {
            return Some(members[i].1.clone());
        }
        i += 1;
    }
    None
}

/// Reads the envelope out of a response body.
pub fn parse_envelope(text: &str) -> (r: Result<Envelope, String>)
    ensures
        match r {
            Ok(envelope) => envelope_of(text@) == Ok::<_, Seq<char>>(envelope@),
            Err(message) => envelope_of(text@) == Err::<EnvelopeModel, _>(message@),
        },
{
    let members = match read_json_members(text) {
        Ok(members) => members,
        Err(message) => return Err(message),
    };
    let code = match find_member(&members, "code") {
        None => return Err(String::from_str("missing field `code`")),
        Some(raw) => match read_json_i32(raw.as_str()) {
            Ok(code) => code,
            Err(message) => return Err(message),
        },
    };
    let message = match find_member(&members, "message") {
        None => String::new(),
        Some(raw) => match read_json_string(raw.as_str()) {
            Ok(message) => message,
            Err(message) => return Err(message),
        },
    };
    let data = match find_member(&members, "data") {
        Some(raw) => {
            if raw == String::from_str("null") {
                None
            } else {
                Some(raw)
            }
        },
        None => None,
    };
    Ok(Envelope { code, message, data })
}

} // verus!
