//! JSON bodies of requests. `serde_json` writes the strings; the objects
//! around them are put together here.

use vstd::pervasive::unreached;
use vstd::prelude::*;
use vstd::string::*;

verus! {

/// The error of `serde_json`.
#[verifier::external_type_specification]
#[verifier::external_body]
pub struct ExJsonError(serde_json::Error);

/// The digit, in small letters, that one hexadecimal place is written as.
pub open spec fn hex_digit(place: int) -> char {
    if place < 10 {
        (('0' as u8) + place) as char
    } else {
        (('a' as u8) + place - 10) as char
    }
}

/// What one character is written as inside a JSON string: the quote, the
/// backslash and the control characters below the space as their escapes,
/// any other character as itself.
pub open spec fn json_char(c: char) -> Seq<char> {
    if c == '"' {
        seq!['\\', '"']
    } else if c == '\\' {
        seq!['\\', '\\']
    } else if c == '\u{8}' {
        seq!['\\', 'b']
    } else if c == '\t' {
        seq!['\\', 't']
    } else if c == '\n' {
        seq!['\\', 'n']
    } else if c == '\u{c}' {
        seq!['\\', 'f']
    } else if c == '\r' {
        seq!['\\', 'r']
    } else if (c as int) < 0x20 {
        seq!['\\', 'u', '0', '0', hex_digit((c as int) / 16), hex_digit((c as int) % 16)]
    } else {
        seq![c]
    }
}

/// What a text is written as inside a JSON string: one character after the
/// other.
pub open spec fn json_escaped(text: Seq<char>) -> Seq<char>
    decreases text.len(),
{
    if text.len() == 0 {
        Seq::empty()
    } else {
        json_escaped(text.drop_last()) + json_char(text.last())
    }
}

/// The JSON string for a text: the text with its escapes, between quotes.
pub open spec fn json_string(text: Seq<char>) -> Seq<char> {
    seq!['"'] + json_escaped(text) + seq!['"']
}

/// Calls `serde_json::to_string` on a text. For a text the call cannot
/// fail: it writes into a byte vector, and only an error of the writer is
/// handed on. It writes a quote, each character as itself or as one of the
/// escapes of its table, and a quote.
#[verifier::external_body]
fn to_json_string(text: &str) -> (r: Result<String, serde_json::Error>)
    ensures
        r is Ok,
        r.unwrap()@ == json_string(text@),
{
    serde_json::to_string(text)
}

/// The JSON object with the one field `number`, given the JSON string for
/// its value.
pub open spec fn number_object(value: Seq<char>) -> Seq<char> {
    "{\"number\":"@ + value + "}"@
}

/// Writes the JSON object with the one field `number` around the JSON string
/// for its value.
pub fn number_object_around(value: &str) -> (body: String)
    ensures
        body@ == number_object(value@),
{
    String::from_str("{\"number\":").concat(value).concat("}")
}

/// Writes the body of a purchase: a JSON object with exactly one field,
/// `number`, whose value is the given phone number as a JSON string.
pub fn purchase_body(number: &str) -> (body: String)
    ensures
        body@ == number_object(json_string(number@)),
{
    match to_json_string(number) {
        Ok(value) => number_object_around(value.as_str()),
        Err(_) => unreached(),
    }
}

} // verus!
