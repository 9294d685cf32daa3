//! JSON text for the values that records store as JSON: tag lists and
//! arbitrary JSON values.

use vstd::prelude::*;

verus! {

/// A JSON value, carried through the library as it is.
#[verifier::external_type_specification]
#[verifier::external_body]
pub struct ExValue(serde_json::Value);

/// A lower-case hexadecimal digit of a value below 16.
pub open spec fn hex_digit(n: int) -> char {
    if n < 10 {
        ('0' as int + n) as char
    } else {
        ('a' as int + n - 10) as char
    }
}

/// How `serde_json` writes a character inside a string: a quote and a
/// backslash behind a backslash, the control characters with a short escape
/// where JSON has one and as `\u00XX` otherwise, every other character as
/// it is.
pub open spec fn json_char(c: char) -> Seq<char> {
    if c == '"' {
        seq!['\\', '"']
    } else if c == '\\' {
        seq!['\\', '\\']
    } else if c == '\u{8}' {
        seq!['\\', 'b']
    } else if c == '\t' {
        seq!['\\', 't']
    } else if c == '\n' {
        seq!['\\', 'n']
    } else if c == '\u{c}' {
        seq!['\\', 'f']
    } else if c == '\r' {
        seq!['\\', 'r']
    } else if (c as int) < 0x20 {
        seq!['\\', 'u', '0', '0', hex_digit((c as int) / 16), hex_digit((c as int) % 16)]
    } else {
        seq![c]
    }
}

/// The characters of a string, each as `json_char` writes it.
pub open spec fn json_chars(s: Seq<char>) -> Seq<char>
    decreases s.len(),
{
    if s.len() == 0 {
        Seq::empty()
    } else {
        json_chars(s.drop_last()) + json_char(s.last())
    }
}

/// A JSON string: its characters between quotes.
pub open spec fn json_string(s: Seq<char>) -> Seq<char> {
    seq!['"'] + json_chars(s) + seq!['"']
}

/// The strings of a list as JSON strings, separated by commas.
pub open spec fn json_items(tags: Seq<Seq<char>>) -> Seq<char>
    decreases tags.len(),
{
    if tags.len() == 0 {
        Seq::empty()
    } else if tags.len() == 1 {
        json_string(tags[0])
    } else {
        json_items(tags.drop_last()) + seq![','] + json_string(tags.last())
    }
}

/// The JSON text that `serde_json::to_string` writes for a list of strings:
/// the strings between brackets, separated by commas, with no spaces.
pub open spec fn json_of_strings(tags: Seq<Seq<char>>) -> Seq<char> {
    seq!['['] + json_items(tags) + seq![']']
}

/// What `serde_json::from_str::<Vec<String>>` reads from a text: the list of
/// strings, or nothing where the text is not a JSON array of strings.
pub uninterp spec fn strings_of_json(s: Seq<char>) -> Option<Seq<Seq<char>>>;

/// Calls `serde_json::to_string` on a list of strings, which writes them
/// with the compact formatter. Serialising strings cannot fail, so the
/// default is never used.
#[verifier::external_body]
pub(crate) fn encode_strings(tags: &Vec<String>) -> (r: String)
    ensures
        r@ == json_of_strings(crate::text::views(tags@)),
{
    serde_json::to_string(tags).unwrap_or_default()
}

/// Calls `serde_json::from_str::<Vec<String>>` and drops the error. The list
/// read is named, not written out.
#[verifier::external_body]
pub(crate) fn decode_strings(s: &str) -> (r: Option<Vec<String>>)
    ensures
        match r {
            Some(v) => strings_of_json(s@) == Some(crate::text::views(v@)),
            None => strings_of_json(s@) is None,
        },
{
    serde_json::from_str::<Vec<String>>(s).ok()
}

/// The JSON text that `serde_json::to_string` writes for a JSON value.
pub uninterp spec fn value_json_text(v: serde_json::Value) -> Seq<char>;

/// Calls `serde_json::to_string` on a JSON value. Serialising a `Value` does
/// not fail (its `Serialize` impl only writes, and its map keys are strings),
/// so the result is always there; its text is named, not written out.
#[verifier::external_body]
pub(crate) fn encode_value(v: &serde_json::Value) -> (r: Option<String>)
    ensures
        r is Some,
        r->0@ == value_json_text(*v),
{
    serde_json::to_string(v).ok()
}

/// The JSON value that `serde_json::from_str` reads from a text, `Null` where
/// the text is not JSON.
pub uninterp spec fn json_value_of(s: Seq<char>) -> serde_json::Value;

/// Calls `serde_json::from_str` for a JSON value, with `Null` where the text is
/// not JSON; the contract names the value read.
#[verifier::external_body]
pub(crate) fn decode_value(s: &str) -> (r: serde_json::Value)
    ensures
        r == json_value_of(s@),
{
    serde_json::from_str(s).unwrap_or(serde_json::Value::Null)
}

} // verus!
