//! JSON documents, held as their compact serialization.

use vstd::prelude::*;

verus! {

/// Parse failure reported by `serde_json`.
#[verifier::external_type_specification]
#[verifier::external_body]
pub struct ExJsonError(serde_json::Error);

/// The compact serialization that `serde_json` produces for the document `text`,
/// or `None` when `serde_json` rejects `text`.
pub uninterp spec fn json_compact_form(text: Seq<char>) -> Option<Seq<char>>;

/// The lowercase hexadecimal digit of `n`, below sixteen.
pub open spec fn hex_digit(n: int) -> char {
    if n < 10 {
        (48 + n) as char
    } else {
        (87 + n) as char
    }
}

/// How `serde_json` writes one character inside a string literal: quote and backslash
/// escaped by a backslash, the five control characters with short escapes written so, other
/// control characters below U+0020 as `\u00` and two lowercase hex digits, and every other
/// character as itself.
pub open spec fn json_escaped_char(c: char) -> Seq<char> {
    let n = c as int;
    if c == '"' {
        seq!['\\', '"']
    } else if c == '\\' {
        seq!['\\', '\\']
    } else if n == 8 {
        seq!['\\', 'b']
    } else if n == 12 {
        seq!['\\', 'f']
    } else if c == '\n' {
        seq!['\\', 'n']
    } else if c == '\r' {
        seq!['\\', 'r']
    } else if c == '\t' {
        seq!['\\', 't']
    } else if n < 32 {
        seq!['\\', 'u', '0', '0', hex_digit(n / 16), hex_digit(n % 16)]
    } else {
        seq![c]
    }
}

/// The escaped characters of `s`, in order.
pub open spec fn json_escaped(s: Seq<char>) -> Seq<char>
    decreases s.len(),
{
    if s.len() == 0 {
        Seq::empty()
    } else {
        json_escaped(s.drop_last()) + json_escaped_char(s.last())
    }
}

/// The JSON string literal that `serde_json` writes for `s`: its escaped characters between
/// double quotes.
pub open spec fn json_string_literal(s: Seq<char>) -> Seq<char> {
    seq!['"'] + json_escaped(s) + seq!['"']
}

/// Calls `serde_json::from_str::<serde_json::Value>` on `text` and, when it
/// accepts the document, renders the value with its compact `Display`.
/// The result is `Ok` exactly when `serde_json` accepts `text`; nothing is
/// said of the rendered text beyond naming it.
#[verifier::external_body]
pub(crate) fn parse_json_document(text: &str) -> (r: Result<String, serde_json::Error>)
    ensures
        match r {
            Ok(s) => json_compact_form(text@) == Some(s@),
            Err(_) => json_compact_form(text@) is None,
        },
{
    match serde_json::from_str::<serde_json::Value>(text) {
        Ok(value) => Ok(value.to_string()),
        Err(error) => Err(error),
    }
}

/// Calls `serde_json::to_string` on a string slice, which writes `s` between double quotes
/// with each character escaped as `format_escaped_str_contents` and the compact formatter's
/// `write_char_escape` do. Serializing a `str` cannot fail.
#[verifier::external_body]
pub(crate) fn quote_json_string(s: &str) -> (r: String)
    ensures
        r@ == json_string_literal(s@),
{
    match serde_json::to_string(s) {
        Ok(text) => text,
        Err(_) => String::new(),
    }
}

} // verus!

verus! {

/// A JSON document as a tree of plain values; objects keep their members in order, each key
/// once.
#[derive(Debug)]
pub enum JsonValue {
    /// `null`.
    Null,
    /// `true` or `false`.
    Bool(bool),
    /// A number, as its JSON text.
    Number(String),
    /// A string.
    Str(String),
    /// An array.
    Array(Vec<JsonValue>),
    /// An object: its members, in order.
    Object(Vec<(String, JsonValue)>),
}

} // verus!
