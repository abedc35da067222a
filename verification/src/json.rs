//! The boundary to `serde_json`: the documents it parses, what can be read
//! from them, and the text it writes for a string.

use vstd::prelude::*;

verus! {

/// A parsed JSON document, as `serde_json` holds it.
#[verifier::external_type_specification]
#[verifier::external_body]
pub struct ExValue(serde_json::Value);

/// The error `serde_json` reports.
#[verifier::external_type_specification]
#[verifier::external_body]
pub struct ExJsonError(serde_json::Error);

/// The document that a text parses to, if it is JSON.
pub uninterp spec fn json_value(text: Seq<char>) -> Option<serde_json::Value>;

/// The member of an object under a key; `None` when the document is no
/// object or has no such member.
pub uninterp spec fn json_member(doc: serde_json::Value, key: Seq<char>) -> Option<serde_json::Value>;

/// The text of a document that is a string.
pub uninterp spec fn json_text(doc: serde_json::Value) -> Option<Seq<char>>;

/// Whether a document is `null`.
pub uninterp spec fn json_null(doc: serde_json::Value) -> bool;

/// `serde_json::from_str`, reading a whole text as one document.
#[verifier::external_body]
pub(crate) fn parse_value(text: &str) -> (res: Result<serde_json::Value, serde_json::Error>)
    ensures
        res matches Ok(doc) ==> json_value(text@) == Some(doc),
        res is Err ==> json_value(text@) is None,
{
    serde_json::from_str::<serde_json::Value>(text)
}

/// `serde_json::Value::get` with a string key.
#[verifier::external_body]
pub(crate) fn member<'a>(doc: &'a serde_json::Value, key: &str) -> (res: Option<&'a serde_json::Value>)
    ensures
        res matches Some(found) ==> json_member(*doc, key@) == Some(*found),
        res is None ==> json_member(*doc, key@) is None,
{
    doc.get(key)
}

/// `serde_json::Value::as_str`.
#[verifier::external_body]
pub(crate) fn text_of<'a>(doc: &'a serde_json::Value) -> (res: Option<&'a str>)
    ensures
        res matches Some(text) ==> json_text(*doc) == Some(text@),
        res is None ==> json_text(*doc) is None,
{
    doc.as_str()
}

/// `serde_json::Value::is_null`.
#[verifier::external_body]
pub(crate) fn is_null(doc: &serde_json::Value) -> (res: bool)
    ensures
        res == json_null(*doc),
{
    doc.is_null()
}

/// `serde::de::Error::custom` for `serde_json::Error`: an error that says
/// why a document, though it is JSON, is not what was expected.
#[verifier::external_body]
pub(crate) fn malformed(reason: &str) -> serde_json::Error {
    <serde_json::Error as serde::de::Error>::custom(reason)
}

/// The lower-case hexadecimal digit of a number below sixteen.
pub open spec fn hex_digit(n: int) -> char {
    seq!['0', '1', '2', '3', '4', '5', '6', '7', '8', '9', 'a', 'b', 'c', 'd', 'e', 'f'][n]
}

/// How one character stands inside a JSON string: the quote, the backslash
/// and the control characters are escaped, every other character stands for
/// itself.
pub open spec fn escaped_char(c: char) -> Seq<char> {
    if c == '"' {
        seq!['\\', '"']
    } else if c == '\\' {
        seq!['\\', '\\']
    } else if c == '\u{08}' {
        seq!['\\', 'b']
    } else if c == '\u{09}' {
        seq!['\\', 't']
    } else if c == '\u{0a}' {
        seq!['\\', 'n']
    } else if c == '\u{0c}' {
        seq!['\\', 'f']
    } else if c == '\u{0d}' {
        seq!['\\', 'r']
    } else if (c as int) < 0x20 {
        seq!['\\', 'u', '0', '0', hex_digit((c as int) / 16), hex_digit((c as int) % 16)]
    } else {
        seq![c]
    }
}

/// The characters of a text, each as it stands inside a JSON string.
pub open spec fn escaped(text: Seq<char>) -> Seq<char>
    decreases text.len(),
{
    if text.len() == 0 {
        Seq::empty()
    } else {
        escaped(text.drop_last()) + escaped_char(text.last())
    }
}

/// A text as a JSON string: its escaped characters between two quotes.
pub open spec fn json_string(text: Seq<char>) -> Seq<char> {
    seq!['"'] + escaped(text) + seq!['"']
}

/// `serde_json::to_string` on a `str`: the text as a JSON string in the
/// compact form, escaped as `escaped_char` says and with no other change.
/// The call returns a `Result`, fails only where the value's own `Serialize`
/// fails or where a map has keys that are no strings, and a `str` is
/// neither: it always succeeds.
#[verifier::external_body]
pub(crate) fn quote_text(text: &str) -> (res: Result<String, serde_json::Error>)
    ensures
        res is Ok,
        res matches Ok(quoted) ==> quoted@ == json_string(text@),
{
    serde_json::to_string(text)
}

} // verus!
