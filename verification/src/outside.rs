//! The calls into other crates and into parts of the standard library whose
//! results are taken on trust. Each contract says what is relied on.

use vstd::prelude::*;
use vstd::utf8::*;
use serde_json::Value;
use crate::json::{Json, JsonView, Member, Number, decoded_view, scalar_shown, scalar_text};
use crate::tools::{SAFE_NAME, safe_name};

verus! {

/// Whether every byte of a header value is visible ASCII, a space or a tab.
pub open spec fn visible_ascii(bytes: Seq<u8>) -> bool {
    forall|i: int| 0 <= i < bytes.len() ==> (32 <= #[trigger] bytes[i] < 127 || bytes[i] == 9)
}

/// The characters with the given codes.
pub open spec fn ascii_text(bytes: Seq<u8>) -> Seq<char> {
    Seq::new(bytes.len(), |i: int| bytes[i] as char)
}

/// Whether `c` is a decimal digit.
pub open spec fn is_digit(c: char) -> bool {
    '0' <= c <= '9'
}

/// Whether all characters of `s` from `from` up to `to` are decimal digits.
pub open spec fn digits_between(s: Seq<char>, from: int, to: int) -> bool {
    forall|i: int| from <= i < to ==> is_digit(#[trigger] s[i])
}

/// Whether `s` is an RFC 3339 time stamp in UTC whose month starts after
/// position `p`: a year of four digits, or of a plus sign and more; month, day,
/// hour, minute and second of two digits each; a fraction of three, six or nine
/// digits, or none; and the offset `+00:00`.
pub open spec fn stamp_with_year(s: Seq<char>, p: int) -> bool {
    let n = s.len();
    &&& 4 <= p <= n - 21
    &&& if p == 4 {
        digits_between(s, 0, 4)
    } else {
        p >= 6 && s[0] == '+' && digits_between(s, 1, p)
    }
    &&& s[p] == '-' && digits_between(s, p + 1, p + 3)
    &&& s[p + 3] == '-' && digits_between(s, p + 4, p + 6)
    &&& s[p + 6] == 'T' && digits_between(s, p + 7, p + 9)
    &&& s[p + 9] == ':' && digits_between(s, p + 10, p + 12)
    &&& s[p + 12] == ':' && digits_between(s, p + 13, p + 15)
    &&& {
        ||| n - 6 == p + 15
        ||| s[p + 15] == '.' && digits_between(s, p + 16, n - 6) && (n - 6 == p + 19 || n - 6 == p
            + 22 || n - 6 == p + 25)
    }
    &&& s[n - 6] == '+' && s[n - 5] == '0' && s[n - 4] == '0' && s[n - 3] == ':' && s[n - 2] == '0'
        && s[n - 1] == '0'
}

/// Whether `s` is an RFC 3339 time stamp in UTC.
pub open spec fn utc_stamp(s: Seq<char>) -> bool {
    exists|p: int| #[trigger] stamp_with_year(s, p)
}

/// Whether `c` is a hexadecimal digit in lower case.
pub open spec fn is_lower_hex(c: char) -> bool {
    '0' <= c <= '9' || 'a' <= c <= 'f'
}

/// Whether `s` is a random (version 4) UUID in hyphenated lower-case form.
pub open spec fn random_uuid(s: Seq<char>) -> bool {
    &&& s.len() == 36
    &&& forall|i: int|
        0 <= i < 36 ==> if i == 8 || i == 13 || i == 18 || i == 23 {
            #[trigger] s[i] == '-'
        } else {
            is_lower_hex(s[i])
        }
    &&& s[14] == '4'
    &&& s[19] == '8' || s[19] == '9' || s[19] == 'a' || s[19] == 'b'
}

/// The lower-case form of an ASCII character.
pub open spec fn ascii_lower(c: char) -> char {
    if 'A' <= c <= 'Z' {
        (c as u8 + 32) as char
    } else {
        c
    }
}

/// Whether Rust's debug form shows `c` in a string as it is: a printable ASCII
/// character other than the double quote and the backslash.
pub open spec fn shown_plain(c: char) -> bool {
    ' ' <= c <= '~' && c != '"' && c != '\\'
}

/// What [`str::to_lowercase`] makes of a text.
pub uninterp spec fn lowercase_of(s: Seq<char>) -> Seq<char>;

/// What [`String::from_utf8_lossy`] makes of bytes.
pub uninterp spec fn lossy_text(bytes: Seq<u8>) -> Seq<char>;

/// What `serde_json::from_slice` makes of bytes: a value, or the text of an error.
pub uninterp spec fn json_parsed(bytes: Seq<u8>) -> Result<JsonView, Seq<char>>;

/// What the `Display` of `serde_json::Value` prints for a value.
pub uninterp spec fn json_printed(j: JsonView) -> Seq<char>;

/// What the `Debug` of `serde_json::Value` prints for a value.
pub uninterp spec fn json_debugged(j: JsonView) -> Seq<char>;

/// How Rust's `{:?}` shows a string.
pub uninterp spec fn debug_of(s: Seq<char>) -> Seq<char>;

/// Calls `regex::Regex::is_match` with the compiled `pattern`. For the pattern
/// of safe names, which is anchored at both ends of the text, the match holds
/// exactly for the non-empty texts made of the characters in its class.
#[verifier::external_body]
pub(crate) fn regex_is_match(pattern: &str, text: &str) -> (r: bool)
    requires
        pattern@ == SAFE_NAME@,
    ensures
        r == safe_name(text@),
{
    regex::Regex::new(pattern).unwrap().is_match(text)
}

/// Calls `http`'s `HeaderValue::to_str`, through axum, on the header value with
/// the given bytes: the text comes back exactly where every byte is visible
/// ASCII, a space or a tab.
#[verifier::external_body]
pub(crate) fn header_text(bytes: &[u8]) -> (r: Option<String>)
    ensures
        r is Some <==> visible_ascii(bytes@),
        r matches Some(s) ==> s@ == ascii_text(bytes@),
{
    let value = axum::http::HeaderValue::from_bytes(bytes).ok()?;
    let text = value.to_str().ok()?;
    Some(text.to_owned())
}

/// A JSON value of serde_json.
#[verifier::external_type_specification]
#[verifier::external_body]
pub struct ExValue(Value);

/// Turns a value of serde_json into one of this library, part for part. Nothing is
/// stated of it here: what [`parse_json`] says covers it.
#[verifier::external_body]
fn json_of_value(value: Value) -> (r: Json) {
    match value {
        Value::Null => Json::Null,
        Value::Bool(b) => Json::Bool(b),
        Value::Number(n) => Json::Number(match (n.as_u64(), n.as_i64()) {
            (Some(n), _) => Number::PosInt(n),
            (None, Some(n)) => Number::NegInt(n),
            (None, None) => Number::Float(n.to_string()),
        }),
        Value::String(s) => Json::String(s),
        Value::Array(xs) => Json::Array(xs.into_iter().map(json_of_value).collect()),
        Value::Object(ms) => Json::Object(
            ms.into_iter().map(|(key, v)| Member { key, value: json_of_value(v) }).collect(),
        ),
    }
}

/// Turns a value of this library into one of serde_json, part for part. Nothing is
/// stated of it here: what [`json_display`] and [`json_debug`] say covers it.
#[verifier::external_body]
fn value_of_json(j: &Json) -> (r: Value) {
    match j {
        Json::Null => Value::Null,
        Json::Bool(b) => Value::Bool(*b),
        Json::Number(Number::PosInt(n)) => Value::from(*n),
        Json::Number(Number::NegInt(n)) => Value::from(*n),
        Json::Number(Number::Float(s)) => serde_json::from_str(s).unwrap_or_default(),
        Json::String(s) => Value::String(s.clone()),
        Json::Array(xs) => xs.iter().map(value_of_json).collect(),
        Json::Object(ms) => ms.iter().map(|m| (m.key.clone(), value_of_json(&m.value))).collect(),
    }
}

/// Calls `serde_json::from_slice` for a `serde_json::Value`: the value that the
/// bytes hold, or the text of the error. Which of them, and which value, is not
/// stated but that it goes by the bytes alone.
#[verifier::external_body]
pub(crate) fn parse_json(bytes: &[u8]) -> (r: Result<Json, String>)
    ensures
        decoded_view(r) == json_parsed(bytes@),
{
    serde_json::from_slice(bytes).map(json_of_value).map_err(|e| e.to_string())
}

/// Calls the `Display` of `serde_json::Value`, which prints a value as compact JSON
/// text: null, truth values and integers as they are, a string in double quotes
/// with quotes, backslashes and control characters escaped. For the rest it is
/// only stated that the text goes by the value alone.
#[verifier::external_body]
pub(crate) fn json_display(j: &Json) -> (r: String)
    ensures
        r@ == json_printed(j@),
        scalar_text(j@) matches Some(t) ==> r@ == t,
{
    value_of_json(j).to_string()
}

/// Calls the `Debug` of `serde_json::Value`, which shows null, a truth value, an
/// integer or a string with the name of its kind. For the rest it is only stated
/// that the text goes by the value alone.
#[verifier::external_body]
pub(crate) fn json_debug(j: &Json) -> (r: String)
    ensures
        r@ == json_debugged(j@),
        scalar_shown(j@) matches Some(t) ==> r@ == t,
{
    format!("{:?}", value_of_json(j))
}

/// Calls `chrono::Utc::now` and `DateTime::to_rfc3339`: the current time, in UTC,
/// as RFC 3339 has it. Which time that is, is not stated.
#[verifier::external_body]
pub(crate) fn now_rfc3339() -> (r: String)
    ensures
        utc_stamp(r@),
{
    chrono::Utc::now().to_rfc3339()
}

/// Calls `uuid::Uuid::new_v4` and its `Display`: a random UUID. Which one, and
/// that two calls differ, is not stated.
#[verifier::external_body]
pub(crate) fn new_uuid() -> (r: String)
    ensures
        random_uuid(r@),
{
    uuid::Uuid::new_v4().to_string()
}

/// Calls [`str::to_lowercase`], which on ASCII text maps each letter to its
/// lower-case form and leaves the rest.
#[verifier::external_body]
pub(crate) fn to_lowercase(s: &str) -> (r: String)
    ensures
        r@ == lowercase_of(s@),
        is_ascii_chars(s@) ==> r@ == Seq::new(s@.len(), |i: int| ascii_lower(s@[i])),
{
    s.to_lowercase()
}

/// Calls [`String::from_utf8_lossy`], which keeps bytes that are UTF-8 as they
/// are.
#[verifier::external_body]
pub(crate) fn from_utf8_lossy(bytes: &[u8]) -> (r: String)
    ensures
        r@ == lossy_text(bytes@),
        valid_utf8(bytes@) ==> r@ == decode_utf8(bytes@),
{
    String::from_utf8_lossy(bytes).into_owned()
}

/// Calls the `Debug` of [`str`], which puts text without special characters in
/// double quotes as it is.
#[verifier::external_body]
pub(crate) fn debug_text(s: &str) -> (r: String)
    ensures
        r@ == debug_of(s@),
        (forall|i: int| 0 <= i < s@.len() ==> shown_plain(#[trigger] s@[i])) ==> r@ == seq!['"']
            + s@ + seq!['"'],
{
    format!("{:?}", s)
}

} // verus!
