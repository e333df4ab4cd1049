//! HTTP header maps, and what this library relies on of them.

use axum::http::{HeaderMap, HeaderValue};
use vstd::prelude::*;
use vstd::utf8::encode_utf8;

verus! {

/// A multimap of HTTP headers, declared so that it can be read and filled through the functions
/// below.
#[verifier::external_type_specification]
#[verifier::external_body]
#[verifier::reject_recursive_types(T)]
pub struct ExHeaderMap<T>(axum::http::HeaderMap<T>);

/// One value of an HTTP header.
#[verifier::external_type_specification]
#[verifier::external_body]
pub struct ExHeaderValue(axum::http::HeaderValue);

/// What a header map holds: for each name that it has, in lower case, the values under it.
pub uninterp spec fn header_entries(map: axum::http::HeaderMap<axum::http::HeaderValue>) -> Map<
    Seq<char>,
    Seq<Seq<u8>>,
>;

/// The bytes that a header value holds.
pub uninterp spec fn header_bytes(value: axum::http::HeaderValue) -> Seq<u8>;

/// Whether a text is a header name as this library writes them: lower-case letters and hyphens,
/// at least one and at most 64.
pub open spec fn is_header_name(name: Seq<char>) -> bool {
    &&& 1 <= name.len() <= 64
    &&& forall|i: int| 0 <= i < name.len() ==> ('a' <= #[trigger] name[i] <= 'z' || name[i] == '-')
}

/// Whether a byte is one that a header value can be read as text with: visible ASCII, a blank or
/// a tab.
pub open spec fn is_plain_byte(byte: u8) -> bool {
    32 <= byte < 127 || byte == 9
}

/// Whether a text can be sent as a header value: it holds no control character but the tab.
pub open spec fn is_sendable(text: Seq<char>) -> bool {
    forall|i: int| 0 <= i < text.len() ==> ((' ' <= #[trigger] text[i] && text[i] != '\x7f')
        || text[i] == '\t')
}

/// The text of some bytes, if all of them are plain.
pub open spec fn plain_text(bytes: Seq<u8>) -> Option<Seq<char>> {
    if forall|i: int| 0 <= i < bytes.len() ==> is_plain_byte(#[trigger] bytes[i]) {
        Some(Seq::new(bytes.len(), |i: int| bytes[i] as char))
    } else {
        None
    }
}

/// The text of the first value under a name, if there is a value and it is plain.
pub open spec fn header_text(map: HeaderMap<HeaderValue>, name: Seq<char>) -> Option<Seq<char>> {
    let entries = header_entries(map);
    if entries.contains_key(name) && entries[name].len() > 0 {
        plain_text(entries[name][0])
    } else {
        None
    }
}

/// What a header map without headers holds.
pub open spec fn no_entries() -> Map<Seq<char>, Seq<Seq<u8>>> {
    Map::empty()
}

/// `HeaderMap::new` gives a map without headers.
#[verifier::external_body]
pub(crate) fn new_headers() -> (headers: HeaderMap<HeaderValue>)
    ensures
        header_entries(headers) == no_entries(),
{
    HeaderMap::new()
}

/// `HeaderMap::get` gives the first of the values under a name.
#[verifier::external_body]
fn first_value<'a>(headers: &'a HeaderMap<HeaderValue>, name: &str) -> (value: Option<
    &'a HeaderValue,
>)
    requires
        is_header_name(name@),
    ensures
        match value {
            Some(value) => {
                &&& header_entries(*headers).contains_key(name@)
                &&& header_entries(*headers)[name@].len() > 0
                &&& header_bytes(*value) == header_entries(*headers)[name@][0]
            },
            None => !header_entries(*headers).contains_key(name@),
        },
{
    headers.get(name)
}

/// `HeaderValue::to_str` gives the text of a value whose bytes are all plain, and an error for any
/// other.
#[verifier::external_body]
fn value_text(value: &HeaderValue) -> (text: Option<&str>)
    ensures
        text.deep_view() == plain_text(header_bytes(*value)),
{
    value.to_str().ok()
}

/// `HeaderValue::from_str` makes a value of the bytes of a text. It refuses control characters
/// other than the tab.
#[verifier::external_body]
fn value_of(text: &str) -> (value: HeaderValue)
    requires
        is_sendable(text@),
    ensures
        header_bytes(value) == encode_utf8(text@),
{
    HeaderValue::from_str(text).unwrap()
}

/// `HeaderMap::insert` puts a value under a name, in place of all that was there. A map of few
/// names has room for one more.
#[verifier::external_body]
fn put_value(headers: &mut HeaderMap<HeaderValue>, name: &'static str, value: HeaderValue)
    requires
        is_header_name(name@),
        header_entries(*old(headers)).dom().len() < 64,
    ensures
        header_entries(*final(headers)) == header_entries(*old(headers)).insert(
            name@,
            seq![header_bytes(value)],
        ),
{
    headers.insert(name, value);
}

/// The text of the first value under a name.
pub(crate) fn read_header(headers: &HeaderMap<HeaderValue>, name: &str) -> (text: Option<String>)
    requires
        is_header_name(name@),
    ensures
        text.deep_view() == header_text(*headers, name@),
{
    match first_value(headers, name) {
        Some(value) => match value_text(value) {
            Some(text) => Some(text.to_string()),
            None => None,
        },
        None => None,
    }
}

/// Puts a text under a name, in place of all that was there.
pub(crate) fn write_header(headers: &mut HeaderMap<HeaderValue>, name: &'static str, text: &str)
    requires
        is_header_name(name@),
        is_sendable(text@),
        header_entries(*old(headers)).dom().len() < 64,
    ensures
        header_entries(*final(headers)) == header_entries(*old(headers)).insert(
            name@,
            seq![encode_utf8(text@)],
        ),
{
    put_value(headers, name, value_of(text));
}

} // verus!
