//! The parts of the `http` crate that the gateway relies on.
//!
//! Every item in this file is believed, not proved: the contracts restate what
//! the crate does with header maps, header values and URIs.
use http::{HeaderMap, HeaderValue, Uri};
use http::header::InvalidHeaderValue;
use http::uri::InvalidUri;
use vstd::prelude::*;
use vstd::utf8::*;

verus! {

/// `http::HeaderMap`, seen through [`header_entries`].
#[verifier::external_type_specification]
#[verifier::external_body]
#[verifier::reject_recursive_types(T)]
pub struct ExHeaderMap<T>(http::HeaderMap<T>);

/// `http::HeaderValue`, seen through [`header_bytes`].
#[verifier::external_type_specification]
#[verifier::external_body]
pub struct ExHeaderValue(http::HeaderValue);

/// `http::header::InvalidHeaderValue`, carried as an opaque value.
#[verifier::external_type_specification]
#[verifier::external_body]
pub struct ExInvalidHeaderValue(http::header::InvalidHeaderValue);

/// `http::Uri`, carried as an opaque value.
#[verifier::external_type_specification]
#[verifier::external_body]
pub struct ExUri(http::Uri);

/// `http::uri::InvalidUri`, carried as an opaque value.
#[verifier::external_type_specification]
#[verifier::external_body]
pub struct ExInvalidUri(http::uri::InvalidUri);

/// What a header map holds: under each header name, in lower case, the values
/// of that header in the order in which they were added.
pub uninterp spec fn header_entries(headers: http::HeaderMap<http::HeaderValue>) -> Map<
    Seq<char>,
    Seq<Seq<u8>>,
>;

/// The bytes that a header value holds.
pub uninterp spec fn header_bytes(value: http::HeaderValue) -> Seq<u8>;

/// What `http::Uri` makes of a text: the URI, or the reason for refusing it.
pub uninterp spec fn parsed_uri(text: Seq<char>) -> Result<http::Uri, http::uri::InvalidUri>;

/// The lower case of an ASCII letter; every other character as it is.
pub open spec fn ascii_lowercase(c: char) -> char {
    if 'A' <= c <= 'Z' {
        (c as u32 + 32) as char
    } else {
        c
    }
}

/// A text with its ASCII letters in lower case.
pub open spec fn lowercase(text: Seq<char>) -> Seq<char> {
    text.map_values(|c: char| ascii_lowercase(c))
}

/// Whether a text is made of 1 to 64 ASCII letters, digits and hyphens.
pub open spec fn is_header_name(text: Seq<char>) -> bool {
    &&& 0 < text.len() <= 64
    &&& forall|i: int|
        0 <= i < text.len() ==> {
            ||| 'a' <= #[trigger] text[i] <= 'z'
            ||| 'A' <= text[i] <= 'Z'
            ||| '0' <= text[i] <= '9'
            ||| text[i] == '-'
        }
}

/// Whether a byte is a visible ASCII character, a space or a tab.
pub open spec fn is_visible(byte: u8) -> bool {
    32 <= byte < 127 || byte == 9
}

/// Whether all bytes are visible ASCII characters, spaces or tabs.
pub open spec fn all_visible(bytes: Seq<u8>) -> bool {
    forall|i: int| 0 <= i < bytes.len() ==> is_visible(#[trigger] bytes[i])
}

/// ASCII bytes as text.
pub open spec fn ascii_text(bytes: Seq<u8>) -> Seq<char> {
    bytes.map_values(|byte: u8| byte as char)
}

/// Whether a text can stand in a header value: of the control characters it may
/// hold the tab alone.
pub open spec fn is_sendable(text: Seq<char>) -> bool {
    forall|i: int|
        0 <= i < text.len() ==> (#[trigger] text[i] as u32 >= 32 && text[i] as u32 != 127)
            || text[i] as u32 == 9
}

/// Calls `http::HeaderMap::get`.
///
/// It finds a header whatever the case of its name, and hands out the first
/// value where the header has several.
#[verifier::external_body]
pub(crate) fn first_value<'a>(headers: &'a HeaderMap<HeaderValue>, name: &str) -> (found: Option<
    &'a HeaderValue,
>)
    requires
        is_header_name(name@),
    ensures
        found is Some <==> header_entries(*headers).contains_key(lowercase(name@)),
        found matches Some(value) ==> {
            let values = header_entries(*headers)[lowercase(name@)];
            values.len() > 0 && header_bytes(*value) == values[0]
        },
{
    headers.get(name)
}

/// Calls `http::HeaderValue::to_str`.
///
/// It gives the value as text when all of its bytes are visible, and refuses
/// it otherwise.
#[verifier::external_body]
pub(crate) fn visible_text<'a>(value: &'a HeaderValue) -> (text: Option<&'a str>)
    ensures
        text is Some <==> all_visible(header_bytes(*value)),
        text matches Some(shown) ==> shown@ == ascii_text(header_bytes(*value)),
{
    value.to_str().ok()
}

/// Calls `http::HeaderValue::from_str`.
///
/// It takes every text without control characters (the tab is allowed), and
/// keeps its UTF-8 bytes.
#[verifier::external_body]
pub(crate) fn header_value(text: &str) -> (made: Result<HeaderValue, InvalidHeaderValue>)
    ensures
        made is Ok <==> is_sendable(text@),
        made matches Ok(value) ==> header_bytes(value) == encode_utf8(text@),
{
    HeaderValue::from_str(text)
}

/// Calls `http::Uri::try_from`.
///
/// Whether it takes the text, and which URI it makes of it, is the `http`
/// crate's own grammar: the result goes by the name [`parsed_uri`].
#[verifier::external_body]
pub(crate) fn parse_uri(text: &str) -> (parsed: Result<Uri, InvalidUri>)
    ensures
        parsed == parsed_uri(text@),
{
    Uri::try_from(text)
}

} // verus!
