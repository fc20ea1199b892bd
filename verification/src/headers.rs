//! The headers of a request, kept in the header map of `http`.
//!
//! The verifier does not look into the map. What it holds is told by
//! [`spec_values`]: for each name, in lower case, the values that came under
//! that name, the first first. The functions here say over that what the
//! map's own methods do.
use http::header::{HeaderMap, HeaderValue};
use vstd::prelude::*;

verus! {

/// `http::HeaderMap`, a multimap from header names to values.
#[verifier::external_type_specification]
#[verifier::external_body]
#[verifier::reject_recursive_types(T)]
pub struct ExHeaderMap<T>(HeaderMap<T>);

/// `http::HeaderValue`, the bytes of one header value.
#[verifier::external_type_specification]
#[verifier::external_body]
pub struct ExHeaderValue(HeaderValue);

/// What a header map holds: for each name that has a value, written in lower
/// case, its values in the order they were given.
pub uninterp spec fn spec_values(headers: HeaderMap<HeaderValue>) -> Map<Seq<char>, Seq<Seq<u8>>>;

/// The bytes that a header value is made of.
pub uninterp spec fn spec_value_bytes(value: HeaderValue) -> Seq<u8>;

/// A letter in lower case, and any other character as it is.
pub open spec fn spec_lower(c: char) -> char {
    if 'A' <= c <= 'Z' {
        ((c as u8) + 32) as char
    } else {
        c
    }
}

/// A name with its letters in lower case, as header names are kept.
pub open spec fn spec_lowercase(name: Seq<char>) -> Seq<char> {
    name.map_values(|c: char| spec_lower(c))
}

/// Whether a byte is a visible ASCII character, a space or a tab.
pub open spec fn is_visible(byte: u8) -> bool {
    32 <= byte < 127 || byte == 9
}

/// Whether a value is text: made of visible ASCII characters, spaces and
/// tabs.
pub open spec fn is_text(bytes: Seq<u8>) -> bool {
    forall|i: int| 0 <= i < bytes.len() ==> is_visible(#[trigger] bytes[i])
}

/// The characters that the bytes of a text are.
pub open spec fn spec_text(bytes: Seq<u8>) -> Seq<char> {
    bytes.map_values(|b: u8| b as char)
}

/// What an empty header map holds: nothing.
pub open spec fn spec_no_values() -> Map<Seq<char>, Seq<Seq<u8>>> {
    Map::empty()
}

/// Makes an empty map, by `HeaderMap::new`.
#[verifier::external_body]
pub(crate) fn no_headers() -> (headers: HeaderMap<HeaderValue>)
    ensures
        spec_values(headers) == spec_no_values(),
{
    HeaderMap::new()
}

/// Looks a name up, by `HeaderMap::get`: it finds the first value that was
/// given under the name, whatever the case of the letters in `name`, and
/// nothing where the map has no value under it.
#[verifier::external_body]
pub(crate) fn first_value<'a>(
    headers: &'a HeaderMap<HeaderValue>,
    name: &str,
) -> (found: Option<&'a HeaderValue>)
    ensures
        match found {
            Some(value) => {
                &&& spec_values(*headers).dom().contains(spec_lowercase(name@))
                &&& spec_values(*headers)[spec_lowercase(name@)].len() > 0
                &&& spec_value_bytes(*value) == spec_values(*headers)[spec_lowercase(name@)][0]
            },
            None => !spec_values(*headers).dom().contains(spec_lowercase(name@)),
        },
{
    headers.get(name)
}

/// Reads a value as text, by `HeaderValue::to_str`: a value that is made of
/// visible ASCII characters, spaces and tabs is those characters, and any
/// other is no text.
#[verifier::external_body]
pub(crate) fn value_text<'a>(value: &'a HeaderValue) -> (text: Option<&'a str>)
    ensures
        match text {
            Some(text) =>
                is_text(spec_value_bytes(*value)) && text@ == spec_text(spec_value_bytes(*value)),
            None => !is_text(spec_value_bytes(*value)),
        },
{
    value.to_str().ok()
}

/// What [`header_text`] gives for `name`: the first value under that name,
/// read as text.
pub open spec fn spec_header_text(
    values: Map<Seq<char>, Seq<Seq<u8>>>,
    name: Seq<char>,
) -> Option<Seq<char>> {
    let key = spec_lowercase(name);
    if values.dom().contains(key) && is_text(values[key][0]) {
        Some(spec_text(values[key][0]))
    } else {
        None
    }
}

/// Returns the first value that was given under `name`, if it is text.
pub fn header_text<'a>(headers: &'a HeaderMap<HeaderValue>, name: &str) -> (text: Option<&'a str>)
    ensures
        match text {
            Some(text) => spec_header_text(spec_values(*headers), name@) == Some(text@),
            None => spec_header_text(spec_values(*headers), name@) is None,
        },
{
    match first_value(headers, name) {
        Some(value) => value_text(value),
        None => None,
    }
}

} // verus!
