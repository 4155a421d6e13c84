//! Header fields of requests and responses, and the body sizes that a server
//! announces in them.

use reqwest::header::{HeaderMap, HeaderValue, ToStrError};
use vstd::prelude::*;
use vstd::slice::slice_subrange;
use vstd::utf8::encode_utf8;

use crate::number::{parse_u64, parsed_u64};

verus! {

/// The header map of the `http` crate, which `reqwest` hands out.
#[verifier::external_type_specification]
#[verifier::external_body]
#[verifier::reject_recursive_types(T)]
pub struct ExHeaderMap<T>(HeaderMap<T>);

/// One header value of the `http` crate.
#[verifier::external_type_specification]
#[verifier::external_body]
pub struct ExHeaderValue(HeaderValue);

/// The error of `HeaderValue::to_str`.
#[verifier::external_type_specification]
#[verifier::external_body]
pub struct ExToStrError(ToStrError);

/// What a header map holds: for each field name, in lower case, the bytes of
/// its values in the order in which they were added.
pub uninterp spec fn header_fields(headers: HeaderMap) -> Map<Seq<char>, Seq<Seq<u8>>>;

/// The bytes that a header value holds.
pub uninterp spec fn value_bytes(value: HeaderValue) -> Seq<u8>;

/// The field names that this library looks up or sets.
pub open spec fn is_known_field(name: Seq<char>) -> bool {
    ||| name == "content-length"@
    ||| name == "content-range"@
    ||| name == "range"@
}

/// Whether a byte is a tab or a printable ASCII character.
pub open spec fn is_visible(byte: u8) -> bool {
    32 <= byte < 127 || byte == 9
}

/// Whether a header value can be read as text.
pub open spec fn is_visible_text(bytes: Seq<u8>) -> bool {
    forall|i: int| 0 <= i < bytes.len() ==> is_visible(#[trigger] bytes[i])
}

/// `HeaderValue::to_str` gives the value itself as a string slice if it holds
/// nothing but tabs and printable ASCII characters, and an error otherwise.
pub assume_specification[ HeaderValue::to_str ](value: &HeaderValue) -> (text: Result<
    &str,
    ToStrError,
>)
    ensures
        text is Ok <==> is_visible_text(value_bytes(*value)),
        text matches Ok(text) ==> encode_utf8(text@) == value_bytes(*value),
;

/// `HeaderMap::get` gives the first value of the field with this name,
/// and `None` if the map has no such field.
#[verifier::external_body]
fn get<'a>(headers: &'a HeaderMap, name: &str) -> (value: Option<&'a HeaderValue>)
    requires
        is_known_field(name@),
    ensures
        value is Some <==> header_fields(*headers).contains_key(name@),
        value matches Some(value) ==> {
            &&& header_fields(*headers)[name@].len() > 0
            &&& value_bytes(*value) == header_fields(*headers)[name@][0]
        },
{
    headers.get(name)
}

/// `HeaderMap::contains_key` tells whether the map has a field with this name.
#[verifier::external_body]
pub(crate) fn contains_key(headers: &HeaderMap, name: &str) -> (found: bool)
    requires
        is_known_field(name@),
    ensures
        found == header_fields(*headers).contains_key(name@),
{
    headers.contains_key(name)
}

/// The text of the first value of a field, if there is one and it is text.
pub open spec fn field_text(fields: Map<Seq<char>, Seq<Seq<u8>>>, name: Seq<char>) -> Option<
    Seq<u8>,
> {
    if fields.contains_key(name) && is_visible_text(fields[name][0]) {
        Some(fields[name][0])
    } else {
        None
    }
}

/// The part of a text after the first `/` in it, if it has one.
pub open spec fn after_slash(text: Seq<u8>) -> Option<Seq<u8>>
    decreases text.len(),
{
    if text.len() == 0 {
        None
    } else if text[0] == 0x2f {
        Some(text.skip(1))
    } else {
        after_slash(text.skip(1))
    }
}

/// The size of the whole resource in the text of a `Content-Range` field,
/// such as 7 in `bytes 3-5/7`.
pub open spec fn range_text_total(text: Seq<u8>) -> Option<u64> {
    match after_slash(text) {
        Some(total) => parsed_u64(total),
        None => None,
    }
}

/// The number of body bytes that the `Content-Length` field announces.
pub open spec fn content_length(fields: Map<Seq<char>, Seq<Seq<u8>>>) -> Option<u64> {
    match field_text(fields, "content-length"@) {
        Some(text) => parsed_u64(text),
        None => None,
    }
}

/// The size of the whole resource that the `Content-Range` field announces.
pub open spec fn range_length(fields: Map<Seq<char>, Seq<Seq<u8>>>) -> Option<u64> {
    match field_text(fields, "content-range"@) {
        Some(text) => range_text_total(text),
        None => None,
    }
}

/// Read the text of a `Content-Length` field, such as `123`.
pub fn parse_length_text(text: &str) -> (length: Option<u64>)
    ensures
        length == parsed_u64(encode_utf8(text@)),
{
    parse_u64(text.as_bytes())
}

/// Read the size of the whole resource from the text of a `Content-Range`
/// field, such as `bytes 3-5/7`: the number after the first `/`.
pub fn parse_range_text(text: &str) -> (total: Option<u64>)
    ensures
        total == range_text_total(encode_utf8(text@)),
{
    let bytes = text.as_bytes();
    let len: usize = bytes.len();
    let mut i: usize = 0;
    assert(bytes@.skip(0) =~= bytes@);
    while i < len
        invariant
            len == bytes@.len(),
            i <= len,
            bytes@ == encode_utf8(text@),
            after_slash(bytes@) == after_slash(bytes@.skip(i as int)),
        decreases len - i,
    {
        assert(bytes@.skip(i as int).skip(1) =~= bytes@.skip(i + 1));
        if bytes[i] == 0x2f {
            assert(bytes@.subrange(i + 1, len as int) =~= bytes@.skip(i + 1));
            return parse_u64(slice_subrange(bytes, i + 1, len));
        }
        i += 1;
    }
    None
}

/// The number of body bytes that a response announces in `Content-Length`.
pub fn parse_content_length(headers: &HeaderMap) -> (length: Option<u64>)
    ensures
        length == content_length(header_fields(*headers)),
{
    match get(headers, "content-length") {
        Some(value) => match value.to_str() {
            Ok(text) => parse_length_text(text),
            Err(_) => None,
        },
        None => None,
    }
}

/// The size of the whole resource that a response announces in
/// `Content-Range`.
pub fn parse_range_length(headers: &HeaderMap) -> (length: Option<u64>)
    ensures
        length == range_length(header_fields(*headers)),
{
    match get(headers, "content-range") {
        Some(value) => match value.to_str() {
            Ok(text) => parse_range_text(text),
            Err(_) => None,
        },
        None => None,
    }
}

} // verus!
