//! The request template of a file, and the range requests made from it.

use reqwest::header::{HeaderMap, HeaderValue, RANGE};
use reqwest::{Request, RequestBuilder};
use vstd::prelude::*;
use vstd::string::StringExecFns;
use vstd::utf8::encode_utf8;

use crate::header::{contains_key, header_fields, is_visible};
use crate::number::{decimal_text, format_u64, lemma_decimal_text_digits};

verus! {

/// The request builder of `reqwest`.
#[verifier::external_type_specification]
#[verifier::external_body]
pub struct ExRequestBuilder(RequestBuilder);

/// The request type of `reqwest`.
#[verifier::external_type_specification]
#[verifier::external_body]
pub struct ExRequest(Request);

/// Whether a request builder can be cloned: it holds no error, and its body,
/// if it has one, is no stream.
pub uninterp spec fn template_clonable(template: RequestBuilder) -> bool;

/// Whether a request builder holds a request, and no error.
pub uninterp spec fn template_builds(template: RequestBuilder) -> bool;

/// The header fields of the request that a builder holds: for each name in
/// lower case its values.
pub uninterp spec fn template_fields(template: RequestBuilder) -> Map<Seq<char>, Seq<Seq<u8>>>;

/// The header fields of a request: for each name in lower case its values.
pub uninterp spec fn request_fields(request: Request) -> Map<Seq<char>, Seq<Seq<u8>>>;

/// Whether the header map of the request that a builder holds has room for one
/// more field: its hash table has a free slot for it, or can grow.
pub uninterp spec fn template_has_room(template: RequestBuilder) -> bool;

/// A request builder after a `Range` field with this value was added to it.
pub uninterp spec fn template_with_range(
    template: RequestBuilder,
    value: Seq<char>,
) -> RequestBuilder;

/// `RequestBuilder::try_clone` gives a builder for the same request, with the
/// same client, and `None` for an invalid request and for a streaming body.
pub assume_specification[ RequestBuilder::try_clone ](template: &RequestBuilder) -> (clone: Option<
    RequestBuilder,
>)
    ensures
        clone is Some <==> template_clonable(*template),
        clone matches Some(clone) ==> clone == *template,
;

/// `RequestBuilder::build` gives the request that the builder holds.
pub assume_specification[ RequestBuilder::build ](template: RequestBuilder) -> (request: Result<
    Request,
    reqwest::Error,
>)
    ensures
        request is Ok <==> template_builds(template),
        request matches Ok(request) ==> request_fields(request) == template_fields(template),
;

/// `Request::headers` gives the header map of the request.
pub assume_specification[ Request::headers ](request: &Request) -> (headers: &HeaderMap)
    ensures
        header_fields(*headers) == request_fields(*request),
;

/// The number of distinct header names up to which a header map is sure to
/// take another one: a fifth of the 32768 slots of the largest hash table.
/// With more, a map in which too many names collided may refuse it.
pub const MAX_FIELDS: usize = 6553;

/// Whether a text is made of printable ASCII characters and tabs.
pub open spec fn is_header_text(text: Seq<char>) -> bool {
    forall|i: int| 0 <= i < text.len() ==> (#[trigger] text[i]) as int <= 0xff && is_visible(
        text[i] as u8,
    )
}

/// `HeaderMap::try_append` with the name `Range`, on the headers of the request
/// that a builder holds. `RequestBuilder::build_split` and `from_parts` take the
/// builder apart into client and request and put it together again.
/// The value goes behind those that the field has, and the other fields stay as
/// they are, as with `RequestBuilder::header`.
/// It refuses where the hash table of the map has to grow and cannot. That
/// depends on the size of the table, on how many names are in it and on whether
/// too many of them collided, and so on the builder alone. It does not happen
/// with up to [`MAX_FIELDS`] names.
#[verifier::external_body]
fn append_range(template: RequestBuilder, value: &str) -> (ranged: Option<RequestBuilder>)
    requires
        template_builds(template),
        is_header_text(value@),
    ensures
        ranged is Some <==> template_has_room(template),
        ranged is None ==> template_fields(template).dom().len() > MAX_FIELDS,
        ranged matches Some(ranged) ==> {
            &&& ranged == template_with_range(template, value@)
            &&& template_builds(ranged)
            &&& template_fields(ranged) == template_fields(template).insert(
                "range"@,
                field_values(template_fields(template), "range"@).push(encode_utf8(value@)),
            )
        },
{
    let (client, request) = template.build_split();
    let mut request = request.unwrap();
    let value = HeaderValue::from_str(value).unwrap();
    match request.headers_mut().try_append(RANGE, value) {
        Ok(_) => Some(RequestBuilder::from_parts(client, request)),
        Err(_) => None,
    }
}

/// All values of a field, none if there is no such field.
pub open spec fn field_values(fields: Map<Seq<char>, Seq<Seq<u8>>>, name: Seq<char>) -> Seq<
    Seq<u8>,
> {
    if fields.contains_key(name) {
        fields[name]
    } else {
        Seq::empty()
    }
}

/// Why a request cannot be the template of a file.
#[derive(Clone, Copy, Debug, PartialEq, Eq, Structural)]
pub enum TemplateError {
    /// The request contains a streaming body, or is invalid.
    Unclonable,
    /// Building the request fails.
    Invalid,
    /// The request already has a `Range` header.
    RangeSet,
}

/// Whether range requests can be made from a request, and if not, why.
pub open spec fn template_verdict(template: RequestBuilder) -> Result<(), TemplateError> {
    if !template_clonable(template) {
        Err(TemplateError::Unclonable)
    } else if !template_builds(template) {
        Err(TemplateError::Invalid)
    } else if template_fields(template).contains_key("range"@) {
        Err(TemplateError::RangeSet)
    } else {
        Ok(())
    }
}

/// Check that range requests can be made from a request.
pub fn check_template(template: &RequestBuilder) -> (result: Result<(), TemplateError>)
    ensures
        result == template_verdict(*template),
{
    let clone = match template.try_clone() {
        Some(clone) => clone,
        None => return Err(TemplateError::Unclonable),
    };
    let request = match clone.build() {
        Ok(request) => request,
        Err(_) => return Err(TemplateError::Invalid),
    };
    let headers = request.headers();
    if contains_key(headers, "range") {
        Err(TemplateError::RangeSet)
    } else {
        Ok(())
    }
}

/// The value of the `Range` header that asks for a resource from an offset on.
pub open spec fn range_value(offset: u64) -> Seq<char> {
    "bytes="@ + decimal_text(offset as nat) + "-"@
}

/// Write the `Range` header that asks for a resource from an offset on, such
/// as `bytes=42-`.
pub fn format_range(offset: u64) -> (value: String)
    ensures
        value@ == range_value(offset),
{
    let mut value = String::from_str("bytes=");
    value.append(format_u64(offset).as_str());
    value.append("-");
    value
}

/// The value of a `Range` header is plain text.
proof fn lemma_range_value_is_header_text(offset: u64)
    ensures
        is_header_text(range_value(offset)),
{
    reveal_strlit("bytes=");
    reveal_strlit("-");
    lemma_decimal_text_digits(offset as nat);
    let digits = decimal_text(offset as nat);
    vstd::utf8::is_ascii_chars_encode_utf8(digits);
    assert forall|i: int| 0 <= i < range_value(offset).len() implies {
        &&& (#[trigger] range_value(offset)[i]) as int <= 0xff
        &&& is_visible(range_value(offset)[i] as u8)
    } by {
        let k = i - 6;
        if 0 <= k < digits.len() {
            assert(range_value(offset)[i] == digits[k]);
            assert(crate::number::is_digit(encode_utf8(digits)[k]));
        }
    }
}

/// Whether a request is the template with one more header, the `Range` header
/// that asks for the resource from an offset on.
pub open spec fn is_range_request(
    template: RequestBuilder,
    offset: u64,
    ranged: RequestBuilder,
) -> bool {
    &&& ranged == template_with_range(template, range_value(offset))
    &&& template_builds(ranged)
    &&& template_fields(ranged) == template_fields(template).insert(
        "range"@,
        seq![encode_utf8(range_value(offset))],
    )
}

/// The request for a resource from an offset on: the template with one more
/// header, `Range`. It is `None` if the template has so many headers that there
/// is no room for another one.
pub fn range_request(template: &RequestBuilder, offset: u64) -> (ranged: Option<RequestBuilder>)
    requires
        template_verdict(*template) is Ok,
    ensures
        ranged is Some <==> template_has_room(*template),
        ranged is None ==> template_fields(*template).dom().len() > MAX_FIELDS,
        ranged matches Some(ranged) ==> is_range_request(*template, offset, ranged),
{
    proof {
        lemma_range_value_is_header_text(offset);
        assert(field_values(template_fields(*template), "range"@).push(
            encode_utf8(range_value(offset)),
        ) =~= seq![encode_utf8(range_value(offset))]);
    }
    append_range(template.try_clone().unwrap(), format_range(offset).as_str())
}

} // verus!
