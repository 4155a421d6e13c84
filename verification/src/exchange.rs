//! What holds of the requests that are sent and of what their responses mean.

use reqwest::{RequestBuilder, Response};
use vstd::prelude::*;
use vstd::utf8::encode_utf8;

use crate::error::{status_reason, status_text, ErrorKind, FileError, HttpResponseStatusError};
use crate::header::{
    after_slash, content_length, is_visible_text, range_length, range_text_total,
};
use crate::laws::lemma_after_slash;
use crate::number::{
    decimal_text, is_digit, law_decimal_round_trip, law_decimal_text_is_plain,
    lemma_decimal_text_digits, parsed_u64,
};
use crate::request::{
    is_range_request, range_value, template_builds, template_clonable, template_fields,
    template_verdict, template_with_range, TemplateError,
};
use crate::response::{
    announced_size, is_announcement, response_fields, response_size, response_status,
    response_verdict, size_fits, status_error, status_verdict,
};
use crate::state::{Announcement, Event, FileModel, KnownSize, SeekFrom};

verus! {

/// The header fields of a message: for each name in lower case its values.
pub type Fields = Map<Seq<char>, Seq<Seq<u8>>>;

/// Whether the first value of a field is this text.
pub open spec fn starts_with_value(fields: Fields, name: Seq<char>, value: Seq<u8>) -> bool {
    fields.contains_key(name) && fields[name][0] == value
}

/// The decimal text of a number, as bytes.
pub open spec fn number_text(number: u64) -> Seq<u8> {
    encode_utf8(decimal_text(number as nat))
}

/// Decimal text can stand in a header.
proof fn lemma_number_text_is_visible(number: u64)
    ensures
        is_visible_text(number_text(number)),
{
    let text = number_text(number);
    lemma_decimal_text_digits(number as nat);
    assert forall|i: int| 0 <= i < text.len() implies crate::header::is_visible(
        #[trigger] text[i],
    ) by {
        assert(is_digit(text[i]));
    }
}

/// A text without a slash has nothing behind one.
proof fn lemma_no_slash(text: Seq<u8>)
    requires
        forall|i: int| 0 <= i < text.len() ==> #[trigger] text[i] != 0x2f,
    ensures
        after_slash(text) is None,
    decreases text.len(),
{
    if text.len() > 0 {
        let rest = text.skip(1);
        assert forall|i: int| 0 <= i < rest.len() implies #[trigger] rest[i] != 0x2f by {
            assert(rest[i] == text[i + 1]);
        }
        lemma_no_slash(rest);
    }
}

/// A header value is text if it holds tabs and printable ASCII characters only.
pub proof fn law_header_text(value: Seq<u8>)
    ensures
        is_visible_text(value) <==> forall|i: int|
            0 <= i < value.len() ==> (#[trigger] value[i] == 0x09 || 0x20 <= value[i] <= 0x7e),
{
    if forall|i: int|
        0 <= i < value.len() ==> (#[trigger] value[i] == 0x09 || 0x20 <= value[i] <= 0x7e) {
        assert forall|i: int| 0 <= i < value.len() implies crate::header::is_visible(
            #[trigger] value[i],
        ) by {}
    } else {
        let i = choose|i: int|
            0 <= i < value.len() && !(#[trigger] value[i] == 0x09 || 0x20 <= value[i] <= 0x7e);
        assert(!crate::header::is_visible(value[i]));
    }
}

/// `Content-Length` announces the number that its first value denotes, if this
/// is text, and whatever other values and fields there are. Without the field
/// nothing is announced.
pub proof fn law_content_length(fields: Fields, value: Seq<u8>, number: u64)
    ensures
        !fields.contains_key("content-length"@) ==> content_length(fields) is None,
        starts_with_value(fields, "content-length"@, value) ==> content_length(fields)
            == if is_visible_text(value) {
            parsed_u64(value)
        } else {
            None
        },
        starts_with_value(fields, "content-length"@, number_text(number)) ==> content_length(fields)
            == Some(number),
{
    lemma_number_text_is_visible(number);
    law_decimal_round_trip(number);
}

/// The total in the text of a `Content-Range` is the number behind the first
/// slash, whatever stands before it, and without a slash there is none.
pub proof fn law_range_text(before: Seq<u8>, after: Seq<u8>)
    requires
        forall|i: int| 0 <= i < before.len() ==> #[trigger] before[i] != 0x2f,
    ensures
        range_text_total(before) is None,
        range_text_total(before + seq![0x2fu8] + after) == parsed_u64(after),
{
    lemma_no_slash(before);
    lemma_after_slash(before, after);
}

/// `Content-Range` announces the number that stands behind the first slash of
/// its first value, if this is text, and whatever stands before the slash.
/// Without a slash, and without the field, nothing is announced.
pub proof fn law_content_range(fields: Fields, before: Seq<u8>, after: Seq<u8>)
    requires
        forall|i: int| 0 <= i < before.len() ==> #[trigger] before[i] != 0x2f,
    ensures
        !fields.contains_key("content-range"@) ==> range_length(fields) is None,
        starts_with_value(fields, "content-range"@, before) ==> range_length(fields) is None,
        starts_with_value(fields, "content-range"@, before + seq![0x2fu8] + after) ==> range_length(
            fields,
        ) == if is_visible_text(before + seq![0x2fu8] + after) {
            parsed_u64(after)
        } else {
            None
        },
{
    law_range_text(before, after);
}

/// The size that a response announces, from the numbers in its headers. A
/// response with the whole resource has its `Content-Length` as size, and its
/// `Content-Range` does not matter. Any other has the total of `Content-Range`
/// as size, and only without it ends where the offset and the `Content-Length`
/// say. Without these numbers nothing is announced.
pub proof fn law_announced_size(offset: u64, status: u16, number: u64, other: Option<u64>)
    ensures
        announced_size(offset, 200, other, Some(number)) == Some(number as int),
        announced_size(offset, 200, other, None) is None,
        status != 200 ==> {
            &&& announced_size(offset, status, Some(number), other) == Some(number as int)
            &&& announced_size(offset, status, None, Some(number)) == Some(offset + number)
            &&& announced_size(offset, status, None, None) is None
        },
        size_fits(None),
        size_fits(Some(offset + number)) <==> offset + number <= 0xffff_ffff_ffff_ffff,
{
}

/// The size that a response announces comes from its own headers: with the
/// whole resource from `Content-Length` alone, and with any other from
/// `Content-Range`, or without it from `Content-Length` and the offset.
pub proof fn law_response_size(offset: u64, response: Response)
    ensures
        ({
            let size = response_size(offset, response);
            let length = content_length(response_fields(response));
            let range = range_length(response_fields(response));
            let whole = response_status(response) == 200;
            &&& size is None <==> length is None && (whole || range is None)
            &&& size matches Some(size) ==> {
                &&& whole ==> size == length->0
                &&& !whole && range is Some ==> size == range->0
                &&& !whole && range is None ==> size == offset + length->0
            }
        }),
{
}

/// What is announced to the file is the size that the headers of the response
/// give, with a note of whether there is a `Content-Length`. Nothing is
/// announced only if the headers give no size.
pub proof fn law_announcement(
    offset: u64,
    response: Response,
    announced: Option<Announcement>,
)
    requires
        is_announcement(offset, response, announced),
    ensures
        ({
            let length = content_length(response_fields(response));
            let range = range_length(response_fields(response));
            let whole = response_status(response) == 200;
            &&& announced is None <==> length is None && (whole || range is None)
            &&& announced matches Some(announced) ==> {
                &&& announced.by_length == length is Some
                &&& whole ==> length == Some(announced.size)
                &&& !whole && range is Some ==> range == Some(announced.size)
                &&& !whole && range is None ==> announced.size == offset + length->0
            }
        }),
{
}

/// From the header to the file: the response with the whole resource, whose
/// `Content-Length` is a number, makes this number the size of the file, unless
/// an earlier response announced one. Seeking to the end then gives this number.
pub proof fn law_size_of_whole_resource<P, R>(
    file: FileModel<P, R>,
    window: u64,
    offset: u64,
    response: Response,
    announced: Option<Announcement>,
    reader: R,
    size: u64,
)
    requires
        file.state is Pending,
        file.size !is Announced,
        response_status(response) == 200,
        starts_with_value(response_fields(response), "content-length"@, number_text(size)),
        is_announcement(offset, response, announced),
    ensures
        ({
            let after = file.step(window, Event::Arrived(announced, reader));
            &&& after.size.value() == Some(size)
            &&& after.resolved(SeekFrom::End(0)) == Ok::<u64, FileError>(size)
        }),
{
    law_content_length(response_fields(response), Seq::empty(), size);
}

/// From the header to the file: the response with a part of the resource, whose
/// `Content-Range` ends in a slash and a number, makes this number the size of
/// a file of which no size was known. Seeking to the end then gives this number.
pub proof fn law_size_from_content_range<P, R>(
    file: FileModel<P, R>,
    window: u64,
    offset: u64,
    response: Response,
    announced: Option<Announcement>,
    reader: R,
    before: Seq<u8>,
    size: u64,
)
    requires
        file.state is Pending,
        file.size == KnownSize::Unknown,
        response_status(response) == 206,
        is_visible_text(before),
        forall|i: int| 0 <= i < before.len() ==> #[trigger] before[i] != 0x2f,
        starts_with_value(
            response_fields(response),
            "content-range"@,
            before + seq![0x2fu8] + number_text(size),
        ),
        is_announcement(offset, response, announced),
    ensures
        ({
            let after = file.step(window, Event::Arrived(announced, reader));
            &&& after.size.value() == Some(size)
            &&& after.resolved(SeekFrom::End(0)) == Ok::<u64, FileError>(size)
        }),
{
    let after = number_text(size);
    let value = before + seq![0x2fu8] + after;
    law_content_range(response_fields(response), before, after);
    law_decimal_round_trip(size);
    lemma_number_text_is_visible(size);
    assert forall|i: int| 0 <= i < value.len() implies crate::header::is_visible(
        #[trigger] value[i],
    ) by {
        if i < before.len() {
            assert(value[i] == before[i]);
        } else if i > before.len() {
            assert(value[i] == after[i - before.len() - 1]);
        }
    }
}

/// From the header to the file: the response with a part of the resource, which
/// has no `Content-Range` and whose `Content-Length` is a number, makes the sum
/// of this number and the offset the size of the file, unless an earlier
/// response announced one. Seeking to the end then gives this sum.
pub proof fn law_size_from_content_length<P, R>(
    file: FileModel<P, R>,
    window: u64,
    offset: u64,
    response: Response,
    announced: Option<Announcement>,
    reader: R,
    length: u64,
)
    requires
        file.state is Pending,
        file.size !is Announced,
        response_status(response) == 206,
        offset + length <= u64::MAX,
        !response_fields(response).contains_key("content-range"@),
        starts_with_value(response_fields(response), "content-length"@, number_text(length)),
        is_announcement(offset, response, announced),
    ensures
        ({
            let after = file.step(window, Event::Arrived(announced, reader));
            &&& after.size.value() == Some((offset + length) as u64)
            &&& after.resolved(SeekFrom::End(0)) == Ok::<u64, FileError>((offset + length) as u64)
        }),
{
    law_content_length(response_fields(response), Seq::empty(), length);
    law_content_range(response_fields(response), Seq::empty(), Seq::empty());
}

/// What becomes of a response, by its status. Statuses from 400 to 599 are http
/// errors. The part that was asked for is taken, and so is the whole resource
/// where the first byte was asked for; anywhere else the whole resource means
/// that the webserver does not support range requests. Any other status is
/// reported as it is. What is taken may still end beyond all positions, if the
/// offset and the `Content-Length` say so.
pub proof fn law_response_by_status(offset: u64, response: Response)
    ensures
        ({
            let verdict = response_verdict(offset, response);
            let status = response_status(response);
            let length = content_length(response_fields(response));
            let range = range_length(response_fields(response));
            &&& 400 <= status <= 599 ==> verdict == Err::<(), FileError>(
                FileError::Http(status_error(response)),
            )
            &&& status == 200 && offset == 0 ==> verdict == Ok::<(), FileError>(())
            &&& status == 200 && offset > 0 ==> verdict == Err::<(), FileError>(
                FileError::NotSeekable,
            )
            &&& status == 206 ==> verdict == if range is None && length is Some && offset
                + length->0 > u64::MAX {
                Err::<(), FileError>(FileError::SizeOverflow)
            } else {
                Ok::<(), FileError>(())
            }
            &&& status != 200 && status != 206 && !(400 <= status <= 599) ==> verdict == Err::<
                (),
                FileError,
            >(FileError::Status(HttpResponseStatusError(status)))
        }),
{
}

/// A status that is neither `200 OK` nor `206 Partial Content` is reported as it
/// is, and these two are not.
pub proof fn law_unexpected_status_is_reported(offset: u64, status: u16)
    ensures
        status_verdict(0, 200) == Ok::<(), FileError>(()),
        offset > 0 ==> status_verdict(offset, 200) == Err::<(), FileError>(FileError::NotSeekable),
        status_verdict(offset, 206) == Ok::<(), FileError>(()),
        status != 200 && status != 206 ==> status_verdict(offset, status) == Err::<(), FileError>(
            FileError::Status(HttpResponseStatusError(status)),
        ),
{
}

/// The kinds of errors: what is wrong with a seek has a kind of its own, and so
/// has a webserver without range support. All that goes wrong with a request
/// is of one other kind.
pub proof fn law_error_kinds(error: FileError)
    ensures
        error is InvalidInput <==> error.spec_kind() == ErrorKind::InvalidInput,
        error is Unsupported <==> error.spec_kind() == ErrorKind::Unsupported,
        error is NotSeekable <==> error.spec_kind() == ErrorKind::NotSeekable,
        error is Http || error is Status || error is SizeOverflow <==> error.spec_kind()
            == ErrorKind::Other,
{
}

/// A status is shown by its three digits, a space, and its reason phrase.
pub proof fn law_status_is_shown(status: u16)
    requires
        100 <= status <= 999,
    ensures
        status_text(status).len() == 4 + status_reason(status).len(),
        status_text(status)[0] as int == 0x30 + status / 100,
        status_text(status)[1] as int == 0x30 + status / 10 % 10,
        status_text(status)[2] as int == 0x30 + status % 10,
        status_text(status)[3] == ' ',
        status_text(status).skip(4) == status_reason(status),
{
    reveal_strlit(" ");
    reveal_with_fuel(decimal_text, 3);
    assert(status_text(status).skip(4) =~= status_reason(status));
}

/// A request can be the template of a file exactly if it can be cloned, is
/// valid and has no `Range` header. Otherwise the first of these that fails is
/// the error.
pub proof fn law_template_verdicts(template: RequestBuilder)
    ensures
        ({
            let verdict = template_verdict(template);
            let ranged = template_fields(template).contains_key("range"@);
            &&& verdict is Ok <==> template_clonable(template) && template_builds(template)
                && !ranged
            &&& verdict == Err::<(), TemplateError>(TemplateError::Unclonable)
                <==> !template_clonable(template)
            &&& verdict == Err::<(), TemplateError>(TemplateError::Invalid) <==> template_clonable(
                template,
            ) && !template_builds(template)
            &&& verdict == Err::<(), TemplateError>(TemplateError::RangeSet) <==> template_clonable(
                template,
            ) && template_builds(template) && ranged
        }),
{
}

/// The `Range` header is `bytes=`, the plain digits of the offset, and `-`.
pub proof fn law_range_value_is_plain(offset: u64)
    ensures
        ({
            let value = range_value(offset);
            &&& value.len() >= 8
            &&& value.take(6) == seq!['b', 'y', 't', 'e', 's', '=']
            &&& value.last() == '-'
            &&& forall|i: int|
                6 <= i < value.len() - 1 ==> 0x30 <= (#[trigger] value[i]) as int <= 0x39
            &&& value.len() > 8 ==> value[6] != '0'
            &&& parsed_u64(encode_utf8(value.subrange(6, value.len() - 1))) == Some(offset)
        }),
{
    reveal_strlit("bytes=");
    reveal_strlit("-");
    let digits = decimal_text(offset as nat);
    let value = range_value(offset);
    law_decimal_text_is_plain(offset as nat);
    law_decimal_round_trip(offset);
    assert(value.take(6) =~= seq!['b', 'y', 't', 'e', 's', '=']);
    assert(value.subrange(6, value.len() - 1) =~= digits);
    assert forall|i: int| 6 <= i < value.len() - 1 implies 0x30 <= (
    #[trigger] value[i]) as int <= 0x39 by {
        assert(value[i] == digits[i - 6]);
    }
    assert(value[6] == digits[0]);
}

/// A range request has the fields of the template and one more, `Range`, with
/// the one value that asks for the resource from the offset on.
pub proof fn law_range_request_fields(
    template: RequestBuilder,
    offset: u64,
    ranged: RequestBuilder,
    name: Seq<char>,
)
    requires
        is_range_request(template, offset, ranged),
    ensures
        ranged == template_with_range(template, range_value(offset)),
        template_builds(ranged),
        template_fields(ranged).contains_key("range"@),
        template_fields(ranged)["range"@].len() == 1,
        template_fields(ranged)["range"@][0] == encode_utf8(range_value(offset)),
        name != "range"@ ==> {
            &&& template_fields(ranged).contains_key(name) <==> template_fields(
                template,
            ).contains_key(name)
            &&& template_fields(template).contains_key(name) ==> template_fields(ranged)[name]
                == template_fields(template)[name]
        },
{
}

} // verus!
