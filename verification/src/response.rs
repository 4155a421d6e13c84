//! Whether a response delivers the requested part of a resource, and the size
//! of the resource that it announces.

use reqwest::header::HeaderMap;
use reqwest::Response;
use vstd::prelude::*;

use crate::error::{FileError, HttpResponseStatusError};
use crate::header::{
    content_length, header_fields, parse_content_length, parse_range_length, range_length,
};
use crate::state::Announcement;

verus! {

/// The response type of `reqwest`.
#[verifier::external_type_specification]
#[verifier::external_body]
pub struct ExResponse(Response);

/// The number of a response's status.
pub uninterp spec fn response_status(response: Response) -> u16;

/// The header fields of a response: for each name in lower case its values.
pub uninterp spec fn response_fields(response: Response) -> Map<Seq<char>, Seq<Seq<u8>>>;

/// The error that `reqwest` makes of a response with an error status.
pub uninterp spec fn status_error(response: Response) -> reqwest::Error;

/// `Response::status`, as a number; `StatusCode` has three digits.
#[verifier::external_body]
fn status(response: &Response) -> (status: u16)
    ensures
        status == response_status(*response),
        100 <= status <= 999,
{
    response.status().as_u16()
}

/// `Response::headers` gives the header map of the response.
pub assume_specification[ Response::headers ](response: &Response) -> (headers: &HeaderMap)
    ensures
        header_fields(*headers) == response_fields(*response),
;

/// `Response::error_for_status` hands the response back, unless the status is
/// a client error (400 to 499) or a server error (500 to 599).
/// Then it gives an error made of the status and the URL of the response.
pub assume_specification[ Response::error_for_status ](response: Response) -> (result: Result<
    Response,
    reqwest::Error,
>)
    ensures
        result == if is_error_status(response_status(response)) {
            Err::<Response, reqwest::Error>(status_error(response))
        } else {
            Ok::<Response, reqwest::Error>(response)
        },
;

/// Whether a status is an http error, of the client or of the server.
pub open spec fn is_error_status(status: u16) -> bool {
    400 <= status < 600
}

/// `200 OK`: the body is the whole resource.
pub const OK: u16 = 200;

/// `206 Partial Content`: the body is the requested part of the resource.
pub const PARTIAL_CONTENT: u16 = 206;

/// The size of the resource that a response announces, given the offset at
/// which its body was requested to start, the number from `Content-Range` and
/// the number from `Content-Length`.
/// A partial body ends where the resource ends.
pub open spec fn announced_size(
    offset: u64,
    status: u16,
    range: Option<u64>,
    length: Option<u64>,
) -> Option<int> {
    if status == OK {
        match length {
            Some(length) => Some(length as int),
            None => None,
        }
    } else {
        match (range, length) {
            (Some(total), _) => Some(total as int),
            (None, Some(length)) => Some(offset + length),
            (None, None) => None,
        }
    }
}

/// Whether an announced size, if any, can be a file position.
pub open spec fn size_fits(size: Option<int>) -> bool {
    size matches Some(size) ==> size <= u64::MAX
}

/// The size of the resource that a response announces.
pub open spec fn response_size(offset: u64, response: Response) -> Option<int> {
    announced_size(
        offset,
        response_status(response),
        range_length(response_fields(response)),
        content_length(response_fields(response)),
    )
}

/// Decide on a status that is no error status: the whole resource will do
/// only where it was requested from its first byte.
pub open spec fn status_verdict(offset: u64, status: u16) -> Result<(), FileError> {
    if status == OK {
        if offset != 0 {
            Err(FileError::NotSeekable)
        } else {
            Ok(())
        }
    } else if status != PARTIAL_CONTENT {
        Err(FileError::Status(HttpResponseStatusError(status)))
    } else {
        Ok(())
    }
}

/// Decide on a status that is no error status.
pub fn check_status(offset: u64, status: u16) -> (result: Result<(), FileError>)
    ensures
        result == status_verdict(offset, status),
{
    if status == OK {
        if offset != 0 {
            return Err(FileError::NotSeekable);
        }
    } else if status != PARTIAL_CONTENT {
        return Err(FileError::Status(HttpResponseStatusError(status)));
    }
    Ok(())
}

/// The size of the resource, from the numbers that a response announces.
pub fn combine_sizes(offset: u64, status: u16, range: Option<u64>, length: Option<u64>) -> (size:
    Option<u64>)
    requires
        status == OK || status == PARTIAL_CONTENT,
        size_fits(announced_size(offset, status, range, length)),
    ensures
        match announced_size(offset, status, range, length) {
            Some(announced) => size matches Some(size) && size == announced,
            None => size is None,
        },
{
    if status == OK {
        length
    } else {
        match range {
            Some(total) => Some(total),
            None => match length {
                Some(length) => Some(offset + length),
                None => None,
            },
        }
    }
}

/// The size of the resource that a response announces.
pub fn determine_size(offset: u64, response: &Response) -> (size: Option<u64>)
    requires
        response_status(*response) == OK || response_status(*response) == PARTIAL_CONTENT,
        size_fits(response_size(offset, *response)),
    ensures
        match response_size(offset, *response) {
            Some(announced) => size matches Some(size) && size == announced,
            None => size is None,
        },
{
    let headers = response.headers();
    combine_sizes(
        offset,
        status(response),
        parse_range_length(headers),
        parse_content_length(headers),
    )
}

/// Whether the size of the resource, from the numbers that a response announces,
/// can be a file position.
fn sizes_fit(offset: u64, status: u16, range: Option<u64>, length: Option<u64>) -> (fits: bool)
    ensures
        fits == size_fits(announced_size(offset, status, range, length)),
{
    if status == OK {
        return true;
    }
    match (range, length) {
        (None, Some(length)) => length <= u64::MAX - offset,
        _ => true,
    }
}

/// What becomes of the answer to a request for the resource from an offset on.
pub open spec fn response_verdict(offset: u64, response: Response) -> Result<(), FileError> {
    if is_error_status(response_status(response)) {
        Err(FileError::Http(status_error(response)))
    } else if status_verdict(offset, response_status(response)) is Err {
        status_verdict(offset, response_status(response))
    } else if !size_fits(response_size(offset, response)) {
        Err(FileError::SizeOverflow)
    } else {
        Ok(())
    }
}

/// What a response announces of the size of the resource.
pub open spec fn is_announcement(
    offset: u64,
    response: Response,
    announced: Option<Announcement>,
) -> bool {
    match response_size(offset, response) {
        Some(size) => {
            &&& announced matches Some(announced)
            &&& announced.size == size
            &&& announced.by_length == content_length(response_fields(response)) is Some
        },
        None => announced is None,
    }
}

/// Take the answer to a request for the resource from an offset on: the
/// response whose body starts at the offset, with the size of the resource
/// where the response announces it.
pub fn accept_response(offset: u64, result: Result<Response, reqwest::Error>) -> (accepted: Result<
    (Option<Announcement>, Response),
    FileError,
>)
    ensures
        match result {
            Err(error) => accepted == Err::<(Option<Announcement>, Response), FileError>(
                FileError::Http(error),
            ),
            Ok(response) => match response_verdict(offset, response) {
                Err(error) => accepted == Err::<(Option<Announcement>, Response), FileError>(
                    error,
                ),
                Ok(()) => {
                    &&& accepted matches Ok((announced, body))
                    &&& body == response
                    &&& is_announcement(offset, response, announced)
                },
            },
        },
        accepted matches Err(FileError::Status(HttpResponseStatusError(status))) ==> 100 <= status
            <= 999,
{
    let response = match result {
        Ok(response) => response,
        Err(error) => return Err(FileError::Http(error)),
    };
    let response = match response.error_for_status() {
        Ok(response) => response,
        Err(error) => return Err(FileError::Http(error)),
    };
    match check_status(offset, status(&response)) {
        Ok(()) => {},
        Err(error) => return Err(error),
    }
    let range = parse_range_length(response.headers());
    let length = parse_content_length(response.headers());
    if !sizes_fit(offset, status(&response), range, length) {
        return Err(FileError::SizeOverflow);
    }
    let announced = match determine_size(offset, &response) {
        Some(size) => Some(Announcement { size, by_length: length.is_some() }),
        None => None,
    };
    Ok((announced, response))
}

} // verus!
