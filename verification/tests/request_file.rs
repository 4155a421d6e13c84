//! Files over a simulated webserver, which answers requests without a network.

use futures_util::FutureExt;
use reqwest::{RequestBuilder, Response};
use reqwest_file::{
    accept_response, Action, Announcement, ErrorKind, FileError, Poll, RequestFile, SeekFrom,
    TemplateError, DEFAULT_FF_BUFFER, DEFAULT_FF_WINDOW,
};
use std::io::{Error as IoError, ErrorKind as IoErrorKind};

fn to_io_kind(kind: ErrorKind) -> IoErrorKind {
    match kind {
        ErrorKind::InvalidInput => IoErrorKind::InvalidInput,
        ErrorKind::Unsupported => IoErrorKind::Unsupported,
        ErrorKind::NotSeekable => IoErrorKind::NotSeekable,
        ErrorKind::Other => IoErrorKind::Other,
    }
}

fn to_io_error(error: FileError) -> IoError {
    match error {
        FileError::Http(error) => IoError::new(IoErrorKind::Other, error),
        FileError::Status(error) => IoError::new(IoErrorKind::Other, error.message()),
        error => to_io_kind(error.kind()).into(),
    }
}

/// The webserver: which resource it has, and how it answers.
#[derive(Clone)]
struct Server {
    data: String,
    content_length: bool,
    content_range: bool,
    status: u16,
    range_support: bool,
}

impl Server {
    fn new(data: &str) -> Server {
        Server {
            data: data.to_string(),
            content_length: false,
            content_range: false,
            status: 206,
            range_support: true,
        }
    }

    fn without_range_support() -> Server {
        Server { status: 200, range_support: false, ..Server::new("xyz") }
    }

    fn respond(&self, request: RequestBuilder) -> Response {
        let request = request.build().expect("invalid request");
        let ranges: Vec<&str> = request
            .headers()
            .get_all("range")
            .iter()
            .map(|value| value.to_str().unwrap())
            .collect();
        assert_eq!(ranges.len(), 1);
        let offset = ranges[0].strip_prefix("bytes=").unwrap().strip_suffix('-').unwrap();
        let offset = if self.range_support { offset.parse::<u64>().unwrap() } else { 0 };

        let data_len = self.data.len();
        let body = self.data.chars().skip(offset as usize).collect::<String>();
        let mut response = http::Response::builder().status(self.status);
        if self.content_range {
            let content_range = format!("bytes {offset}-{data_len}/{data_len}");
            response = response.header("Content-Range", content_range);
        }
        if self.content_length {
            response = response.header("Content-Length", body.len().to_string());
        }
        Response::from(response.body(body).unwrap())
    }
}

/// A response body that is delivered in chunks.
#[derive(Debug)]
struct Body {
    bytes: Vec<u8>,
    at: usize,
    chunk: usize,
    stalled: bool,
}

impl Body {
    /// Every other poll finds no data.
    fn poll(&mut self, len: usize) -> Poll<Vec<u8>> {
        self.stalled = !self.stalled;
        if self.stalled {
            return Poll::Pending;
        }
        let end = self.bytes.len().min(self.at + len.min(self.chunk));
        let data = self.bytes[self.at..end].to_vec();
        self.at = end;
        Poll::Ready(data)
    }
}

/// A response that arrives at the second poll.
#[derive(Debug)]
struct Answer {
    offset: u64,
    response: Option<Response>,
    polls: usize,
}

struct Session<const FF_WINDOW: u64, const FF_BUFFER: usize> {
    file: RequestFile<Answer, Body, FF_WINDOW, FF_BUFFER>,
    server: Server,
    chunk: usize,
    requests: usize,
    skips: Vec<usize>,
}

impl<const FF_WINDOW: u64, const FF_BUFFER: usize> Session<FF_WINDOW, FF_BUFFER> {
    fn with_size(server: Server, size: Option<u64>) -> Self {
        let request = reqwest::Client::new().get("http://example.com/");
        let file = match RequestFile::try_with_size(request, size) {
            Ok(file) => file,
            Err(error) => panic!("{error:?}"),
        };
        Session { file, server, chunk: 3, requests: 0, skips: Vec::new() }
    }

    fn new(server: Server) -> Self {
        Self::with_size(server, None)
    }

    fn poll_drive(&mut self) -> Poll<Result<(), IoError>> {
        loop {
            let poll = match self.file.project().poll_drive() {
                Action::Send { request, offset } => {
                    self.requests += 1;
                    let response = Some(self.server.respond(request));
                    self.file.project().drive_initial(Answer { offset, response, polls: 0 });
                    Poll::Ready(Ok(()))
                }
                Action::HeadersFull => panic!("too many headers"),
                Action::AwaitResponse(answer) => {
                    answer.polls += 1;
                    let poll = if answer.polls < 2 {
                        Poll::Pending
                    } else {
                        let response = answer.response.take().expect("polled after completion");
                        Poll::Ready(match accept_response(answer.offset, Ok(response)) {
                            Ok((size, response)) => {
                                let bytes = response.bytes().now_or_never().unwrap().unwrap();
                                let bytes = bytes.to_vec();
                                Ok((size, Body { bytes, at: 0, chunk: self.chunk, stalled: false }))
                            }
                            Err(error) => Err(to_io_error(error)),
                        })
                    };
                    self.file.project().poll_drive_pending(poll)
                }
                Action::Skip(reader, len) => {
                    let poll = match reader.poll(len) {
                        Poll::Ready(data) => {
                            self.skips.push(data.len());
                            Poll::Ready(Ok(data.len()))
                        }
                        Poll::Pending => Poll::Pending,
                    };
                    self.file.project().poll_drive_seeking(poll)
                }
                Action::Read(_) => return Poll::Ready(Ok(())),
            };
            match poll {
                Poll::Ready(Ok(())) => {}
                other => return other,
            }
        }
    }

    fn drive(&mut self) -> Result<(), IoError> {
        loop {
            if let Poll::Ready(result) = self.poll_drive() {
                return result;
            }
        }
    }

    fn complete(&mut self) -> Result<u64, IoError> {
        let drive = self.drive();
        match self.file.poll_complete(Poll::Ready(drive)) {
            Poll::Ready(result) => result,
            Poll::Pending => unreachable!(),
        }
    }

    fn seek(&mut self, position: SeekFrom) -> Result<u64, IoError> {
        self.complete()?;
        self.file.start_seek(position).map_err(to_io_error)?;
        self.complete()
    }

    fn prepare(&mut self) -> Result<(), IoError> {
        self.seek(SeekFrom::Current(0)).map(|_| ())
    }

    fn read(&mut self, len: usize) -> Result<Vec<u8>, IoError> {
        loop {
            self.drive()?;
            let read = match self.file.project().poll_drive() {
                Action::Read(reader) => reader.poll(len),
                _ => unreachable!(),
            };
            let filled: Poll<Result<usize, IoError>> = match &read {
                Poll::Ready(data) => Poll::Ready(Ok(7 + data.len())),
                Poll::Pending => Poll::Pending,
            };
            match (self.file.poll_read(7, filled), read) {
                (Poll::Ready(Ok(())), Poll::Ready(data)) => return Ok(data),
                (Poll::Pending, Poll::Pending) => {}
                _ => unreachable!(),
            }
        }
    }

    fn read_to_string(&mut self) -> Result<String, IoError> {
        let mut content = Vec::new();
        loop {
            let data = self.read(32)?;
            if data.is_empty() {
                return Ok(String::from_utf8(content).unwrap());
            }
            content.extend(data);
        }
    }
}

type DefaultSession = Session<DEFAULT_FF_WINDOW, DEFAULT_FF_BUFFER>;
type SmallSession = Session<2, 1>;

/// Seek to each position in turn, then read to the end.
fn check<const W: u64, const B: usize>(
    server: Server,
    seeks: &[(SeekFrom, Result<u64, IoErrorKind>)],
    expected: &str,
) {
    let mut session = Session::<W, B>::new(server);
    for (position, expected) in seeks {
        match (session.seek(*position), expected) {
            (Ok(position), Ok(expected)) => assert_eq!(position, *expected),
            (Err(error), Err(expected)) => assert_eq!(error.kind(), *expected),
            (result, _) => panic!("{result:?} != {expected:?}"),
        }
    }
    assert_eq!(session.read_to_string().expect("read error"), expected);
}

fn with_length(data: &str) -> Server {
    Server { content_length: true, ..Server::new(data) }
}

fn with_range(data: &str) -> Server {
    Server { content_range: true, ..Server::new(data) }
}

#[test]
fn test_read() {
    check::<DEFAULT_FF_WINDOW, DEFAULT_FF_BUFFER>(Server::new("abc"), &[], "abc");
}

#[test]
fn test_read_ff_window_2_ff_buffer_1() {
    check::<2, 1>(Server::new("abc"), &[], "abc");
}

#[test]
fn test_from_start_first() {
    let seeks = &[(SeekFrom::Start(0), Ok(0))];
    check::<DEFAULT_FF_WINDOW, DEFAULT_FF_BUFFER>(Server::new("abc"), seeks, "abc");
}

#[test]
fn test_from_start_first_ff_window_2_ff_buffer_1() {
    let seeks = &[(SeekFrom::Start(0), Ok(0))];
    check::<2, 1>(Server::new("abc"), seeks, "abc");
}

#[test]
fn test_from_start_middle() {
    let seeks = &[(SeekFrom::Start(3), Ok(3))];
    check::<DEFAULT_FF_WINDOW, DEFAULT_FF_BUFFER>(Server::new("abcde"), seeks, "de");
}

#[test]
fn test_from_start_middle_ff_window_2_ff_buffer_1() {
    let seeks = &[(SeekFrom::Start(3), Ok(3))];
    check::<2, 1>(Server::new("abcde"), seeks, "de");
}

#[test]
fn test_from_start_last() {
    let seeks = &[(SeekFrom::Start(4), Ok(4))];
    check::<DEFAULT_FF_WINDOW, DEFAULT_FF_BUFFER>(Server::new("abcd"), seeks, "");
}

#[test]
fn test_from_start_last_ff_window_2_ff_buffer_1() {
    let seeks = &[(SeekFrom::Start(4), Ok(4))];
    check::<2, 1>(Server::new("abcd"), seeks, "");
}

#[test]
fn test_from_start_beyond() {
    let seeks = &[(SeekFrom::Start(9), Ok(9))];
    check::<DEFAULT_FF_WINDOW, DEFAULT_FF_BUFFER>(Server::new("abcd"), seeks, "");
}

#[test]
fn test_from_start_beyond_ff_window_2_ff_buffer_1() {
    let seeks = &[(SeekFrom::Start(9), Ok(9))];
    check::<2, 1>(Server::new("abcd"), seeks, "");
}

#[test]
fn test_from_current_before() {
    let seeks = &[
        (SeekFrom::Start(3), Ok(3)),
        (SeekFrom::Current(-4), Err(IoErrorKind::InvalidInput)),
    ];
    check::<DEFAULT_FF_WINDOW, DEFAULT_FF_BUFFER>(Server::new("abcd"), seeks, "d");
}

#[test]
fn test_from_current_before_ff_window_2_ff_buffer_1() {
    let seeks = &[
        (SeekFrom::Start(3), Ok(3)),
        (SeekFrom::Current(-4), Err(IoErrorKind::InvalidInput)),
    ];
    check::<2, 1>(Server::new("abcd"), seeks, "d");
}

#[test]
fn test_from_current_first() {
    let seeks = &[(SeekFrom::Start(3), Ok(3)), (SeekFrom::Current(-3), Ok(0))];
    check::<DEFAULT_FF_WINDOW, DEFAULT_FF_BUFFER>(Server::new("abcd"), seeks, "abcd");
}

#[test]
fn test_from_current_first_ff_window_2_ff_buffer_1() {
    let seeks = &[(SeekFrom::Start(3), Ok(3)), (SeekFrom::Current(-3), Ok(0))];
    check::<2, 1>(Server::new("abcd"), seeks, "abcd");
}

#[test]
fn test_from_current_middle_backward() {
    let seeks = &[(SeekFrom::Start(4), Ok(4)), (SeekFrom::Current(-2), Ok(2))];
    check::<DEFAULT_FF_WINDOW, DEFAULT_FF_BUFFER>(Server::new("abcdef"), seeks, "cdef");
}

#[test]
fn test_from_current_middle_backward_ff_window_2_ff_buffer_1() {
    let seeks = &[(SeekFrom::Start(4), Ok(4)), (SeekFrom::Current(-2), Ok(2))];
    check::<2, 1>(Server::new("abcdef"), seeks, "cdef");
}

#[test]
fn test_from_current_middle_forward() {
    let seeks = &[(SeekFrom::Start(3), Ok(3)), (SeekFrom::Current(3), Ok(6))];
    check::<DEFAULT_FF_WINDOW, DEFAULT_FF_BUFFER>(Server::new("abcdefgh"), seeks, "gh");
}

#[test]
fn test_from_current_middle_forward_ff_window_2_ff_buffer_1() {
    let seeks = &[(SeekFrom::Start(3), Ok(3)), (SeekFrom::Current(3), Ok(6))];
    check::<2, 1>(Server::new("abcdefgh"), seeks, "gh");
}

#[test]
fn test_from_current_last() {
    let seeks = &[(SeekFrom::Start(3), Ok(3)), (SeekFrom::Current(3), Ok(6))];
    check::<DEFAULT_FF_WINDOW, DEFAULT_FF_BUFFER>(Server::new("abcd"), seeks, "");
}

#[test]
fn test_from_current_last_ff_window_2_ff_buffer_1() {
    let seeks = &[(SeekFrom::Start(3), Ok(3)), (SeekFrom::Current(3), Ok(6))];
    check::<2, 1>(Server::new("abcd"), seeks, "");
}

#[test]
fn test_from_current_beyond() {
    let seeks = &[(SeekFrom::Start(3), Ok(3)), (SeekFrom::Current(4), Ok(7))];
    check::<DEFAULT_FF_WINDOW, DEFAULT_FF_BUFFER>(Server::new("abcd"), seeks, "");
}

#[test]
fn test_from_current_beyond_ff_window_2_ff_buffer_1() {
    let seeks = &[(SeekFrom::Start(3), Ok(3)), (SeekFrom::Current(4), Ok(7))];
    check::<2, 1>(Server::new("abcd"), seeks, "");
}

#[test]
fn test_from_end_before() {
    let seeks = &[(SeekFrom::End(-6), Err(IoErrorKind::InvalidInput))];
    check::<DEFAULT_FF_WINDOW, DEFAULT_FF_BUFFER>(with_length("abcd"), seeks, "abcd");
}

#[test]
fn test_from_end_before_ff_window_2_ff_buffer_1() {
    let seeks = &[(SeekFrom::End(-6), Err(IoErrorKind::InvalidInput))];
    check::<2, 1>(with_length("abcd"), seeks, "abcd");
}

#[test]
fn test_from_end_first() {
    let seeks = &[(SeekFrom::End(-4), Ok(0))];
    check::<DEFAULT_FF_WINDOW, DEFAULT_FF_BUFFER>(with_range("abcd"), seeks, "abcd");
}

#[test]
fn test_from_end_first_ff_window_2_ff_buffer_1() {
    let seeks = &[(SeekFrom::End(-4), Ok(0))];
    check::<2, 1>(with_range("abcd"), seeks, "abcd");
}

#[test]
fn test_from_end_middle() {
    let seeks = &[(SeekFrom::End(-2), Ok(2))];
    check::<DEFAULT_FF_WINDOW, DEFAULT_FF_BUFFER>(with_length("abcd"), seeks, "cd");
}

#[test]
fn test_from_end_middle_ff_window_2_ff_buffer_1() {
    let seeks = &[(SeekFrom::End(-2), Ok(2))];
    check::<2, 1>(with_length("abcd"), seeks, "cd");
}

#[test]
fn test_from_end_last() {
    let seeks = &[(SeekFrom::End(0), Ok(4))];
    check::<DEFAULT_FF_WINDOW, DEFAULT_FF_BUFFER>(with_range("abcd"), seeks, "");
}

#[test]
fn test_from_end_last_ff_window_2_ff_buffer_1() {
    let seeks = &[(SeekFrom::End(0), Ok(4))];
    check::<2, 1>(with_range("abcd"), seeks, "");
}

#[test]
fn test_from_end_beyond() {
    let seeks = &[(SeekFrom::End(2), Ok(6))];
    check::<DEFAULT_FF_WINDOW, DEFAULT_FF_BUFFER>(with_length("abcd"), seeks, "");
}

#[test]
fn test_from_end_beyond_ff_window_2_ff_buffer_1() {
    let seeks = &[(SeekFrom::End(2), Ok(6))];
    check::<2, 1>(with_length("abcd"), seeks, "");
}

#[test]
fn test_from_end_uknown_size() {
    let seeks = &[(SeekFrom::End(2), Err(IoErrorKind::Unsupported))];
    check::<DEFAULT_FF_WINDOW, DEFAULT_FF_BUFFER>(Server::new("abc"), seeks, "abc");
}

#[test]
fn test_from_end_uknown_size_ff_window_2_ff_buffer_1() {
    let seeks = &[(SeekFrom::End(2), Err(IoErrorKind::Unsupported))];
    check::<2, 1>(Server::new("abc"), seeks, "abc");
}

#[test]
fn test_seek_at_initial_state() {
    let mut session = DefaultSession::new(Server::new("abc"));
    session.file.start_seek(SeekFrom::Start(4)).expect("start seek error");
    let pos = session.complete().expect("complete seek error");
    assert_eq!(pos, 4);
}

/// Test that the file supports reading the stream
/// when it is already at EOF.
#[test]
fn test_read_at_end() {
    let mut session = DefaultSession::new(Server::new("abc"));
    assert_eq!(session.read_to_string().expect("read error"), "abc");
    assert_eq!(session.read_to_string().expect("read error"), "");
}

#[test]
fn test_size_empty() {
    let mut session = DefaultSession::new(Server::new("abcd"));
    assert_eq!(session.file.size(), None);
    session.prepare().unwrap();
    assert_eq!(session.file.size(), None);
}

#[test]
fn test_size_from_content_length() {
    let data = "abcd";
    let mut session = DefaultSession::new(with_length(data));
    assert_eq!(session.file.size(), None);
    session.seek(SeekFrom::Start(2)).unwrap();
    assert_eq!(session.file.size(), Some(data.len() as u64));
}

#[test]
fn test_size_from_content_range() {
    let data = "abcd";
    let mut session = DefaultSession::new(with_range(data));
    assert_eq!(session.file.size(), None);
    session.seek(SeekFrom::Start(2)).unwrap();
    assert_eq!(session.file.size(), Some(data.len() as u64));
}

#[test]
#[should_panic(expected = "HTTP status client error (404 Not Found)")]
fn test_status_404() {
    let mut session = DefaultSession::new(Server { status: 404, ..Server::new("") });
    match session.prepare() {
        Ok(()) => unreachable!(),
        Err(e) => {
            assert_eq!(e.kind(), IoErrorKind::Other);
            if let Some(e) = e.into_inner() {
                panic!("{e}")
            } else {
                unreachable!()
            }
        }
    }
}

#[test]
#[should_panic(expected = "HTTP status error: 204 No Content")]
fn test_status_204_no_content() {
    let mut session = DefaultSession::new(Server { status: 204, ..Server::new("abc") });
    match session.prepare() {
        Ok(()) => unreachable!(),
        Err(e) => {
            assert_eq!(e.kind(), IoErrorKind::Other);
            if let Some(e) = e.into_inner() {
                panic!("{e}")
            } else {
                unreachable!()
            }
        }
    }
}

#[test]
fn test_read_no_range_support() {
    let mut session = DefaultSession::new(Server::without_range_support());
    session.seek(SeekFrom::Start(0)).expect("seek error");
    assert_eq!(session.read_to_string().expect("read error"), "xyz");
}

#[test]
#[should_panic(expected = "seek error: Kind(NotSeekable)")]
fn test_seek_no_range_support() {
    let mut session = DefaultSession::new(Server::without_range_support());
    // seek beyond the fastforward window
    session.seek(SeekFrom::Start(1_000_000_000)).expect("seek error");
}

#[test]
fn test_seek_current_overflow() {
    let mut session = DefaultSession::new(Server::new("abc"));
    let pos = session.seek(SeekFrom::Start(u64::MAX - 10)).expect("seek error");
    assert_eq!(pos, u64::MAX - 10);

    let pos = session.seek(SeekFrom::Current(20)).expect("seek error");
    assert_eq!(pos, u64::MAX);
}

#[test]
fn test_seek_end_overflow() {
    let mut session = DefaultSession::with_size(Server::new("abc"), Some(u64::MAX - 10));
    let pos = session.seek(SeekFrom::End(20)).expect("seek error");
    assert_eq!(pos, u64::MAX);
}

#[test]
fn test_reset() {
    let client = reqwest::Client::new();
    let request = client.get("http://example.com/");
    let mut file: RequestFile<Answer, Body, DEFAULT_FF_WINDOW, DEFAULT_FF_BUFFER> =
        RequestFile::new(request);
    file.reset();
}

/// The position counts every byte that is read, over several reads and seeks.
#[test]
fn reads_and_seeks_in_turn() {
    let mut session = DefaultSession::new(Server::new("hello world, hello file"));
    session.chunk = 5;
    assert_eq!(session.read(5).unwrap(), b"hello");
    assert_eq!(session.seek(SeekFrom::Current(1)).unwrap(), 6);
    assert_eq!(session.read(5).unwrap(), b"world");
    assert_eq!(session.seek(SeekFrom::Current(0)).unwrap(), 11);
    assert_eq!(session.read(2).unwrap(), b", ");
    assert_eq!(session.read(5).unwrap(), b"hello");
    assert_eq!(session.seek(SeekFrom::Current(1)).unwrap(), 19);
    assert_eq!(session.read_to_string().unwrap(), "file");
    assert_eq!(session.seek(SeekFrom::Current(0)).unwrap(), 23);
    assert_eq!(session.requests, 1);
}

#[test]
fn empty_read_keeps_position() {
    let mut session = DefaultSession::new(Server::new("abc"));
    session.read_to_string().unwrap();
    assert_eq!(session.read(4).unwrap(), b"");
    assert_eq!(session.seek(SeekFrom::Current(0)).unwrap(), 3);
}

#[test]
fn fast_forward_reads_in_buffers() {
    let mut session = Session::<6, 4>::new(Server::new("abcdefghij"));
    session.chunk = 3;
    session.prepare().unwrap();
    assert_eq!(session.seek(SeekFrom::Start(6)).unwrap(), 6);
    assert_eq!(session.skips, [3, 3]);
    session.chunk = 9;
    session.file.reset();
    assert_eq!(session.seek(SeekFrom::Start(6)).unwrap(), 6);
    assert_eq!(session.requests, 2);
    assert_eq!(session.read_to_string().unwrap(), "ghij");
}

#[test]
fn buffer_limits_a_skip() {
    let mut session = Session::<100, 4>::new(Server::new("abcdefghijkl"));
    session.chunk = 9;
    session.prepare().unwrap();
    assert_eq!(session.seek(SeekFrom::Current(9)).unwrap(), 9);
    assert_eq!(session.skips, [4, 4, 1]);
}

#[test]
fn window_limits_fast_forward() {
    let mut session = SmallSession::new(Server::new("abcdefgh"));
    session.prepare().unwrap();
    assert_eq!(session.seek(SeekFrom::Start(2)).unwrap(), 2);
    assert_eq!(session.requests, 1);
    assert_eq!(session.seek(SeekFrom::Start(5)).unwrap(), 5);
    assert_eq!(session.requests, 2);
    assert_eq!(session.seek(SeekFrom::Start(4)).unwrap(), 4);
    assert_eq!(session.requests, 3);
    assert_eq!(session.read_to_string().unwrap(), "efgh");
}

#[test]
fn fast_forward_needs_no_range_support() {
    let mut session = SmallSession::new(Server::without_range_support());
    session.prepare().unwrap();
    assert_eq!(session.seek(SeekFrom::Current(2)).unwrap(), 2);
    assert_eq!(session.read_to_string().unwrap(), "z");
    let error = session.seek(SeekFrom::Start(1)).unwrap_err();
    assert_eq!(error.kind(), IoErrorKind::NotSeekable);
}

#[test]
fn fast_forward_ends_at_eof() {
    let mut session = DefaultSession::new(Server::new("abcd"));
    session.prepare().unwrap();
    assert_eq!(session.seek(SeekFrom::Start(9)).unwrap(), 9);
    assert_eq!(session.skips, [3, 1, 0]);
    assert_eq!(session.requests, 1);
    assert_eq!(session.seek(SeekFrom::Start(1)).unwrap(), 1);
    assert_eq!(session.read_to_string().unwrap(), "bcd");
}

#[test]
fn new_seek_replaces_unfinished_fast_forward() {
    let mut session = DefaultSession::new(Server::new("abcdefghij"));
    session.prepare().unwrap();
    session.file.start_seek(SeekFrom::Start(8)).unwrap();
    assert!(matches!(session.poll_drive(), Poll::Pending));
    session.file.start_seek(SeekFrom::Start(3)).unwrap();
    assert_eq!(session.complete().unwrap(), 3);
    assert_eq!(session.requests, 2);
    assert_eq!(session.read_to_string().unwrap(), "defghij");
}

#[test]
fn seek_to_where_a_fast_forward_stands_lets_it_go_on() {
    let mut session = DefaultSession::new(Server::new("abcdefghij"));
    session.prepare().unwrap();
    session.file.start_seek(SeekFrom::Start(8)).unwrap();
    session.file.start_seek(SeekFrom::Start(0)).unwrap();
    assert_eq!(session.complete().unwrap(), 8);
}

#[test]
fn reset_sends_a_request_from_the_current_position() {
    let mut session = DefaultSession::new(Server::new("abcdef"));
    assert_eq!(session.read(2).unwrap(), b"ab");
    session.file.reset();
    match session.file.project().poll_drive() {
        Action::Send { offset, .. } => assert_eq!(offset, 2),
        other => panic!("{other:?}"),
    }
    assert_eq!(session.read_to_string().unwrap(), "cdef");
    assert_eq!(session.requests, 2);
}

#[test]
fn failed_response_needs_a_reset() {
    let mut session = DefaultSession::new(Server { status: 500, ..Server::new("abc") });
    let error = session.prepare().unwrap_err();
    assert!(error.to_string().contains("HTTP status server error (500 Internal Server Error)"));
    assert!(matches!(session.file.project().poll_drive(), Action::AwaitResponse(_)));
    session.server = Server::new("abc");
    session.file.reset();
    assert_eq!(session.read_to_string().unwrap(), "abc");
}

#[test]
fn content_length_overwrites_given_size() {
    let mut session = DefaultSession::with_size(with_length("abcd"), Some(100));
    assert_eq!(session.file.size(), Some(100));
    session.prepare().unwrap();
    assert_eq!(session.file.size(), Some(4));
    session.server = Server::new("abcd");
    session.seek(SeekFrom::Start(2)).unwrap();
    session.file.reset();
    session.prepare().unwrap();
    assert_eq!(session.file.size(), Some(4));
}

#[test]
fn content_range_alone_keeps_given_size() {
    let mut session = DefaultSession::with_size(with_range("abcd"), Some(100));
    session.prepare().unwrap();
    assert_eq!(session.file.size(), Some(100));
    assert_eq!(session.seek(SeekFrom::End(-1)).unwrap(), 99);
    session.server = Server { content_length: true, ..with_range("abcd") };
    assert_eq!(session.seek(SeekFrom::Start(1)).unwrap(), 1);
    assert_eq!(session.file.size(), Some(4));
    assert_eq!(session.seek(SeekFrom::End(-1)).unwrap(), 3);
}

#[test]
fn first_announced_size_is_kept() {
    for first in [with_length("abcd"), with_range("abcd")] {
        let mut session = DefaultSession::new(first);
        session.prepare().unwrap();
        assert_eq!(session.file.size(), Some(4));
        for later in [with_length("abcdef"), with_range("abcdef"), Server::new("abcdef")] {
            session.server = later;
            session.file.reset();
            session.prepare().unwrap();
            assert_eq!(session.file.size(), Some(4));
        }
    }
}

/// Beyond the end there is nothing to read, however the file got there, and
/// the way back leads to the content again.
#[test]
fn nothing_is_read_beyond_the_end() {
    let mut session = SmallSession::new(Server::new("abcd"));
    assert_eq!(session.seek(SeekFrom::Start(3)).unwrap(), 3);
    assert_eq!(session.seek(SeekFrom::Current(2)).unwrap(), 5);
    assert_eq!(session.requests, 2);
    assert_eq!(session.read(4).unwrap(), b"");
    assert_eq!(session.seek(SeekFrom::Current(1)).unwrap(), 6);
    assert_eq!(session.requests, 2);
    assert_eq!(session.read_to_string().unwrap(), "");
    assert_eq!(session.seek(SeekFrom::Current(3)).unwrap(), 9);
    assert_eq!(session.requests, 3);
    assert_eq!(session.read_to_string().unwrap(), "");
    assert_eq!(session.seek(SeekFrom::Current(-7)).unwrap(), 2);
    assert_eq!(session.read_to_string().unwrap(), "cd");
}

#[test]
fn refused_seek_changes_nothing() {
    let mut session = DefaultSession::new(Server::new("abcd"));
    session.seek(SeekFrom::Start(2)).unwrap();
    assert!(matches!(
        session.file.start_seek(SeekFrom::Current(-3)),
        Err(FileError::InvalidInput)
    ));
    assert!(matches!(session.file.start_seek(SeekFrom::End(0)), Err(FileError::Unsupported)));
    assert_eq!(session.seek(SeekFrom::Current(0)).unwrap(), 2);
    assert_eq!(session.requests, 1);
}

#[test]
fn read_error_keeps_position() {
    let request = reqwest::Client::new().get("http://example.com/");
    let mut file: RequestFile<u8, u8, 10, 4> = RequestFile::new(request);
    file.project().drive_initial(1);
    assert!(matches!(
        file.project().poll_drive_pending(Poll::Ready(Ok::<_, &str>((None, 2)))),
        Poll::Ready(Ok(()))
    ));
    assert!(matches!(file.poll_read(3, Poll::Ready(Ok::<_, &str>(8))), Poll::Ready(Ok(()))));
    assert!(matches!(
        file.poll_read(3, Poll::Ready(Err("broken"))),
        Poll::Ready(Err("broken"))
    ));
    file.start_seek(SeekFrom::Current(6)).unwrap();
    assert!(matches!(
        file.project().poll_drive_seeking(Poll::Ready(Ok::<_, &str>(4))),
        Poll::Ready(Ok(()))
    ));
    assert!(matches!(
        file.project().poll_drive_seeking(Poll::Ready(Err("broken"))),
        Poll::Ready(Err("broken"))
    ));
    match file.project().poll_drive() {
        Action::Skip(reader, len) => assert_eq!((*reader, len), (2, 2)),
        other => panic!("{other:?}"),
    }
    assert!(matches!(
        file.project().poll_drive_seeking(Poll::Ready(Ok::<_, &str>(2))),
        Poll::Ready(Ok(()))
    ));
    assert!(matches!(
        file.poll_complete(Poll::Ready(Ok::<_, &str>(()))),
        Poll::Ready(Ok(11))
    ));
    assert!(matches!(
        file.poll_complete(Poll::Ready(Err("broken"))),
        Poll::Ready(Err("broken"))
    ));
}

#[test]
fn events_out_of_turn_change_nothing() {
    let request = reqwest::Client::new().get("http://example.com/");
    let mut file: RequestFile<u8, u8, 10, 4> = RequestFile::new(request);
    assert!(matches!(
        file.project().poll_drive_pending(Poll::Ready(Ok::<_, &str>((
            Some(Announcement { size: 9, by_length: true }),
            2
        )))),
        Poll::Ready(Ok(()))
    ));
    assert!(matches!(
        file.project().poll_drive_seeking(Poll::Ready(Ok::<_, &str>(3))),
        Poll::Ready(Ok(()))
    ));
    assert_eq!(file.size(), None);
    file.project().drive_initial(1);
    file.project().drive_initial(7);
    assert!(matches!(file.project().poll_drive(), Action::AwaitResponse(1)));
}

#[test]
fn range_header_is_added_to_the_template() {
    let request = reqwest::Client::new()
        .get("http://example.com/path")
        .header("Accept", "text/plain");
    let mut file: RequestFile<u8, u8, 10, 4> = RequestFile::new(request);
    file.start_seek(SeekFrom::Start(1234567890)).unwrap();
    match file.project().poll_drive() {
        Action::Send { request, offset } => {
            let request = request.build().unwrap();
            assert_eq!(offset, 1234567890);
            assert_eq!(request.url().as_str(), "http://example.com/path");
            assert_eq!(request.headers().len(), 2);
            assert_eq!(request.headers()["accept"], "text/plain");
            assert_eq!(request.headers()["range"], "bytes=1234567890-");
        }
        other => panic!("{other:?}"),
    };
}

fn template_error(request: RequestBuilder) -> Option<TemplateError> {
    RequestFile::<u8, u8, 10, 4>::try_with_size(request, None).err()
}

#[test]
fn templates_are_checked() {
    let client = reqwest::Client::new();
    assert_eq!(template_error(client.get("http://example.com/")), None);
    assert_eq!(template_error(client.get("http://example.com/").body("text")), None);
    assert_eq!(
        template_error(client.get("http://example.com/").header("Range", "bytes=0-")),
        Some(TemplateError::RangeSet)
    );
    assert_eq!(template_error(client.get("no url")), Some(TemplateError::Unclonable));
    let stream = futures_util::stream::iter([Ok::<_, IoError>("text")]);
    let body = reqwest::Body::wrap_stream(stream);
    assert_eq!(
        template_error(client.get("http://example.com/").body(body)),
        Some(TemplateError::Unclonable)
    );
}

fn field_name(i: usize) -> reqwest::header::HeaderName {
    reqwest::header::HeaderName::from_bytes(format!("x-{i}").as_bytes()).unwrap()
}

#[test]
fn templates_may_have_many_headers() {
    let mut headers = reqwest::header::HeaderMap::new();
    for i in 0..10000 {
        headers.insert(field_name(i), reqwest::header::HeaderValue::from_static("1"));
    }
    let request = reqwest::Client::new().get("http://example.com/").headers(headers);
    let mut file = RequestFile::<u8, u8, 10, 4>::try_with_size(request, None).unwrap();
    match file.project().poll_drive() {
        Action::Send { request, .. } => {
            let request = request.build().unwrap();
            assert_eq!(request.headers().keys_len(), 10001);
            assert_eq!(request.headers()["range"], "bytes=0-");
            assert_eq!(request.headers()["x-9999"], "1");
        }
        other => panic!("{other:?}"),
    }
}

#[test]
fn full_templates_have_no_room_for_the_range_header() {
    let mut headers = reqwest::header::HeaderMap::new();
    while let Ok(None) = headers.try_insert(
        field_name(headers.len()),
        reqwest::header::HeaderValue::from_static("1"),
    ) {}
    let request = reqwest::Client::new().get("http://example.com/").headers(headers);
    let mut file = RequestFile::<u8, u8, 10, 4>::try_with_size(request, None).unwrap();
    assert!(matches!(file.project().poll_drive(), Action::HeadersFull));
    file.start_seek(SeekFrom::Start(5)).unwrap();
    assert!(matches!(file.project().poll_drive(), Action::HeadersFull));
}
