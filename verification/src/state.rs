//! The states of a file, and what seeking, responding and reading do to them.

use reqwest::RequestBuilder;
use vstd::prelude::*;

use crate::error::FileError;
use crate::request::template_verdict;

verus! {

/// What polling an asynchronous operation gives.
#[derive(Debug)]
pub enum Poll<T> {
    /// The operation is not finished yet.
    Pending,
    /// The operation is finished, with this value.
    Ready(T),
}

/// A file position to seek to.
#[derive(Clone, Copy, Debug, PartialEq, Eq, Structural)]
pub enum SeekFrom {
    /// This many bytes from the start of the file.
    Start(u64),
    /// This many bytes from the end of the file.
    End(i64),
    /// This many bytes from the current position.
    Current(i64),
}

/// The size of the resource that a response announces.
#[derive(Clone, Copy, Debug, PartialEq, Eq, Structural)]
pub struct Announcement {
    /// The size.
    pub size: u64,
    /// Whether the response gives a length by a `Content-Length` header, and does
    /// not announce the size by `Content-Range` alone.
    pub by_length: bool,
}

/// What is known of the size of a resource.
#[derive(Clone, Copy, Debug, PartialEq, Eq, Structural)]
pub enum KnownSize {
    /// Nothing is known.
    Unknown,
    /// The size was given when the file was created.
    Given(u64),
    /// The size was announced by a response.
    Announced(u64),
}

impl KnownSize {
    /// The size, if it is known.
    pub open spec fn value(self) -> Option<u64> {
        match self {
            KnownSize::Unknown => None,
            KnownSize::Given(size) => Some(size),
            KnownSize::Announced(size) => Some(size),
        }
    }

    /// What is known if this size, if any, is given when the file is created.
    pub open spec fn given(size: Option<u64>) -> Self {
        match size {
            Some(size) => KnownSize::Given(size),
            None => KnownSize::Unknown,
        }
    }

    /// What is known after a response: the first size that is known is kept,
    /// unless it was given when the file was created. Then it is overwritten by
    /// a response with a `Content-Length` header.
    pub open spec fn updated(self, announced: Option<Announcement>) -> Self {
        match (self, announced) {
            (KnownSize::Unknown, Some(announced)) => KnownSize::Announced(announced.size),
            (KnownSize::Given(_), Some(announced)) => if announced.by_length {
                KnownSize::Announced(announced.size)
            } else {
                self
            },
            _ => self,
        }
    }

    /// The size, if it is known.
    pub fn get(&self) -> (size: Option<u64>)
        ensures
            size == self.value(),
    {
        match *self {
            KnownSize::Unknown => None,
            KnownSize::Given(size) => Some(size),
            KnownSize::Announced(size) => Some(size),
        }
    }

    /// Take note of the size that a response announces.
    pub fn update(&mut self, announced: Option<Announcement>)
        ensures
            *final(self) == old(self).updated(announced),
    {
        if let Some(announced) = announced {
            let overwrite = match *self {
                KnownSize::Unknown => true,
                KnownSize::Given(_) => announced.by_length,
                KnownSize::Announced(_) => false,
            };
            if overwrite {
                *self = KnownSize::Announced(announced.size);
            }
        }
    }
}

/// State of the request file, with futures of type `P` that give the response
/// and readers of type `R` that give the response body.
#[derive(Debug)]
pub enum State<P, R> {
    /// The initial state, before a request is sent.
    Initial,
    /// The request is being sent.
    Pending(P),
    /// The request is finished, the response stream is ready.
    Ready(R),
    /// The response body is fast-forward seeking, by this many bytes.
    Seeking(R, u64),
    /// This state never persists after a function call, it exists solely to
    /// move a reader from one state to another.
    Transient,
}

/// What a file is, as seen by its contracts.
#[verifier::ext_equal]
pub struct FileModel<P, R> {
    /// The request template.
    pub template: RequestBuilder,
    /// The state of the HTTP request.
    pub state: State<P, R>,
    /// What is known of the size of the resource.
    pub size: KnownSize,
    /// The current position in the resource.
    pub position: u64,
}

/// What happens to a file.
pub enum Event<P, R> {
    /// A seek is started.
    Seek(SeekFrom),
    /// The file is reset.
    Reset,
    /// The request is sent, which gives this future.
    Sent(P),
    /// The future is polled, which leaves it like this.
    Awaited(P),
    /// The response arrives, announces this size, and has this body.
    Arrived(Option<Announcement>, R),
    /// The reader is polled, which leaves it like this.
    Polled(R),
    /// A read of a fast-forward gives this many bytes.
    Skipped(nat),
    /// A read gives this many bytes.
    Read(nat),
}

/// The position at a distance from another one. Positions beyond the largest
/// one wrap to the largest, and there are none before the first byte.
pub open spec fn position_at(base: u64, delta: i64) -> Result<u64, FileError> {
    if base + delta < 0 {
        Err(FileError::InvalidInput)
    } else if base + delta > u64::MAX {
        Ok(u64::MAX)
    } else {
        Ok((base + delta) as u64)
    }
}

impl<P, R> FileModel<P, R> {
    /// What holds of every file between two calls, where `window` limits how
    /// much can be fast-forwarded.
    pub open spec fn wf(self, window: u64) -> bool {
        &&& template_verdict(self.template) is Ok
        &&& self.state !is Transient
        &&& self.state matches State::Seeking(_, delta) ==> {
            &&& 0 < delta <= window
            &&& self.position + delta <= u64::MAX
        }
    }

    /// The position that the file has once all that is under way is finished.
    pub open spec fn target(self) -> int {
        match self.state {
            State::Seeking(_, delta) => self.position + delta,
            _ => self.position as int,
        }
    }

    /// The absolute position of a seek.
    pub open spec fn resolved(self, position: SeekFrom) -> Result<u64, FileError> {
        match position {
            SeekFrom::Start(position) => Ok(position),
            SeekFrom::End(delta) => match self.size.value() {
                Some(size) => position_at(size, delta),
                None => Err(FileError::Unsupported),
            },
            SeekFrom::Current(delta) => position_at(self.position, delta),
        }
    }

    /// Whether a seek to a position reads on in the response body: it goes
    /// forward by no more than the window, and there is a body to read.
    pub open spec fn is_fast_forward(self, window: u64, position: u64) -> bool {
        &&& self.position < position
        &&& position - self.position <= window
        &&& self.state is Ready
    }

    /// The file after a seek to an absolute position was started.
    pub open spec fn after_seek(self, window: u64, position: u64) -> Self {
        if self.position == position {
            self
        } else if self.is_fast_forward(window, position) {
            FileModel {
                state: State::Seeking(self.state->Ready_0, (position - self.position) as u64),
                ..self
            }
        } else {
            FileModel { state: State::Initial, position, ..self }
        }
    }

    /// The file after the request for its content was sent.
    pub open spec fn after_send(self, future: P) -> Self {
        FileModel { state: State::Pending(future), ..self }
    }

    /// The file after the response arrived, where `size` is the size of the
    /// resource that the response announces.
    pub open spec fn after_response(self, size: Option<Announcement>, reader: R) -> Self {
        FileModel { state: State::Ready(reader), size: self.size.updated(size), ..self }
    }

    /// The file after a fast-forward read `count` bytes of the body, where no
    /// bytes at all are the end of the body: the seek is over then, although
    /// the position may lie beyond the end.
    pub open spec fn after_skip(self, count: nat) -> Self {
        match self.state {
            State::Seeking(reader, delta) => if count == 0 || count == delta {
                FileModel {
                    state: State::Ready(reader),
                    position: (self.position + delta) as u64,
                    ..self
                }
            } else {
                FileModel {
                    state: State::Seeking(reader, (delta - count) as u64),
                    position: (self.position + count) as u64,
                    ..self
                }
            },
            _ => self,
        }
    }

    /// The file after `count` bytes were read from it.
    pub open spec fn after_read(self, count: nat) -> Self {
        FileModel {
            position: if self.position + count > u64::MAX {
                u64::MAX
            } else {
                (self.position + count) as u64
            },
            ..self
        }
    }

    /// The file after it was told to send a new request.
    pub open spec fn after_reset(self) -> Self {
        FileModel { state: State::Initial, ..self }
    }

    /// The file after an event.
    pub open spec fn step(self, window: u64, event: Event<P, R>) -> Self {
        match event {
            Event::Seek(position) => match self.resolved(position) {
                Ok(position) => self.after_seek(window, position),
                Err(_) => self,
            },
            Event::Reset => self.after_reset(),
            Event::Sent(future) => if self.state is Initial {
                self.after_send(future)
            } else {
                self
            },
            Event::Awaited(future) => match self.state {
                State::Pending(_) => FileModel { state: State::Pending(future), ..self },
                _ => self,
            },
            Event::Arrived(size, reader) => if self.state is Pending {
                self.after_response(size, reader)
            } else {
                self
            },
            Event::Polled(reader) => match self.state {
                State::Ready(_) => FileModel { state: State::Ready(reader), ..self },
                State::Seeking(_, delta) => FileModel {
                    state: State::Seeking(reader, delta),
                    ..self
                },
                _ => self,
            },
            Event::Skipped(count) => self.after_skip(count),
            Event::Read(count) => self.after_read(count),
        }
    }
}

} // verus!
