//! The file-like interface to a web resource.

use reqwest::RequestBuilder;
use vstd::prelude::*;

use crate::error::FileError;
use crate::request::{
    check_template, is_range_request, range_request, template_fields, template_has_room,
    template_verdict, TemplateError, MAX_FIELDS,
};
use crate::state::{
    position_at, Announcement, Event, FileModel, KnownSize, Poll, SeekFrom, State,
};

verus! {

/// The maximum fast-forward read length.
pub const DEFAULT_FF_WINDOW: u64 = 128 * 1024;

/// The size of the fast-forward read buffer.
pub const DEFAULT_FF_BUFFER: usize = 4096;

/// What is left to do before a file can be read.
#[derive(Debug)]
pub enum Action<'a, P, R> {
    /// Send this request, which asks for the resource from the offset on,
    /// and call [`RequestFileProjection::drive_initial`] with the future
    /// response.
    Send {
        /// The request.
        request: RequestBuilder,
        /// The position of the first byte that the request asks for.
        offset: u64,
    },
    /// The request cannot be sent: its template has so many headers that there
    /// is no room for a `Range` header.
    HeadersFull,
    /// Poll this future for the response, and call
    /// [`RequestFileProjection::poll_drive_pending`] with what it gives.
    AwaitResponse(&'a mut P),
    /// Read up to this many bytes from this reader, throw them away, and call
    /// [`RequestFileProjection::poll_drive_seeking`] with how many they were.
    Skip(&'a mut R, usize),
    /// Nothing: this is the reader at the current position. Read from it, and
    /// call [`RequestFile::poll_read`] with what that gives.
    Read(&'a mut R),
}

/// Take note of one read of a fast-forward by `delta` bytes,
/// returning how many bytes were read and remain to be read.
///
/// The third part is `None` if the fast-forward goes on.
/// It is `Ok` if the fast-forward is complete, or if EOF is reached
/// (at the first empty read).
pub fn fastforward<E>(delta: u64, read: Poll<Result<usize, E>>) -> (result: (
    u64,
    u64,
    Option<Poll<Result<(), E>>>,
))
    requires
        delta > 0,
        read matches Poll::Ready(Ok(count)) ==> count <= delta,
    ensures
        match read {
            Poll::Ready(Ok(count)) => {
                &&& result.0 == count
                &&& result.1 == delta - count
                &&& result.2 == if count == 0 || count == delta {
                    Some(Poll::Ready(Ok::<(), E>(())))
                } else {
                    None
                }
            },
            Poll::Ready(Err(error)) => {
                &&& result.0 == 0
                &&& result.1 == delta
                &&& result.2 == Some(Poll::Ready(Err::<(), E>(error)))
            },
            Poll::Pending => {
                &&& result.0 == 0
                &&& result.1 == delta
                &&& result.2 == Some(Poll::<Result<(), E>>::Pending)
            },
        },
{
    match read {
        Poll::Ready(Ok(count)) => {
            let remaining: u64 = delta - count as u64;
            if count == 0 || remaining == 0 {
                (count as u64, remaining, Some(Poll::Ready(Ok(()))))
            } else {
                (count as u64, remaining, None)
            }
        },
        Poll::Ready(Err(error)) => (0, delta, Some(Poll::Ready(Err(error)))),
        Poll::Pending => (0, delta, Some(Poll::Pending)),
    }
}

/// The most that one read of a fast-forward takes: what remains to be read,
/// as far as it fits in a buffer of this size.
pub open spec fn skip_len(remaining: u64, buffer: usize) -> usize {
    if remaining < buffer {
        remaining as usize
    } else {
        buffer
    }
}

/// File-like interface to a web resource.
///
/// Seeking is implemented as sending out a new request with a `Range` header.
/// All http requests made by this type include this header.
///
/// If the webserver does not support range requests, seeking to anything other
/// than the start of the file will return a `NotSeekable` error
/// (excluding fast-forwards).
///
/// Seeking forward by no more than `FF_WINDOW` bytes will not perform a new
/// request, but rather fast-forward through the response body, in reads of at
/// most `FF_BUFFER` bytes.
///
/// The file decides what to do, and leaves it to its user to do it:
/// [`RequestFileProjection::poll_drive`] tells what has to be done next, until
/// the file is ready to be read.
#[derive(Debug)]
pub struct RequestFile<P, R, const FF_WINDOW: u64, const FF_BUFFER: usize> {
    /// The request template.
    request: RequestBuilder,
    /// The state of the HTTP request.
    state: State<P, R>,
    /// Track the size of the response body.
    size_: KnownSize,
    /// Track the current position in the response body.
    position: u64,
}

impl<P, R, const FF_WINDOW: u64, const FF_BUFFER: usize> View for RequestFile<
    P,
    R,
    FF_WINDOW,
    FF_BUFFER,
> {
    type V = FileModel<P, R>;

    closed spec fn view(&self) -> FileModel<P, R> {
        FileModel {
            template: self.request,
            state: self.state,
            size: self.size_,
            position: self.position,
        }
    }
}

impl<P, R, const FF_WINDOW: u64, const FF_BUFFER: usize> RequestFile<P, R, FF_WINDOW, FF_BUFFER> {
    /// What holds of every file between two calls.
    pub open spec fn wf(self) -> bool {
        self@.wf(FF_WINDOW)
    }

    /// Create a new file-like object for a web resource.
    ///
    /// The request is one that [`RequestFile::try_with_size`] accepts.
    pub fn new(request: RequestBuilder) -> (file: Self)
        requires
            template_verdict(request) is Ok,
        ensures
            file.wf(),
            file@ == (FileModel::<P, R> {
                template: request,
                state: State::Initial,
                size: KnownSize::Unknown,
                position: 0,
            }),
    {
        Self::with_size(request, None)
    }

    /// Create a new file-like object for a web resource.
    ///
    /// This function allows you to set the response body size
    /// if you happen to know it before performing the request.
    ///
    /// If the response specifies a different size using the `Content-Length`
    /// header, the value given here is overwritten.
    ///
    /// The request is one that [`RequestFile::try_with_size`] accepts.
    pub fn with_size(request: RequestBuilder, size: Option<u64>) -> (file: Self)
        requires
            template_verdict(request) is Ok,
        ensures
            file.wf(),
            file@ == (FileModel::<P, R> {
                template: request,
                state: State::Initial,
                size: KnownSize::given(size),
                position: 0,
            }),
    {
        let size_ = match size {
            Some(size) => KnownSize::Given(size),
            None => KnownSize::Unknown,
        };
        RequestFile { request, state: State::Initial, size_, position: 0 }
    }

    /// Create a new file-like object for a web resource, if the request can
    /// serve as its template: it is valid, and has neither a streaming body nor a
    /// `Range` header.
    pub fn try_with_size(request: RequestBuilder, size: Option<u64>) -> (result: Result<
        Self,
        TemplateError,
    >)
        ensures
            match template_verdict(request) {
                Ok(()) => {
                    &&& result matches Ok(file)
                    &&& file.wf()
                    &&& file@ == (FileModel::<P, R> {
                        template: request,
                        state: State::Initial,
                        size: KnownSize::given(size),
                        position: 0,
                    })
                },
                Err(error) => result == Err::<Self, TemplateError>(error),
            },
    {
        match check_template(&request) {
            Ok(()) => Ok(Self::with_size(request, size)),
            Err(error) => Err(error),
        }
    }

    /// Check the size of this file, which may be unknown.
    pub fn size(&self) -> (size: Option<u64>)
        ensures
            size == self@.size.value(),
    {
        self.size_.get()
    }

    /// Force a new HTTP request to begin,
    /// without changing the current position.
    ///
    /// This method can be used if the request is broken
    /// in a way that can be fixed by restarting it,
    /// for example due to a transient network issue.
    pub fn reset(&mut self)
        requires
            old(self).wf(),
        ensures
            final(self).wf(),
            final(self)@ == old(self)@.step(FF_WINDOW, Event::Reset),
    {
        self.state = State::Initial;
    }

    /// Access the file to drive the state of its request.
    pub fn project(&mut self) -> (this: RequestFileProjection<'_, P, R, FF_WINDOW, FF_BUFFER>)
        ensures
            *this.file == *old(self),
            *final(this.file) == *final(self),
    {
        RequestFileProjection { file: self }
    }

    /// Start a seek. It is finished once the file is driven to a reader.
    pub fn start_seek(&mut self, position: SeekFrom) -> (result: Result<(), FileError>)
        requires
            old(self).wf(),
        ensures
            final(self).wf(),
            final(self)@ == old(self)@.step(FF_WINDOW, Event::Seek(position)),
            match old(self)@.resolved(position) {
                Ok(_) => result == Ok::<(), FileError>(()),
                Err(error) => {
                    &&& result == Err::<(), FileError>(error)
                    &&& final(self)@ == old(self)@
                },
            },
    {
        let initial_position: u64 = self.position;
        let final_position: u64 = match self.project().resolve_seek_position(position) {
            Ok(position) => position,
            Err(error) => return Err(error),
        };
        if initial_position != final_position {
            let delta_forward: u64 = final_position.saturating_sub(initial_position);
            if 0 < delta_forward && delta_forward <= FF_WINDOW {
                // seeking forwards by a small leap
                let mut state = State::Transient;
                std::mem::swap(&mut state, &mut self.state);
                match state {
                    State::Ready(reader) => {
                        self.state = State::Seeking(reader, delta_forward);
                    },
                    _ => {
                        self.position = final_position;
                        self.state = State::Initial;
                    },
                }
            } else {
                // seeking backwards or a large leap forwards
                self.position = final_position;
                self.state = State::Initial;
            }
        }
        Ok(())
    }

    /// Finish a read, where `read` is what reading into a buffer gave: how much
    /// of the buffer is filled, after `initial_size` bytes were before.
    pub fn poll_read<E>(&mut self, initial_size: usize, read: Poll<Result<usize, E>>) -> (poll:
        Poll<Result<(), E>>)
        requires
            old(self).wf(),
            old(self)@.state is Ready,
            read matches Poll::Ready(Ok(filled)) ==> initial_size <= filled,
        ensures
            final(self).wf(),
            match read {
                Poll::Ready(Ok(filled)) => {
                    &&& poll == Poll::Ready(Ok::<(), E>(()))
                    &&& final(self)@ == old(self)@.step(
                        FF_WINDOW,
                        Event::Read((filled - initial_size) as nat),
                    )
                },
                Poll::Ready(Err(error)) => {
                    &&& poll == Poll::Ready(Err::<(), E>(error))
                    &&& final(self)@ == old(self)@
                },
                Poll::Pending => {
                    &&& poll == Poll::<Result<(), E>>::Pending
                    &&& final(self)@ == old(self)@
                },
            },
    {
        match read {
            Poll::Ready(Ok(filled)) => {
                let delta: usize = filled - initial_size;
                self.position = self.position.saturating_add(delta as u64);
                Poll::Ready(Ok(()))
            },
            Poll::Ready(Err(error)) => Poll::Ready(Err(error)),
            Poll::Pending => Poll::Pending,
        }
    }

    /// Finish a seek, where `drive` is what driving the state gave: the seek
    /// gives the current position.
    pub fn poll_complete<E>(&self, drive: Poll<Result<(), E>>) -> (poll: Poll<Result<u64, E>>)
        ensures
            poll == match drive {
                Poll::Ready(Ok(())) => Poll::Ready(Ok::<u64, E>(self@.position)),
                Poll::Ready(Err(error)) => Poll::Ready(Err::<u64, E>(error)),
                Poll::Pending => Poll::Pending,
            },
    {
        match drive {
            Poll::Ready(Ok(())) => Poll::Ready(Ok(self.position)),
            Poll::Ready(Err(error)) => Poll::Ready(Err(error)),
            Poll::Pending => Poll::Pending,
        }
    }
}

/// Exclusive access to a file, to drive the state of its request.
#[derive(Debug)]
pub struct RequestFileProjection<'a, P, R, const FF_WINDOW: u64, const FF_BUFFER: usize> {
    /// The file.
    pub file: &'a mut RequestFile<P, R, FF_WINDOW, FF_BUFFER>,
}

impl<'a, P, R, const FF_WINDOW: u64, const FF_BUFFER: usize> RequestFileProjection<
    'a,
    P,
    R,
    FF_WINDOW,
    FF_BUFFER,
> {
    /// The position at a distance from another one.
    fn offset_position(base: u64, delta: i64) -> (position: Result<u64, FileError>)
        ensures
            position == position_at(base, delta),
    {
        match base.checked_add_signed(delta) {
            Some(position) => Ok(position),
            None => if delta > 0 {
                // seek overflow; wrap to maximum
                Ok(u64::MAX)
            } else {
                // seek to negative position
                Err(FileError::InvalidInput)
            },
        }
    }

    /// Compute the absolute seek position.
    pub fn resolve_seek_position(&self, position: SeekFrom) -> (resolved: Result<u64, FileError>)
        ensures
            resolved == old(self.file)@.resolved(position),
    {
        match position {
            SeekFrom::Start(position) => Ok(position),
            SeekFrom::End(delta) => match self.file.size_.get() {
                Some(size) => Self::offset_position(size, delta),
                // size not known
                None => Err(FileError::Unsupported),
            },
            SeekFrom::Current(delta) => Self::offset_position(self.file.position, delta),
        }
    }

    /// Tell what has to be done next to drive the state to `State::Ready`.
    pub fn poll_drive(self) -> (action: Action<'a, P, R>)
        requires
            old(self.file).wf(),
        ensures
            final(self.file).wf(),
            match old(self.file)@.state {
                State::Initial => {
                    &&& match action {
                        Action::Send { request, offset } => {
                            &&& template_has_room(old(self.file)@.template)
                            &&& offset == old(self.file)@.position
                            &&& is_range_request(old(self.file)@.template, offset, request)
                        },
                        Action::HeadersFull => {
                            &&& !template_has_room(old(self.file)@.template)
                            &&& template_fields(old(self.file)@.template).dom().len() > MAX_FIELDS
                        },
                        _ => false,
                    }
                    &&& final(self.file)@ == old(self.file)@
                },
                State::Pending(pending) => {
                    &&& action matches Action::AwaitResponse(future)
                    &&& *future == pending
                    &&& final(self.file)@ == old(self.file)@.step(
                        FF_WINDOW,
                        Event::Awaited(*final(future)),
                    )
                },
                State::Seeking(body, delta) => {
                    &&& action matches Action::Skip(reader, len)
                    &&& *reader == body
                    &&& len == skip_len(delta, FF_BUFFER)
                    &&& FF_BUFFER > 0 ==> 0 < len
                    &&& len <= delta
                    &&& len <= FF_BUFFER
                    &&& len == delta || len == FF_BUFFER
                    &&& final(self.file)@ == old(self.file)@.step(
                        FF_WINDOW,
                        Event::Polled(*final(reader)),
                    )
                },
                State::Ready(body) => {
                    &&& action matches Action::Read(reader)
                    &&& *reader == body
                    &&& final(self.file)@ == old(self.file)@.step(
                        FF_WINDOW,
                        Event::Polled(*final(reader)),
                    )
                },
                State::Transient => false,
            },
    {
        let file = self.file;
        match &mut file.state {
            State::Pending(future) => Action::AwaitResponse(future),
            State::Seeking(reader, delta) => {
                let remaining: u64 = *delta;
                let len: usize = if remaining < FF_BUFFER as u64 {
                    remaining as usize
                } else {
                    FF_BUFFER
                };
                Action::Skip(reader, len)
            },
            State::Ready(reader) => Action::Read(reader),
            _ => match range_request(&file.request, file.position) {
                Some(request) => Action::Send { request, offset: file.position },
                None => Action::HeadersFull,
            },
        }
    }

    /// Drive the state from `State::Initial` to `State::Pending`, once the
    /// request was sent.
    pub fn drive_initial(self, future: P)
        requires
            old(self.file).wf(),
        ensures
            final(self.file).wf(),
            final(self.file)@ == old(self.file)@.step(FF_WINDOW, Event::Sent(future)),
    {
        let file = self.file;
        if let State::Initial = file.state {
            file.state = State::Pending(future);
        }
    }

    /// Drive the state from `State::Pending` to `State::Ready`, where
    /// `response` is what polling for the response gave.
    ///
    /// The file can be driven further if this gives `Ok`.
    pub fn poll_drive_pending<E>(
        self,
        response: Poll<Result<(Option<Announcement>, R), E>>,
    ) -> (poll: Poll<Result<(), E>>)
        requires
            old(self.file).wf(),
        ensures
            final(self.file).wf(),
            if old(self.file)@.state is Pending {
                match response {
                    Poll::Ready(Ok((size, reader))) => {
                        &&& poll == Poll::Ready(Ok::<(), E>(()))
                        &&& final(self.file)@ == old(self.file)@.step(
                            FF_WINDOW,
                            Event::Arrived(size, reader),
                        )
                    },
                    Poll::Ready(Err(error)) => {
                        &&& poll == Poll::Ready(Err::<(), E>(error))
                        &&& final(self.file)@ == old(self.file)@
                    },
                    Poll::Pending => {
                        &&& poll == Poll::<Result<(), E>>::Pending
                        &&& final(self.file)@ == old(self.file)@
                    },
                }
            } else {
                &&& poll == Poll::Ready(Ok::<(), E>(()))
                &&& final(self.file)@ == old(self.file)@
            },
    {
        let file = self.file;
        if let State::Pending(_) = file.state {
            match response {
                Poll::Ready(Ok((size, reader))) => {
                    file.size_.update(size);
                    file.state = State::Ready(reader);
                    Poll::Ready(Ok(()))
                },
                Poll::Ready(Err(error)) => Poll::Ready(Err(error)),
                Poll::Pending => Poll::Pending,
            }
        } else {
            Poll::Ready(Ok(()))
        }
    }

    /// Drive the state from `State::Seeking` towards `State::Ready`, where
    /// `read` is what one read of the fast-forward gave.
    ///
    /// The file can be driven further if this gives `Ok`: the fast-forward is
    /// over, or it goes on with another read.
    pub fn poll_drive_seeking<E>(self, read: Poll<Result<usize, E>>) -> (poll: Poll<
        Result<(), E>,
    >)
        requires
            old(self.file).wf(),
            old(self.file)@.state matches State::Seeking(_, delta) ==> (read matches Poll::Ready(
                Ok(count),
            ) ==> count <= delta),
        ensures
            final(self.file).wf(),
            if old(self.file)@.state is Seeking {
                match read {
                    Poll::Ready(Ok(count)) => {
                        &&& poll == Poll::Ready(Ok::<(), E>(()))
                        &&& final(self.file)@ == old(self.file)@.step(
                            FF_WINDOW,
                            Event::Skipped(count as nat),
                        )
                    },
                    Poll::Ready(Err(error)) => {
                        &&& poll == Poll::Ready(Err::<(), E>(error))
                        &&& final(self.file)@ == old(self.file)@
                    },
                    Poll::Pending => {
                        &&& poll == Poll::<Result<(), E>>::Pending
                        &&& final(self.file)@ == old(self.file)@
                    },
                }
            } else {
                &&& poll == Poll::Ready(Ok::<(), E>(()))
                &&& final(self.file)@ == old(self.file)@
            },
    {
        let file = self.file;
        let mut state = State::Transient;
        std::mem::swap(&mut state, &mut file.state);
        match state {
            State::Seeking(reader, delta) => {
                let (read, remaining, poll) = fastforward(delta, read);
                file.position = file.position.saturating_add(read);
                match poll {
                    None => {
                        file.state = State::Seeking(reader, remaining);
                        Poll::Ready(Ok(()))
                    },
                    Some(Poll::Ready(Ok(()))) => {
                        // If EOF is reached, there may be a remaining delta.
                        file.position = file.position.wrapping_add(remaining);
                        file.state = State::Ready(reader);
                        Poll::Ready(Ok(()))
                    },
                    Some(other) => {
                        file.state = State::Seeking(reader, remaining);
                        other
                    },
                }
            },
            state => {
                file.state = state;
                Poll::Ready(Ok(()))
            },
        }
    }
}

} // verus!
