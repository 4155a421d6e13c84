//! Use web resources like regular async files.
//!
//! A [`RequestFile`] is a file-like view of a web resource. It knows which HTTP
//! request has to be sent when, what a response means, and where in the
//! resource it stands, and it leaves sending, waiting and reading to the
//! program around it.
//!
//! A seek starts with [`RequestFile::start_seek`]. Then
//! [`RequestFileProjection::poll_drive`] tells what is to be done next, and the
//! outcome goes back to the file, until there is a reader at the position of
//! the seek.
//!
//! ```ignore
//! loop {
//!     match file.project().poll_drive() {
//!         Action::Send { request, offset } => {
//!             let future = send(request, offset);
//!             file.project().drive_initial(future);
//!         }
//!         Action::HeadersFull => panic!("too many headers"),
//!         Action::AwaitResponse(future) => {
//!             let response = poll(future);
//!             file.project().poll_drive_pending(response);
//!         }
//!         Action::Skip(reader, len) => {
//!             let read = discard(reader, len);
//!             file.project().poll_drive_seeking(read);
//!         }
//!         Action::Read(reader) => break reader,
//!     }
//! }
//! ```
//!
//! The module [`laws`] states what holds of a file over any course of events, and
//! [`exchange`] what holds of requests and responses.

pub mod error;
pub mod exchange;
pub mod file;
pub mod header;
pub mod laws;
pub mod number;
pub mod request;
pub mod response;
pub mod state;

pub use crate::error::{ErrorKind, FileError, HttpResponseStatusError};
pub use crate::file::{
    Action, RequestFile, RequestFileProjection, DEFAULT_FF_BUFFER, DEFAULT_FF_WINDOW,
};
pub use crate::request::TemplateError;
pub use crate::response::accept_response;
pub use crate::state::{Announcement, Poll, SeekFrom, State};
