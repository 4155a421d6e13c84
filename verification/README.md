# Reqwest-File

Use web resources like regular async files.

A `RequestFile` gives file-like access to a web resource: it can be read, and it
can be seeked. Seeking sends a new request with a `Range` header, or, where it
goes forward by a small amount, reads on in the response body.

## Layout

  * `src/` is the library, written in Verus. It decides which request to send,
    whether a response will do, where in the resource the file stands and what
    has to be done next. The functions have contracts that Verus proves. The
    exceptions are the calls into `reqwest` and `http`, which have contracts
    that are believed: what each claims stands above it.
      * `file` is the file itself, `state` the model of it.
      * `request` makes range requests, `response` and `header` read responses.
      * `number` reads and writes decimal numbers, `error` holds the errors.
      * `laws` states what holds of a file over any course of events: a seek
        gives the position that was asked for, and what is read at a position is
        the content of the resource there.
  * `app/` does what the library asks for: it sends requests with `reqwest` and
    implements `AsyncRead` and `AsyncSeek` of `tokio`.
  * `tests/` runs the library against a simulated webserver.
