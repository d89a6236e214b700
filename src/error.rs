use vstd::prelude::*;
use std::string::FromUtf8Error;

verus! {

#[verifier::external_type_specification]
#[verifier::external_body]
pub struct ExFromUtf8Error(FromUtf8Error);

#[verifier::external_type_specification]
#[verifier::external_body]
pub struct ExIoError(std::io::Error);

/// Why an inbound text frame could not be read as an envelope.
#[derive(Debug, Clone, Copy, PartialEq, Eq, Structural)]
pub enum DecodeError {
    /// The frame is not valid JSON.
    InvalidJson,
    /// The frame is JSON but has no string `topic` field.
    MissingTopic,
    /// The frame is JSON but has no string `event` field.
    MissingEvent,
}

/// The errors of this library.
#[derive(Debug)]
pub enum Error {
    /// A websocket text frame was not valid UTF-8.
    Utf8(FromUtf8Error),
    /// An inbound frame could not be read as an envelope; the connection goes on.
    Decode(DecodeError),
    /// The outbound queue is closed: the connection is gone.
    Send,
    /// Errors that fit none of the other kinds, such as those of a channel.
    Internal(String),
}

/// Relies on the `Debug` formatting of `std::io::Error`, for the text of an internal error.
#[verifier::external_body]
fn io_error_text(err: &std::io::Error) -> String {
    format!("{:?}", err)
}

impl From<std::io::Error> for Error {
    fn from(err: std::io::Error) -> (r: Error)
        ensures
            r is Internal,
    {
        Error::Internal(io_error_text(&err))
    }
}

impl vstd::std_specs::convert::FromSpecImpl<std::io::Error> for Error {
    // The debug text of an I/O error is not modelled, so nothing is claimed of the result.
    open spec fn obeys_from_spec() -> bool {
        false
    }

    open spec fn from_spec(v: std::io::Error) -> Error {
        arbitrary()
    }
}

impl From<FromUtf8Error> for Error {
    fn from(err: FromUtf8Error) -> Error {
        Error::Utf8(err)
    }
}

impl vstd::std_specs::convert::FromSpecImpl<FromUtf8Error> for Error {
    open spec fn obeys_from_spec() -> bool {
        true
    }

    open spec fn from_spec(v: FromUtf8Error) -> Error {
        Error::Utf8(v)
    }
}

} // verus!
