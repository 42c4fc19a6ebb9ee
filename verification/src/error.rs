//! The failure value that every fallible operation returns.
use vstd::prelude::*;

verus! {

/// The broad reason for a failure.
#[derive(Clone, Copy, Debug, PartialEq, Eq, Structural)]
pub enum ErrorKind {
    /// An operation that promised an exact number of bytes met the end of the
    /// stream first.
    UnexpectedEof,
    /// An operation that promised to write everything met a destination that
    /// takes no more bytes.
    WriteZero,
    /// Bytes that had to be text were not valid UTF-8.
    InvalidData,
    /// The operation was interrupted and may be tried again.
    Interrupted,
    /// Any other failure.
    Other,
}

/// A failure: its kind and a message for people.
#[derive(Clone, Copy, Debug)]
pub struct Error {
    pub kind: ErrorKind,
    pub message: &'static str,
}

impl Error {
    /// The failure of `read_exact` on a source that ends too early.
    pub open spec fn spec_unexpected_eof() -> Error {
        Error { kind: ErrorKind::UnexpectedEof, message: "failed to fill whole buffer" }
    }

    /// The failure of `write_all` on a destination that is full.
    pub open spec fn spec_write_zero() -> Error {
        Error { kind: ErrorKind::WriteZero, message: "failed to write whole buffer" }
    }

    /// The failure of a text read on bytes that are not valid UTF-8.
    pub open spec fn spec_invalid_text() -> Error {
        Error { kind: ErrorKind::InvalidData, message: "stream did not contain valid UTF-8" }
    }

    pub fn new(kind: ErrorKind, message: &'static str) -> (e: Error)
        ensures
            e.kind == kind,
            e.message == message,
    {
        Error { kind, message }
    }

    #[verifier::when_used_as_spec(spec_unexpected_eof)]
    pub fn unexpected_eof() -> (e: Error)
        ensures
            e == Error::spec_unexpected_eof(),
    {
        Error::new(ErrorKind::UnexpectedEof, "failed to fill whole buffer")
    }

    #[verifier::when_used_as_spec(spec_write_zero)]
    pub fn write_zero() -> (e: Error)
        ensures
            e == Error::spec_write_zero(),
    {
        Error::new(ErrorKind::WriteZero, "failed to write whole buffer")
    }

    #[verifier::when_used_as_spec(spec_invalid_text)]
    pub fn invalid_text() -> (e: Error)
        ensures
            e == Error::spec_invalid_text(),
    {
        Error::new(ErrorKind::InvalidData, "stream did not contain valid UTF-8")
    }

    pub fn kind(&self) -> (k: ErrorKind)
        ensures
            k == self.kind,
    {
        self.kind
    }

    pub fn message(&self) -> (m: &'static str)
        ensures
            m == self.message,
    {
        self.message
    }
}

} // verus!
