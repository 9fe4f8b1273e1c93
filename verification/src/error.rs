//! The errors that reading and interpreting DICOM content can end in.

use vstd::prelude::*;

verus! {

/// Type alias for a result from this library.
pub type Result<T> = core::result::Result<T, Error>;

/// What kind of failure the byte source reported.
#[derive(Debug, Clone, Copy, PartialEq, Eq, Structural)]
pub enum IoErrorKind {
    /// The source ended before the requested bytes could be read.
    UnexpectedEof,
    /// Any other failure of the source.
    Other,
}

/// A failure of the byte source, as plain values.
#[derive(Debug, Clone, PartialEq, Eq)]
pub struct IoError {
    /// The kind of failure.
    pub kind: IoErrorKind,
    /// What the source said about it.
    pub message: String,
}

/// Why a value could not be read.
#[derive(Debug, Clone, Copy, PartialEq, Eq, Structural)]
pub enum InvalidValueReadError {
    /// The value has an undefined length, so its extent is not known from
    /// the header alone.
    UnresolvedValueLength,
    /// The bytes read do not form a value of the expected type.
    InvalidFormat,
}

/// A failed attempt to encode or decode text.
#[derive(Debug, Clone, PartialEq, Eq)]
pub struct TextEncodingError {
    /// What the codec said about it.
    pub message: String,
}

impl TextEncodingError {
    /// Create a text encoding error from the codec's message.
    pub fn new(message: String) -> (r: Self)
        ensures
            r.message == message,
    {
        TextEncodingError { message }
    }
}

/// The main data type for errors in the library.
#[derive(Debug, Clone, PartialEq, Eq)]
pub enum Error {
    /// The data element found is not the one that can stand at this
    /// position.
    UnexpectedElement,
    /// The length of a data element does not fit the element.
    UnexpectedDataValueLength,
    /// The bytes read do not form a data element header.
    InvalidHeader,
    /// The character set asked for has no text codec.
    UnsupportedCharacterSet,
    /// A value could not be read.
    ValueRead(InvalidValueReadError),
    /// Text could not be encoded or decoded.
    TextEncoding(TextEncodingError),
    /// The byte source failed.
    Io(IoError),
}

impl Error {
    /// Whether this error says that the source ended early.
    pub open spec fn spec_is_unexpected_eof(&self) -> bool {
        self matches Error::Io(e) && e.kind == IoErrorKind::UnexpectedEof
    }

    /// Check whether this error says that the source ended before the
    /// requested bytes could be read.
    #[verifier::when_used_as_spec(spec_is_unexpected_eof)]
    pub fn is_unexpected_eof(&self) -> (r: bool)
        ensures
            r == self.spec_is_unexpected_eof(),
    {
        match self {
            Error::Io(e) => e.kind == IoErrorKind::UnexpectedEof,
            _ => false,
        }
    }
}

impl From<InvalidValueReadError> for Error {
    fn from(e: InvalidValueReadError) -> (r: Error) {
        Error::ValueRead(e)
    }
}

impl vstd::std_specs::convert::FromSpecImpl<InvalidValueReadError> for Error {
    open spec fn obeys_from_spec() -> bool {
        true
    }

    open spec fn from_spec(e: InvalidValueReadError) -> Error {
        Error::ValueRead(e)
    }
}

impl From<TextEncodingError> for Error {
    fn from(e: TextEncodingError) -> (r: Error) {
        Error::TextEncoding(e)
    }
}

impl vstd::std_specs::convert::FromSpecImpl<TextEncodingError> for Error {
    open spec fn obeys_from_spec() -> bool {
        true
    }

    open spec fn from_spec(e: TextEncodingError) -> Error {
        Error::TextEncoding(e)
    }
}

impl From<IoError> for Error {
    fn from(e: IoError) -> (r: Error) {
        Error::Io(e)
    }
}

impl vstd::std_specs::convert::FromSpecImpl<IoError> for Error {
    open spec fn obeys_from_spec() -> bool {
        true
    }

    open spec fn from_spec(e: IoError) -> Error {
        Error::Io(e)
    }
}

} // verus!
