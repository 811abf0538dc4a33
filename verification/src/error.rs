//! The errors that decoding can end in.

use vstd::prelude::*;

verus! {

/// What kind of failure a byte source reported.
#[derive(Clone, Copy, Debug, PartialEq, Eq, Structural)]
pub enum IoErrorKind {
    NotFound,
    PermissionDenied,
    Interrupted,
    InvalidInput,
    InvalidData,
    UnexpectedEof,
    Other,
}

/// A failure reported by a byte source itself, as opposed to one found in
/// the bytes it delivered.
#[derive(Clone, Copy, Debug, PartialEq, Eq, Structural)]
pub struct IoError {
    pub kind: IoErrorKind,
}

/// Why a decode or a read failed.
#[derive(Clone, Copy, Debug, PartialEq, Eq, Structural)]
pub enum Error {
    /// The source ended before a fixed-size record or a range was complete.
    UnexpectedEof,
    /// The `"MZ"` or `"PE\0\0"` signature was not where it belongs.
    InvalidSignature,
    /// The optional header starts with a magic that is neither the 32-bit
    /// nor the 64-bit one.
    UnsupportedOptionalHeaderMagic { magic: u16 },
    /// The file header declares an optional header too small for the variant
    /// that its magic selects (or too small to hold a magic at all).
    InsufficientOptionalHeaderSize { declared: u16, required: u16 },
    /// A string was required to be UTF-8 or ASCII and is not.
    InvalidStringEncoding,
    /// A section was asked for by an index that the section table lacks.
    SectionIndexOutOfBounds,
    /// The byte source failed.
    Io { cause: IoError },
}

impl Error {
    /// True of the errors that come from the byte source rather than from
    /// the bytes.
    pub open spec fn is_io(self) -> bool {
        self is Io
    }
}

/// Marker for "the end of the input was reached".
#[derive(Clone, Copy, Debug, PartialEq, Eq, Structural)]
pub struct Eof;

impl From<Eof> for Error {
    fn from(_eof: Eof) -> (e: Error) {
        Error::UnexpectedEof
    }
}

impl vstd::std_specs::convert::FromSpecImpl<Eof> for Error {
    open spec fn obeys_from_spec() -> bool {
        true
    }

    open spec fn from_spec(_eof: Eof) -> Error {
        Error::UnexpectedEof
    }
}

impl From<IoError> for Error {
    fn from(cause: IoError) -> (e: Error) {
        Error::Io { cause }
    }
}

impl vstd::std_specs::convert::FromSpecImpl<IoError> for Error {
    open spec fn obeys_from_spec() -> bool {
        true
    }

    open spec fn from_spec(cause: IoError) -> Error {
        Error::Io { cause }
    }
}

/// What was being done when an error came up.
#[derive(Clone, Copy, Debug, PartialEq, Eq, Structural)]
pub enum Operation {
    /// Opening the file.
    Open,
    /// Reading the MZ header.
    ReadMzHeader,
    /// Reading the PE header.
    ReadPeHeader,
    /// Reading the section header with this index.
    ReadSectionHeader { index: u16 },
    /// Reading the raw data of a section.
    ReadSection,
    /// Reading at a relative virtual address.
    ReadRva,
}

/// Where the bytes of an image come from.
#[derive(Debug, PartialEq, Eq)]
pub enum Src {
    /// Nothing is known of the source.
    Unknown,
    /// The file at this path.
    Path(String),
}

/// An error together with the source and the operation that it came up in.
#[derive(Debug, PartialEq, Eq)]
pub struct Failure {
    pub source: Src,
    pub operation: Operation,
    pub error: Error,
}

impl Src {
    /// A copy of the source.
    pub fn duplicate(&self) -> (r: Src)
        ensures
            r == *self,
    {
        match self {
            Src::Unknown => Src::Unknown,
            Src::Path(path) => Src::Path(path.clone()),
        }
    }

    /// Hands a success on as it is, and an error together with this source
    /// and the operation that failed.
    pub fn anno<T>(&self, r: Result<T, Error>, operation: Operation) -> (annotated: Result<
        T,
        Failure,
    >)
        ensures
            match r {
                Ok(value) => annotated == Ok::<T, Failure>(value),
                Err(error) => annotated == Err::<T, Failure>(
                    Failure { source: *self, operation, error },
                ),
            },
    {
        match r {
            Ok(value) => Ok(value),
            Err(error) => Err(Failure { source: self.duplicate(), operation, error }),
        }
    }
}

impl Clone for Src {
    fn clone(&self) -> (r: Src)
        ensures
            r == *self,
    {
        self.duplicate()
    }
}

impl Clone for Failure {
    fn clone(&self) -> (r: Failure)
        ensures
            r == *self,
    {
        Failure {
            source: self.source.duplicate(),
            operation: self.operation,
            error: self.error,
        }
    }
}

impl Default for Src {
    fn default() -> (r: Src)
        ensures
            r == Src::Unknown,
    {
        Src::Unknown
    }
}

} // verus!
