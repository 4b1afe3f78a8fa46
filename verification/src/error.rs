//! The failures that decoding a tag directory can report.

use vstd::prelude::*;

verus! {

/// What went wrong while reading a directory entry or a value.
#[derive(Debug, PartialEq, Eq)]
pub enum ImageError {
    /// A value does not have the shape that the caller asked for.
    FormatError(String),
    /// The entry's type and count have no decoding rule.
    UnsupportedError(String),
    /// The stream ended before the requested bytes could be read.
    IoError(String),
}

/// The result of a fallible decoding step.
pub type ImageResult<T> = Result<T, ImageError>;

/// The text carried by the error for a type and count without a decoding rule.
pub open spec fn unsupported_text() -> Seq<char> {
    "Unsupported data type."@
}

/// The text carried by the error for a read past the end of the stream.
pub open spec fn eof_text() -> Seq<char> {
    "failed to fill whole buffer"@
}

impl ImageError {
    /// The description that the error carries.
    pub open spec fn text(self) -> Seq<char> {
        match self {
            ImageError::FormatError(s) => s@,
            ImageError::UnsupportedError(s) => s@,
            ImageError::IoError(s) => s@,
        }
    }

    /// The error for a type and count without a decoding rule.
    pub fn unsupported() -> (e: ImageError)
        ensures
            e is UnsupportedError,
            e.text() == unsupported_text(),
    {
        ImageError::UnsupportedError(String::from_str("Unsupported data type."))
    }

    /// The error for a read past the end of the stream.
    pub fn unexpected_eof() -> (e: ImageError)
        ensures
            e is IoError,
            e.text() == eof_text(),
    {
        ImageError::IoError(String::from_str("failed to fill whole buffer"))
    }

    /// The description that the error carries, as an owned string.
    pub fn message(&self) -> (s: String)
        ensures
            s@ == self.text(),
    {
        match self {
            ImageError::FormatError(s) => s.clone(),
            ImageError::UnsupportedError(s) => s.clone(),
            ImageError::IoError(s) => s.clone(),
        }
    }
}

} // verus!
