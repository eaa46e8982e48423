//! The kinds of failure the library reports, matching `std::io::ErrorKind`
//! where the command-line tool hands them on as I/O errors.

use vstd::prelude::*;

verus! {

/// The category of a failure.
#[derive(Debug, Clone, Copy, PartialEq, Eq, Structural)]
pub enum ErrorKind {
    /// The data does not have the expected form.
    InvalidData,
    /// An argument was not acceptable.
    InvalidInput,
    /// The data ended before a field was complete.
    UnexpectedEof,
    /// Something that was looked for is not there.
    NotFound,
    /// Something that was to be created is already there.
    AlreadyExists,
    /// The operating system could not provide a resource.
    Other,
}

} // verus!
