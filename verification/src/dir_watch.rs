//! The decisions of the directory watcher.

use vstd::prelude::*;

use crate::error::ErrorKind;

verus! {

/// Why a path cannot be watched.
#[derive(Debug, Clone, Copy, PartialEq, Eq, Structural)]
pub enum WatchError {
    /// The path is a file, not a directory.
    NotADirectory,
    /// The path does not exist.
    Missing,
}

impl WatchError {
    /// The category of the failure.
    pub fn kind(&self) -> (r: ErrorKind)
        ensures
            r == match *self {
                WatchError::NotADirectory => ErrorKind::InvalidData,
                WatchError::Missing => ErrorKind::NotFound,
            },
    {
        match self {
            WatchError::NotADirectory => ErrorKind::InvalidData,
            WatchError::Missing => ErrorKind::NotFound,
        }
    }
}

/// Whether a path can be watched, given whether it is a file and whether it
/// exists.
pub fn check_watch_target(is_file: bool, exists: bool) -> (r: Result<(), WatchError>)
    ensures
        is_file ==> r == Err::<(), WatchError>(WatchError::NotADirectory),
        !is_file && !exists ==> r == Err::<(), WatchError>(WatchError::Missing),
        !is_file && exists ==> r is Ok,
{
    if is_file {
        Err(WatchError::NotADirectory)
    } else if !exists {
        Err(WatchError::Missing)
    } else {
        Ok(())
    }
}

/// Whether an event on a directory entry makes the watcher secure the file:
/// it was closed after writing or moved in, it names an entry, and that
/// entry is a regular file.
pub fn event_secures_file(closed_after_write: bool, moved_in: bool, has_name: bool, is_file: bool) -> (r:
    bool)
    ensures
        r == ((closed_after_write || moved_in) && has_name && is_file),
{
    (closed_after_write || moved_in) && has_name && is_file
}

} // verus!
