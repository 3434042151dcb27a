//! The one error the library reports: an operating-system failure.

use vstd::prelude::*;

verus! {

/// A failure reported by the operating system's host-name query.
///
/// `code` is the platform's last-error value, captured right after the failed
/// call (`errno` on POSIX, `GetLastError` on Windows). The library surfaces it
/// verbatim; rendering it as text is left to the unverified shell.
#[derive(Clone, Copy, Debug, PartialEq, Eq, Structural)]
pub struct OsError {
    /// The raw last-error code of the failed system call.
    pub code: i32,
}

impl OsError {
    /// The raw last-error code of the failed system call.
    pub fn code(&self) -> (r: i32)
        ensures
            r == self.code,
    {
        self.code
    }
}

} // verus!
