//! Safe, verified core of a cross-platform host-name query.
//!
//! The operating system reports a host name as a raw, possibly unterminated
//! buffer of bytes (POSIX) or of wide characters (Windows). This crate holds
//! the logic that surrounds the system call: sizing and zero-initializing the
//! buffer, scanning it for the terminating zero, truncating without reading
//! out of bounds, and turning the call's return code into a result or an
//! operating-system error. The system calls themselves are made by a thin
//! unverified shell that feeds their raw outcomes to these functions.

pub mod error;
pub mod posix;
pub mod windows;
