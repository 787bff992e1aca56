//! Errors that the mode-setting calls surface.
use vstd::prelude::*;

verus! {

/// Operation not permitted.
pub const EPERM: i32 = 1;

/// No such object.
pub const ENOENT: i32 = 2;

/// Out of memory.
pub const ENOMEM: i32 = 12;

/// Permission denied.
pub const EACCES: i32 = 13;

/// Device or resource busy.
pub const EBUSY: i32 = 16;

/// Invalid argument.
pub const EINVAL: i32 = 22;

/// No space left on the device (video memory exhausted).
pub const ENOSPC: i32 = 28;

/// Input/output error.
pub const EIO: i32 = 5;

/// A failed mode-setting call.
#[derive(Debug, Clone, Copy, PartialEq, Eq, Structural)]
pub enum Error {
    /// The caller is not the Master, or lacks a capability.
    PermissionDenied,
    /// The handle names no object the device knows.
    NotFound,
    /// The driver rejected the combination of arguments.
    InvalidArgument,
    /// The device could not allocate memory.
    OutOfMemory,
    /// A contended resource is held elsewhere.
    Busy,
    /// Any other OS-level failure, with its errno.
    Io(i32),
    /// The kernel reported more entries than the supplied buffer could hold.
    Overflow,
}

/// The error that an OS-level error number stands for.
pub open spec fn error_of_errno(errno: i32) -> Error {
    if errno == EPERM || errno == EACCES {
        Error::PermissionDenied
    } else if errno == ENOENT {
        Error::NotFound
    } else if errno == EINVAL {
        Error::InvalidArgument
    } else if errno == ENOMEM || errno == ENOSPC {
        Error::OutOfMemory
    } else if errno == EBUSY {
        Error::Busy
    } else {
        Error::Io(errno)
    }
}

/// Whether `e` is what some error number of a failed call stands for:
/// an error the driver gave, not one this library raised.
pub open spec fn is_driver_error(e: Error) -> bool {
    exists|n: i32| e == #[trigger] error_of_errno(n)
}

impl Error {
    /// Classifies the error number that a failed call returned.
    pub fn from_errno(errno: i32) -> (r: Error)
        ensures
            r == error_of_errno(errno),
    {
        if errno == EPERM || errno == EACCES {
            Error::PermissionDenied
        } else if errno == ENOENT {
            Error::NotFound
        } else if errno == EINVAL {
            Error::InvalidArgument
        } else if errno == ENOMEM || errno == ENOSPC {
            Error::OutOfMemory
        } else if errno == EBUSY {
            Error::Busy
        } else {
            Error::Io(errno)
        }
    }
}

} // verus!
