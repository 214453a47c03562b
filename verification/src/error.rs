//! The failures that this crate reports, and their numeric codes.

use vstd::prelude::*;

verus! {

/// The smallest magnitude that is no valid error code any more.
pub const MAX_ERRNO: i32 = 4095;

/// Code of a device that is not there (`ENXIO`).
pub const ENXIO: i32 = 6;

/// Code of an argument that is not accepted (`EINVAL`).
pub const EINVAL: i32 = 22;

/// Code of a result that does not fit (`ERANGE`).
pub const ERANGE: i32 = 34;

/// Code of an operation that ran out of time (`ETIMEDOUT`).
pub const ETIMEDOUT: i32 = 110;

/// Why an operation failed.
#[derive(Clone, Copy, Debug, PartialEq, Eq, Structural)]
pub enum Error {
    /// A computed value does not fit the register field meant for it.
    RangeExceeded,
    /// The hardware did not become ready within the polling budget.
    Timeout,
    /// The clock, power or registry subsystem refused; `errno` is the
    /// negative code it gave.
    ResourceUnavailable { errno: i32 },
    /// A register access reaches outside the mapped window.
    OutOfRange,
    /// The resources of the instance are absent.
    NotReady,
    /// The operation is not provided.
    Unsupported,
}

/// Whether `errno` is a code that the negative-code convention can carry.
pub open spec fn is_errno(errno: int) -> bool {
    -MAX_ERRNO <= errno < 0
}

impl Error {
    /// The negative code that stands for this failure.
    pub open spec fn errno(self) -> int {
        match self {
            Error::RangeExceeded => -ERANGE,
            Error::Timeout => -ETIMEDOUT,
            Error::ResourceUnavailable { errno } => if is_errno(errno as int) {
                errno as int
            } else {
                -EINVAL
            },
            Error::OutOfRange => -EINVAL,
            Error::NotReady => -ENXIO,
            Error::Unsupported => -EINVAL,
        }
    }

    /// The failure that stands for the code `errno` of a subsystem. A code
    /// outside the valid range is replaced by that of an invalid argument.
    pub open spec fn from_errno_spec(errno: i32) -> Error {
        Error::ResourceUnavailable {
            errno: if is_errno(errno as int) {
                errno
            } else {
                (-EINVAL) as i32
            },
        }
    }

    /// The failure that a subsystem reported with the code `errno`. A code
    /// outside the valid range is replaced by that of an invalid argument.
    pub fn from_kernel_errno(errno: i32) -> (e: Error)
        ensures
            e == Error::from_errno_spec(errno),
            e.errno() == if is_errno(errno as int) {
                errno as int
            } else {
                -EINVAL
            },
    {
        if errno < -MAX_ERRNO || errno >= 0 {
            Error::ResourceUnavailable { errno: -EINVAL }
        } else {
            Error::ResourceUnavailable { errno }
        }
    }

    /// The negative code of this failure, always a valid one.
    pub fn to_kernel_errno(&self) -> (code: i32)
        ensures
            code == self.errno(),
            is_errno(code as int),
    {
        match self {
            Error::RangeExceeded => -ERANGE,
            Error::Timeout => -ETIMEDOUT,
            Error::ResourceUnavailable { errno } => {
                if *errno < -MAX_ERRNO || *errno >= 0 {
                    -EINVAL
                } else {
                    *errno
                }
            },
            Error::OutOfRange => -EINVAL,
            Error::NotReady => -ENXIO,
            Error::Unsupported => -EINVAL,
        }
    }
}

/// The result that stands for the status of a subsystem call.
pub open spec fn to_result_spec(status: i32) -> Result<(), Error> {
    if status >= 0 {
        Ok(())
    } else {
        Err(Error::from_errno_spec(status))
    }
}

/// Turns the status that a subsystem call returned into a result: a
/// negative status is a failure with that code, anything else is success.
pub fn to_result(status: i32) -> (r: Result<(), Error>)
    ensures
        r == to_result_spec(status),
{
    if status < 0 {
        Err(Error::from_kernel_errno(status))
    } else {
        Ok(())
    }
}

} // verus!
