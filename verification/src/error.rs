//! Error codes reported by the driver.

use vstd::prelude::*;

verus! {

/// Kernel error codes, by their conventional names.
#[derive(Clone, Copy, Debug, PartialEq, Eq, Structural)]
pub enum Error {
    /// Operation not permitted.
    EPERM,
    /// No such entry.
    ENOENT,
    /// Input/output error.
    EIO,
    /// Try again.
    EAGAIN,
    /// Out of memory.
    ENOMEM,
    /// Resource busy.
    EBUSY,
    /// No such device.
    ENODEV,
    /// Invalid argument.
    EINVAL,
    /// No space left.
    ENOSPC,
    /// Result out of range.
    ERANGE,
    /// Value too large for its type.
    EOVERFLOW,
    /// Message too long.
    EMSGSIZE,
    /// Timed out.
    ETIMEDOUT,
    /// Operation not supported.
    ENOTSUPP,
}

} // verus!
