//! The adapter's error taxonomy.

use vstd::prelude::*;

verus! {

/// What went wrong in an operation of the adapter or of its backend.
#[derive(Debug, Clone, PartialEq, Eq)]
pub enum Error {
    /// The backend reached the end before the requested length.
    UnexpectedEof,
    /// A name handed over by the engine is not valid UTF-8.
    InvalidDbName { name: Vec<u8> },
    /// The requested file does not exist.
    DbNotFound { name: String },
    /// A path exceeds the engine's buffer or the system maximum.
    PathTooLong,
    /// The open flags do not decode to a kind and an access.
    InvalidOpenFlags,
    /// The engine handed over an unusable file slot.
    InvalidFilePtr,
    /// The backend refused on authorization grounds.
    PermissionDenied,
    /// The engine handed over a null pointer where a value was expected.
    NullPtr,
    /// The backend's write target is full.
    WriteZero,
    /// A file-control opcode expected an argument.
    ExpectedArg { name: String },
    /// A WAL-index region of a size other than 32 768 bytes was requested.
    InvalidRegionSize { size: i64 },
    /// A WAL-index operation was attempted while the WAL index is disabled.
    WalDisabled,
    /// A WAL-index lock was requested before any region was mapped.
    WalIndexLock,
    /// A failure of the backend, with its diagnostic.
    External { cause: String },
}

/// The error reported when the engine hands over a null pointer.
pub fn null_ptr_error() -> (r: Error)
    ensures
        r == Error::NullPtr,
{
    Error::NullPtr
}

/// Why a file system could not be registered with the engine.
#[derive(Debug, Clone, PartialEq, Eq)]
pub enum RegisterError {
    /// The name holds a NUL byte, at this position.
    Nul(usize),
    /// The engine refused the registration with this status code.
    Register(i32),
}

} // verus!
