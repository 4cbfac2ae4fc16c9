//! Error taxonomy of the kernel: per-operation errors on an active process
//! control block, syscall return codes, and the errors that can arise while
//! loading processes from flash.

use vstd::prelude::*;

verus! {

/// Errors that can occur when operating on an active process.
///
/// These are always returned to the caller, never silently swallowed, and the
/// failed operation is safe to attempt again later once conditions change.
#[derive(Copy, Clone, Debug, PartialEq, Eq, Structural)]
pub enum Error {
    /// The named process slot or identifier does not exist.
    NoSuchApp,
    /// The operation would exhaust the memory available to the process.
    OutOfMemory,
    /// An address or index fell outside the bounds the process may use.
    AddressOutOfBounds,
    /// The process is inactive (terminated or faulted) and the attempted
    /// operation is therefore invalid.
    InactiveApp,
    /// Some kernel state is inconsistent; this indicates a kernel bug.
    KernelError,
    /// Some process data, such as a grant, is already borrowed.
    AlreadyInUse,
}

/// Return codes delivered back to userspace from system calls.
#[derive(Copy, Clone, Debug, PartialEq, Eq, Structural)]
pub enum ReturnCode {
    /// The operation succeeded and carries a value for the process.
    SuccessWithValue { value: usize },
    /// The operation succeeded.
    SUCCESS,
    /// The operation failed for an unspecified reason.
    FAIL,
    /// The operation ran out of memory.
    ENOMEM,
    /// An argument was invalid.
    EINVAL,
    /// No driver is registered under the requested driver number.
    ENODEVICE,
    /// The requested operation is not supported.
    ENOSUPPORT,
}

/// Error codes used by the slice-building and restart paths.
#[derive(Copy, Clone, Debug, PartialEq, Eq, Structural)]
pub enum ErrorCode {
    /// The operation failed for an unspecified reason.
    FAIL,
    /// The operation ran out of memory.
    NOMEM,
    /// An argument was invalid.
    INVAL,
    /// A needed resource could not be reserved.
    RESERVE,
}

/// Errors that can occur when trying to load and create processes.
#[derive(Copy, Clone, Debug, PartialEq, Eq, Structural)]
pub enum ProcessLoadError {
    /// The binary header for the process could not be successfully parsed.
    HeaderParseFailure { reason: HeaderParseError },
    /// Not enough flash remains to hold the entry a header describes.
    NotEnoughFlash,
    /// Not enough memory remains to meet the amount a process requested.
    NotEnoughMemory,
    /// The memory-protection unit cannot protect a flash region of the
    /// process's length.
    MpuInvalidFlashLength,
    /// The process requires its memory window to start at a fixed address and
    /// the kernel could not place it there.
    MemoryAddressMismatch { actual_address: u32, expected_address: u32 },
    /// The process requires its binary to sit at a fixed flash address and the
    /// binary is placed elsewhere.
    IncorrectFlashAddress { actual_address: u32, expected_address: u32 },
    /// A process-loading step that should never fail did; this indicates a
    /// kernel bug.
    InternalError,
}

/// Ways the full binary header of a process entry can be malformed.
///
/// Malformed headers are data, not program errors: the parser returns one of
/// these instead of panicking.
#[derive(Copy, Clone, Debug, PartialEq, Eq, Structural)]
pub enum HeaderParseError {
    /// The supplied slice is shorter than the fixed header prefix.
    NotEnoughBytes,
    /// The header length field is smaller than the fixed application prefix
    /// or disagrees with the supplied slice.
    BadHeaderLength,
    /// The header declares more writable flash regions than it has room for.
    TooManyRegions,
}

impl From<Error> for ReturnCode {
    /// The syscall return code under which each process error is reported.
    fn from(err: Error) -> (r: ReturnCode) {
        match err {
            Error::OutOfMemory => ReturnCode::ENOMEM,
            Error::AddressOutOfBounds => ReturnCode::EINVAL,
            Error::NoSuchApp => ReturnCode::EINVAL,
            Error::InactiveApp => ReturnCode::FAIL,
            Error::KernelError => ReturnCode::FAIL,
            Error::AlreadyInUse => ReturnCode::FAIL,
        }
    }
}

impl vstd::std_specs::convert::FromSpecImpl<Error> for ReturnCode {
    open spec fn obeys_from_spec() -> bool {
        true
    }

    open spec fn from_spec(err: Error) -> ReturnCode {
        match err {
            Error::OutOfMemory => ReturnCode::ENOMEM,
            Error::AddressOutOfBounds => ReturnCode::EINVAL,
            Error::NoSuchApp => ReturnCode::EINVAL,
            Error::InactiveApp => ReturnCode::FAIL,
            Error::KernelError => ReturnCode::FAIL,
            Error::AlreadyInUse => ReturnCode::FAIL,
        }
    }
}

impl From<Error> for ErrorCode {
    /// The error code under which each process error is reported.
    fn from(err: Error) -> (r: ErrorCode) {
        match err {
            Error::OutOfMemory => ErrorCode::NOMEM,
            Error::AddressOutOfBounds => ErrorCode::INVAL,
            Error::NoSuchApp => ErrorCode::INVAL,
            Error::InactiveApp => ErrorCode::FAIL,
            Error::KernelError => ErrorCode::FAIL,
            Error::AlreadyInUse => ErrorCode::FAIL,
        }
    }
}

impl vstd::std_specs::convert::FromSpecImpl<Error> for ErrorCode {
    open spec fn obeys_from_spec() -> bool {
        true
    }

    open spec fn from_spec(err: Error) -> ErrorCode {
        match err {
            Error::OutOfMemory => ErrorCode::NOMEM,
            Error::AddressOutOfBounds => ErrorCode::INVAL,
            Error::NoSuchApp => ErrorCode::INVAL,
            Error::InactiveApp => ErrorCode::FAIL,
            Error::KernelError => ErrorCode::FAIL,
            Error::AlreadyInUse => ErrorCode::FAIL,
        }
    }
}

} // verus!
