//! Descriptors for process memory shared with the kernel.
//!
//! A slice descriptor records a span of process-owned memory that passed
//! validation, together with the identity of the process that granted it.
//! The kernel hands these to drivers; a zero-length descriptor revokes a
//! previous grant of access without granting a new one.

use vstd::prelude::*;

use crate::task::AppId;

verus! {

/// A validated span of process memory the kernel may read and write.
#[derive(Copy, Clone, Debug, PartialEq, Eq, Structural)]
pub struct ReadWriteAppSlice {
    /// First address of the span.
    pub addr: usize,
    /// Length of the span in bytes.
    pub len: usize,
    /// The process that granted access.
    pub app_id: AppId,
}

impl ReadWriteAppSlice {
    /// Record a validated read-write span of `app_id`'s memory.
    pub fn new(addr: usize, len: usize, app_id: AppId) -> (r: ReadWriteAppSlice)
        ensures
            r == (ReadWriteAppSlice { addr, len, app_id }),
    {
        ReadWriteAppSlice { addr, len, app_id }
    }
}

/// A validated span of process memory or flash the kernel may read.
#[derive(Copy, Clone, Debug, PartialEq, Eq, Structural)]
pub struct ReadOnlyAppSlice {
    /// First address of the span.
    pub addr: usize,
    /// Length of the span in bytes.
    pub len: usize,
    /// The process that granted access.
    pub app_id: AppId,
}

impl ReadOnlyAppSlice {
    /// Record a validated read-only span of `app_id`'s memory or flash.
    pub fn new(addr: usize, len: usize, app_id: AppId) -> (r: ReadOnlyAppSlice)
        ensures
            r == (ReadOnlyAppSlice { addr, len, app_id }),
    {
        ReadOnlyAppSlice { addr, len, app_id }
    }
}

} // verus!
