//! The error taxonomy of the filesystem core, and its mapping to and from
//! raw operating-system error numbers. Per-request errors are always
//! converted to a reply; none of them ever aborts the dispatcher.

use vstd::prelude::*;

verus! {

/// Why a request was refused.
#[derive(Debug, PartialEq, Eq, Clone, Copy, Structural)]
pub enum FsError {
    /// The inode or path does not resolve; the stale inode mapping is pruned.
    NotFound,
    /// The operation references a handle absent from the relevant registry.
    BadHandle,
    /// The caller supplied a negative offset.
    InvalidArgument,
    /// A mutating operation on this read-only filesystem; always refused.
    ReadOnly,
    /// A volume-statistics query; deliberately not exposed.
    Unsupported,
    /// Any other native filesystem failure, carrying the OS error number.
    IoError(i32),
}

/// The OS error number each error is reported as: `ENOENT`, `EBADFD`,
/// `EINVAL`, `EROFS`, `EPERM`, or the underlying number itself.
pub open spec fn spec_errno(e: FsError) -> i32 {
    match e {
        FsError::NotFound => 2,
        FsError::BadHandle => 77,
        FsError::InvalidArgument => 22,
        FsError::ReadOnly => 30,
        FsError::Unsupported => 1,
        FsError::IoError(code) => code,
    }
}

impl FsError {
    /// The OS error number to reply with.
    pub fn errno(self) -> (code: i32)
        ensures
            code == spec_errno(self),
    {
        match self {
            FsError::NotFound => 2,
            FsError::BadHandle => 77,
            FsError::InvalidArgument => 22,
            FsError::ReadOnly => 30,
            FsError::Unsupported => 1,
            FsError::IoError(code) => code,
        }
    }

    /// Classify the error number a real filesystem call failed with:
    /// `ENOENT` means the path is gone (and triggers pruning), anything
    /// else is passed through as an I/O failure.
    pub fn from_errno(code: i32) -> (e: FsError)
        ensures
            e == (if code == 2 {
                FsError::NotFound
            } else {
                FsError::IoError(code)
            }),
    {
        if code == 2 {
            FsError::NotFound
        } else {
            FsError::IoError(code)
        }
    }
}

} // verus!
