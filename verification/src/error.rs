//! The kinds of failure the library reports that are not protocol errors.

use crate::proto::NbdErrno;
use vstd::prelude::*;

verus! {

/// Why an operation on a name, a driver or an image failed.
#[derive(Debug, Clone, Copy, PartialEq, Eq, Structural)]
pub enum ErrorKind {
    /// The data is not what its format demands.
    InvalidData,
    /// An argument is out of the range the operation accepts.
    InvalidInput,
    /// What was asked for does not exist.
    NotFound,
    /// The operation is not allowed.
    PermissionDenied,
    /// The storage is full.
    StorageFull,
    /// The image does not offer the operation.
    Unsupported,
    /// Any other failure of the storage.
    Other,
}

impl ErrorKind {
    pub open spec fn spec_errno(self) -> NbdErrno {
        match self {
            ErrorKind::PermissionDenied => NbdErrno::Perm,
            ErrorKind::InvalidInput => NbdErrno::Inval,
            ErrorKind::StorageFull => NbdErrno::NoSpc,
            ErrorKind::Unsupported => NbdErrno::NotSup,
            _ => NbdErrno::Io,
        }
    }

    /// The error number a client is told when an image operation fails in
    /// this way.
    #[verifier::when_used_as_spec(spec_errno)]
    pub fn errno(self) -> (r: NbdErrno)
        ensures
            r == self.spec_errno(),
    {
        match self {
            ErrorKind::PermissionDenied => NbdErrno::Perm,
            ErrorKind::InvalidInput => NbdErrno::Inval,
            ErrorKind::StorageFull => NbdErrno::NoSpc,
            ErrorKind::Unsupported => NbdErrno::NotSup,
            _ => NbdErrno::Io,
        }
    }
}

} // verus!
