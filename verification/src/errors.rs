//! The reasons an operation on the registry can be rejected. Every
//! error aborts the attempted operation with no side effects.

use vstd::prelude::*;

verus! {

/// Why an operation was rejected.
///
/// The first six variants are validation errors (a length or emptiness
/// bound was violated, caller-fixable). `NotFound` and `AlreadyExists`
/// report on the key, `NotCurrentOwner` and `NotAuthorized` on the
/// caller's identity, and `BatchFlagged` and `AlreadyFlagged` on the
/// batch's current status.
#[derive(Clone, Copy, PartialEq, Eq, Structural, Debug)]
pub enum PharmaTraceError {
    BatchIdTooLong,
    ProductNameTooLong,
    DateTooLong,
    IpfsHashTooLong,
    ReasonTooLong,
    ReasonEmpty,
    NotCurrentOwner,
    BatchFlagged,
    AlreadyFlagged,
    NotAuthorized,
    NotFound,
    AlreadyExists,
}

impl PharmaTraceError {
    /// A human-readable description of the error, for hosts that
    /// surface rejections to an end user.
    pub fn message(&self) -> &'static str {
        match self {
            PharmaTraceError::BatchIdTooLong => "Batch ID is too long (max 64 characters)",
            PharmaTraceError::ProductNameTooLong => "Product name is too long (max 128 characters)",
            PharmaTraceError::DateTooLong => "Date string is too long (max 32 characters)",
            PharmaTraceError::IpfsHashTooLong => "IPFS hash is too long (max 128 characters)",
            PharmaTraceError::ReasonTooLong => "Reason is too long (max 256 characters)",
            PharmaTraceError::ReasonEmpty => "Reason cannot be empty",
            PharmaTraceError::NotCurrentOwner => "You are not the current owner of this batch",
            PharmaTraceError::BatchFlagged => "This batch has been flagged and cannot be transferred",
            PharmaTraceError::AlreadyFlagged => "This batch is already flagged",
            PharmaTraceError::NotAuthorized => "You are not authorized to perform this action",
            PharmaTraceError::NotFound => "No batch exists with this batch ID",
            PharmaTraceError::AlreadyExists => "A batch with this batch ID already exists",
        }
    }
}

} // verus!
