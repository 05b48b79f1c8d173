//! The audit events emitted by successful mutations. Each event carries
//! enough fields to reconstruct the audit trail without consulting the
//! current record state.

use vstd::prelude::*;
use crate::batch::BatchStatus;
use crate::batch::Principal;

verus! {

/// A new batch was created.
pub struct BatchInitialized {
    pub batch_id: String,
    pub manufacturer: Principal,
    pub product_name: String,
}

/// Custody of a batch moved from one principal to another.
pub struct BatchTransferred {
    pub batch_id: String,
    pub from: Principal,
    pub to: Principal,
}

/// A batch was marked suspect.
pub struct BatchFlagged {
    pub batch_id: String,
    pub flagged_by: Principal,
    pub reason: String,
}

/// A batch's lifecycle status was set by its owner.
pub struct BatchStatusUpdated {
    pub batch_id: String,
    pub new_status: BatchStatus,
    pub updated_by: Principal,
}

/// One entry of the registry's append-only event log: exactly one
/// event is appended by each successful mutation.
pub enum BatchEvent {
    Initialized(BatchInitialized),
    Transferred(BatchTransferred),
    Flagged(BatchFlagged),
    StatusUpdated(BatchStatusUpdated),
}

} // verus!
