//! A registry tracking custody and lifecycle state of pharmaceutical
//! product batches: who created a batch, who currently owns it, and
//! whether it has been flagged as suspect. Every mutation is validated,
//! authorized against the caller's identity, and recorded in an
//! append-only event log.

pub mod batch;
pub mod errors;
pub mod events;
pub mod laws;
pub mod registry;
