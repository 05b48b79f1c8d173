//! The batch record and the identities and status values it carries.

use vstd::prelude::*;

verus! {

/// Largest allowed byte length of a batch identifier.
pub const MAX_BATCH_ID_LEN: usize = 64;

/// Largest allowed byte length of a product name.
pub const MAX_PRODUCT_NAME_LEN: usize = 128;

/// Largest allowed byte length of a manufacture or expiry date string.
pub const MAX_DATE_LEN: usize = 32;

/// Largest allowed byte length of an off-chain metadata pointer.
pub const MAX_IPFS_HASH_LEN: usize = 128;

/// The number of bytes in the UTF-8 encoding of a string.
///
/// The registry's length bounds are byte bounds, so contracts measure
/// strings with this rather than with the character count `s.len()`.
pub open spec fn byte_len(s: Seq<char>) -> nat {
    vstd::utf8::encode_utf8(s).len()
}

/// An authenticated caller identity, opaque to the registry and
/// compared only for equality. The host substrate is responsible for
/// verifying that a caller really holds the identity it presents.
#[derive(Clone, Copy, PartialEq, Eq, Structural, Debug)]
pub struct Principal {
    pub key: u64,
}

/// Lifecycle state of a batch. Every batch starts `Valid`; `Flagged`
/// freezes custody transfers until an authority resets the status.
#[derive(Clone, Copy, PartialEq, Eq, Structural, Debug)]
pub enum BatchStatus {
    Valid,
    Flagged,
    Expired,
}

/// A tracked pharmaceutical product lot. `batch_id` is its unique key;
/// all fields but `current_owner`, `status` and `updated_at` are
/// immutable after creation.
pub struct Batch {
    pub batch_id: String,
    pub product_name: String,
    pub manufacturer: Principal,
    pub current_owner: Principal,
    pub mfg_date: String,
    pub exp_date: String,
    pub status: BatchStatus,
    pub ipfs_hash: String,
    pub created_at: i64,
    pub updated_at: i64,
}

impl Batch {
    /// Every string field respects its byte-length bound.
    pub open spec fn wf(self) -> bool {
        &&& byte_len(self.batch_id@) <= MAX_BATCH_ID_LEN
        &&& byte_len(self.product_name@) <= MAX_PRODUCT_NAME_LEN
        &&& byte_len(self.mfg_date@) <= MAX_DATE_LEN
        &&& byte_len(self.exp_date@) <= MAX_DATE_LEN
        &&& byte_len(self.ipfs_hash@) <= MAX_IPFS_HASH_LEN
    }
}

} // verus!
