//! The batch registry: a keyed store of batch records plus the four
//! state-transition operations. Each operation is atomic (it applies
//! fully or not at all), touches a single record, and appends exactly
//! one event to the audit log when it succeeds.

use vstd::prelude::*;
use vstd::string::StringSliceAdditionalSpecFns;
use crate::batch::byte_len;
use crate::batch::Batch;
use crate::batch::BatchStatus;
use crate::batch::Principal;
use crate::batch::MAX_BATCH_ID_LEN;
use crate::batch::MAX_DATE_LEN;
use crate::batch::MAX_IPFS_HASH_LEN;
use crate::batch::MAX_PRODUCT_NAME_LEN;
use crate::errors::PharmaTraceError;
use crate::events::BatchEvent;
use crate::events::BatchFlagged;
use crate::events::BatchInitialized;
use crate::events::BatchStatusUpdated;
use crate::events::BatchTransferred;

verus! {

/// Largest allowed byte length of a flagging reason.
pub const MAX_REASON_LEN: usize = 256;

/// The authenticated identity creating a batch: the manufacturer signs
/// the call and becomes the record's first owner.
#[derive(Clone, Copy, PartialEq, Eq, Structural, Debug)]
pub struct InitBatch {
    pub manufacturer: Principal,
}

/// The identities involved in a custody transfer: `current_owner` is
/// the authenticated caller claiming custody; `new_owner` is only a
/// destination identity supplied by the caller and need not sign.
#[derive(Clone, Copy, PartialEq, Eq, Structural, Debug)]
pub struct TransferBatch {
    pub current_owner: Principal,
    pub new_owner: Principal,
}

/// The authenticated identity flagging a batch. Any authenticated
/// caller may flag: the registry keeps no allow-list of regulators.
#[derive(Clone, Copy, PartialEq, Eq, Structural, Debug)]
pub struct FlagBatch {
    pub regulator: Principal,
}

/// The authenticated identity setting a batch's status; it must be the
/// batch's current owner.
#[derive(Clone, Copy, PartialEq, Eq, Structural, Debug)]
pub struct UpdateBatchStatus {
    pub authority: Principal,
}

/// Some record in `s` carries the batch identifier `id`.
pub open spec fn contains_id(s: Seq<Batch>, id: Seq<char>) -> bool {
    exists|i: int| 0 <= i < s.len() && s[i].batch_id@ == id
}

/// No two records in `s` share a batch identifier.
pub open spec fn ids_unique(s: Seq<Batch>) -> bool {
    forall|i: int, j: int|
        0 <= i < s.len() && 0 <= j < s.len() && i != j ==> s[i].batch_id@ != s[j].batch_id@
}

/// The keyed view of a sequence of batch records: each record stands
/// under its batch identifier.
pub open spec fn map_of(s: Seq<Batch>) -> Map<Seq<char>, Batch>
    decreases s.len(),
{
    if s.len() == 0 {
        Map::empty()
    } else {
        map_of(s.drop_last()).insert(s.last().batch_id@, s.last())
    }
}

/// The validation error `init_batch` reports for these field values,
/// if any: bounds are checked in field order and the first violation
/// wins.
pub open spec fn init_validation_error(
    batch_id: Seq<char>,
    product_name: Seq<char>,
    mfg_date: Seq<char>,
    exp_date: Seq<char>,
    ipfs_hash: Seq<char>,
) -> Option<PharmaTraceError> {
    if byte_len(batch_id) > MAX_BATCH_ID_LEN {
        Some(PharmaTraceError::BatchIdTooLong)
    } else if byte_len(product_name) > MAX_PRODUCT_NAME_LEN {
        Some(PharmaTraceError::ProductNameTooLong)
    } else if byte_len(mfg_date) > MAX_DATE_LEN {
        Some(PharmaTraceError::DateTooLong)
    } else if byte_len(exp_date) > MAX_DATE_LEN {
        Some(PharmaTraceError::DateTooLong)
    } else if byte_len(ipfs_hash) > MAX_IPFS_HASH_LEN {
        Some(PharmaTraceError::IpfsHashTooLong)
    } else {
        None
    }
}

/// The validation error `flag_batch` reports for a reason string, if
/// any: a reason must be one to `MAX_REASON_LEN` bytes long.
pub open spec fn reason_validation_error(reason: Seq<char>) -> Option<PharmaTraceError> {
    if byte_len(reason) > MAX_REASON_LEN {
        Some(PharmaTraceError::ReasonTooLong)
    } else if byte_len(reason) == 0 {
        Some(PharmaTraceError::ReasonEmpty)
    } else {
        None
    }
}

/// The record `init_batch` creates: owned by its manufacturer, status
/// `Valid`, both timestamps set to the creation time.
pub open spec fn created(
    ctx: InitBatch,
    batch_id: String,
    product_name: String,
    mfg_date: String,
    exp_date: String,
    ipfs_hash: String,
    now: i64,
) -> Batch {
    Batch {
        batch_id: batch_id,
        product_name: product_name,
        manufacturer: ctx.manufacturer,
        current_owner: ctx.manufacturer,
        mfg_date: mfg_date,
        exp_date: exp_date,
        status: BatchStatus::Valid,
        ipfs_hash: ipfs_hash,
        created_at: now,
        updated_at: now,
    }
}

/// The record `b` as it stands after a custody transfer to `new_owner`
/// at time `now`: only `current_owner` and `updated_at` change.
pub open spec fn transferred(b: Batch, new_owner: Principal, now: i64) -> Batch {
    Batch {
        batch_id: b.batch_id,
        product_name: b.product_name,
        manufacturer: b.manufacturer,
        current_owner: new_owner,
        mfg_date: b.mfg_date,
        exp_date: b.exp_date,
        status: b.status,
        ipfs_hash: b.ipfs_hash,
        created_at: b.created_at,
        updated_at: now,
    }
}

/// The record `b` as it stands after its status is set to `status` at
/// time `now`: only `status` and `updated_at` change.
pub open spec fn with_status(b: Batch, status: BatchStatus, now: i64) -> Batch {
    Batch {
        batch_id: b.batch_id,
        product_name: b.product_name,
        manufacturer: b.manufacturer,
        current_owner: b.current_owner,
        mfg_date: b.mfg_date,
        exp_date: b.exp_date,
        status: status,
        ipfs_hash: b.ipfs_hash,
        created_at: b.created_at,
        updated_at: now,
    }
}

/// How a call of `init_batch` relates the registry before (`pre`) and
/// after (`post`). On success the store gains exactly the created
/// record under `batch_id` and the log gains its creation event; on
/// failure nothing changes and the error is pinned down: the first
/// violated length bound in field order, else `AlreadyExists`.
pub open spec fn init_batch_post(
    pre: Registry,
    post: Registry,
    ctx: InitBatch,
    batch_id: String,
    product_name: String,
    mfg_date: String,
    exp_date: String,
    ipfs_hash: String,
    now: i64,
    r: Result<(), PharmaTraceError>,
) -> bool {
    match r {
        Ok(_) => {
            &&& init_validation_error(batch_id@, product_name@, mfg_date@, exp_date@, ipfs_hash@)
                is None
            &&& !pre.as_map().contains_key(batch_id@)
            &&& post.as_map() == pre.as_map().insert(
                batch_id@,
                created(ctx, batch_id, product_name, mfg_date, exp_date, ipfs_hash, now),
            )
            &&& post.event_log() == pre.event_log().push(
                BatchEvent::Initialized(
                    BatchInitialized {
                        batch_id: batch_id,
                        manufacturer: ctx.manufacturer,
                        product_name: product_name,
                    },
                ),
            )
        },
        Err(e) => {
            &&& post == pre
            &&& match init_validation_error(
                batch_id@,
                product_name@,
                mfg_date@,
                exp_date@,
                ipfs_hash@,
            ) {
                Some(ve) => e == ve,
                None => pre.as_map().contains_key(batch_id@) && e
                    == PharmaTraceError::AlreadyExists,
            }
        },
    }
}

/// How a call of `transfer_batch` relates the registry before and
/// after. Success happens exactly when the record exists, the caller is
/// its current owner and it is not flagged; then only the record's
/// owner and update time change and a transfer event is logged. On
/// failure nothing changes: a missing record is `NotFound`, then a
/// wrong caller is `NotCurrentOwner`, then a flagged batch is
/// `BatchFlagged`.
pub open spec fn transfer_batch_post(
    pre: Registry,
    post: Registry,
    ctx: TransferBatch,
    batch_id: String,
    now: i64,
    r: Result<(), PharmaTraceError>,
) -> bool {
    match r {
        Ok(_) => {
            &&& pre.as_map().contains_key(batch_id@)
            &&& pre.as_map()[batch_id@].current_owner == ctx.current_owner
            &&& pre.as_map()[batch_id@].status != BatchStatus::Flagged
            &&& post.as_map() == pre.as_map().insert(
                batch_id@,
                transferred(pre.as_map()[batch_id@], ctx.new_owner, now),
            )
            &&& post.event_log() == pre.event_log().push(
                BatchEvent::Transferred(
                    BatchTransferred {
                        batch_id: pre.as_map()[batch_id@].batch_id,
                        from: pre.as_map()[batch_id@].current_owner,
                        to: ctx.new_owner,
                    },
                ),
            )
        },
        Err(e) => {
            &&& post == pre
            &&& if !pre.as_map().contains_key(batch_id@) {
                e == PharmaTraceError::NotFound
            } else if pre.as_map()[batch_id@].current_owner != ctx.current_owner {
                e == PharmaTraceError::NotCurrentOwner
            } else {
                pre.as_map()[batch_id@].status == BatchStatus::Flagged && e
                    == PharmaTraceError::BatchFlagged
            }
        },
    }
}

/// How a call of `flag_batch` relates the registry before and after.
/// Success happens exactly when the record exists, the reason is one to
/// `MAX_REASON_LEN` bytes long and the batch is not already flagged;
/// then only the record's status (now `Flagged`) and update time change
/// and a flag event is logged. On failure nothing changes: a missing
/// record is `NotFound`, then an invalid reason is its validation
/// error, then an already flagged batch is `AlreadyFlagged`.
pub open spec fn flag_batch_post(
    pre: Registry,
    post: Registry,
    ctx: FlagBatch,
    batch_id: String,
    reason: String,
    now: i64,
    r: Result<(), PharmaTraceError>,
) -> bool {
    match r {
        Ok(_) => {
            &&& pre.as_map().contains_key(batch_id@)
            &&& reason_validation_error(reason@) is None
            &&& pre.as_map()[batch_id@].status != BatchStatus::Flagged
            &&& post.as_map() == pre.as_map().insert(
                batch_id@,
                with_status(pre.as_map()[batch_id@], BatchStatus::Flagged, now),
            )
            &&& post.event_log() == pre.event_log().push(
                BatchEvent::Flagged(
                    BatchFlagged {
                        batch_id: pre.as_map()[batch_id@].batch_id,
                        flagged_by: ctx.regulator,
                        reason: reason,
                    },
                ),
            )
        },
        Err(e) => {
            &&& post == pre
            &&& if !pre.as_map().contains_key(batch_id@) {
                e == PharmaTraceError::NotFound
            } else {
                match reason_validation_error(reason@) {
                    Some(ve) => e == ve,
                    None => pre.as_map()[batch_id@].status == BatchStatus::Flagged && e
                        == PharmaTraceError::AlreadyFlagged,
                }
            }
        },
    }
}

/// How a call of `update_batch_status` relates the registry before and
/// after. Success happens exactly when the record exists and the caller
/// is its current owner — the current status never blocks this path, so
/// repeating the call with the same status succeeds again, bumps the
/// update time again and logs a fresh event. On failure nothing
/// changes: a missing record is `NotFound`, a wrong caller is
/// `NotAuthorized`.
pub open spec fn update_batch_status_post(
    pre: Registry,
    post: Registry,
    ctx: UpdateBatchStatus,
    batch_id: String,
    new_status: BatchStatus,
    now: i64,
    r: Result<(), PharmaTraceError>,
) -> bool {
    match r {
        Ok(_) => {
            &&& pre.as_map().contains_key(batch_id@)
            &&& pre.as_map()[batch_id@].current_owner == ctx.authority
            &&& post.as_map() == pre.as_map().insert(
                batch_id@,
                with_status(pre.as_map()[batch_id@], new_status, now),
            )
            &&& post.event_log() == pre.event_log().push(
                BatchEvent::StatusUpdated(
                    BatchStatusUpdated {
                        batch_id: pre.as_map()[batch_id@].batch_id,
                        new_status: new_status,
                        updated_by: ctx.authority,
                    },
                ),
            )
        },
        Err(e) => {
            &&& post == pre
            &&& if !pre.as_map().contains_key(batch_id@) {
                e == PharmaTraceError::NotFound
            } else {
                pre.as_map()[batch_id@].current_owner != ctx.authority && e
                    == PharmaTraceError::NotAuthorized
            }
        },
    }
}

/// The batch registry: the keyed record store together with its
/// append-only audit log.
pub struct Registry {
    batches: Vec<Batch>,
    events: Vec<BatchEvent>,
}

impl Registry {
    /// The records in the store, keyed by batch identifier.
    pub closed spec fn as_map(self) -> Map<Seq<char>, Batch> {
        map_of(self.batches@)
    }

    /// The audit log, oldest event first.
    pub closed spec fn event_log(self) -> Seq<BatchEvent> {
        self.events@
    }

    /// Well-formedness: batch identifiers are unique across the store
    /// and every stored record respects its field bounds.
    pub closed spec fn wf(self) -> bool {
        &&& ids_unique(self.batches@)
        &&& forall|i: int| 0 <= i < self.batches@.len() ==> self.batches@[i].wf()
    }

    /// An empty registry: no records, no events.
    pub fn new() -> (r: Registry)
        ensures
            r.wf(),
            r.as_map() == Map::<Seq<char>, Batch>::empty(),
            r.event_log() == Seq::<BatchEvent>::empty(),
    {
        Registry { batches: Vec::new(), events: Vec::new() }
    }

    /// The audit log as a vector, oldest event first.
    pub fn events(&self) -> (r: &Vec<BatchEvent>)
        ensures
            r@ == self.event_log(),
    {
        &self.events
    }

    /// The position of the record keyed by `batch_id`, if any record
    /// carries that identifier.
    fn find_index(&self, batch_id: &String) -> (r: Option<usize>)
        ensures
            match r {
                Some(i) => i < self.batches@.len() && self.batches@[i as int].batch_id@
                    == batch_id@,
                None => !contains_id(self.batches@, batch_id@),
            },
    {
        let n = self.batches.len();
        let mut i: usize = 0;
        while i < n
            invariant
                n == self.batches@.len(),
                i <= n,
                forall|j: int| 0 <= j < i ==> self.batches@[j].batch_id@ != batch_id@,
            decreases n - i,
        {
            if self.batches[i].batch_id == *batch_id {
                return Some(i);
            }
            i += 1;
        }
        None
    }

    /// The record keyed by `batch_id`, if one exists.
    pub fn get_batch(&self, batch_id: &String) -> (r: Option<&Batch>)
        requires
            self.wf(),
        ensures
            match r {
                Some(b) => self.as_map().contains_key(batch_id@) && *b == self.as_map()[batch_id@]
                    && b.wf(),
                None => !self.as_map().contains_key(batch_id@),
            },
    {
        match self.find_index(batch_id) {
            Some(i) => {
                proof {
                    lemma_map_of_index(self.batches@, i as int);
                }
                Some(&self.batches[i])
            },
            None => {
                proof {
                    lemma_map_of_contains(self.batches@, batch_id@);
                }
                None
            },
        }
    }

    /// Create a new batch. The caller becomes both manufacturer and
    /// first owner; the record starts `Valid` with both timestamps set
    /// to `now`. Rejected when a field violates its byte-length bound
    /// or the identifier is already taken.
    pub fn init_batch(
        &mut self,
        ctx: InitBatch,
        batch_id: String,
        product_name: String,
        mfg_date: String,
        exp_date: String,
        ipfs_hash: String,
        now: i64,
    ) -> (r: Result<(), PharmaTraceError>)
        requires
            old(self).wf(),
        ensures
            final(self).wf(),
            init_batch_post(
                *old(self),
                *final(self),
                ctx,
                batch_id,
                product_name,
                mfg_date,
                exp_date,
                ipfs_hash,
                now,
                r,
            ),
    {
        if str_byte_len(&batch_id) > MAX_BATCH_ID_LEN {
            return Err(PharmaTraceError::BatchIdTooLong);
        }
        if str_byte_len(&product_name) > MAX_PRODUCT_NAME_LEN {
            return Err(PharmaTraceError::ProductNameTooLong);
        }
        if str_byte_len(&mfg_date) > MAX_DATE_LEN {
            return Err(PharmaTraceError::DateTooLong);
        }
        if str_byte_len(&exp_date) > MAX_DATE_LEN {
            return Err(PharmaTraceError::DateTooLong);
        }
        if str_byte_len(&ipfs_hash) > MAX_IPFS_HASH_LEN {
            return Err(PharmaTraceError::IpfsHashTooLong);
        }
        match self.find_index(&batch_id) {
            Some(_) => {
                proof {
                    lemma_map_of_contains(self.batches@, batch_id@);
                }
                Err(PharmaTraceError::AlreadyExists)
            },
            None => {
                proof {
                    lemma_map_of_contains(self.batches@, batch_id@);
                }
                let event_batch_id = batch_id.clone();
                let event_product_name = product_name.clone();
                let new_batch = Batch {
                    batch_id,
                    product_name,
                    manufacturer: ctx.manufacturer,
                    current_owner: ctx.manufacturer,
                    mfg_date,
                    exp_date,
                    status: BatchStatus::Valid,
                    ipfs_hash,
                    created_at: now,
                    updated_at: now,
                };
                proof {
                    lemma_map_of_push(self.batches@, new_batch);
                    lemma_ids_unique_push(self.batches@, new_batch);
                }
                self.batches.push(new_batch);
                self.events.push(
                    BatchEvent::Initialized(
                        BatchInitialized {
                            batch_id: event_batch_id,
                            manufacturer: ctx.manufacturer,
                            product_name: event_product_name,
                        },
                    ),
                );
                Ok(())
            },
        }
    }

    /// Move custody of the batch keyed by `batch_id` to
    /// `ctx.new_owner`. Only the current owner may transfer, and never
    /// while the batch is flagged.
    pub fn transfer_batch(
        &mut self,
        ctx: TransferBatch,
        batch_id: &String,
        now: i64,
    ) -> (r: Result<(), PharmaTraceError>)
        requires
            old(self).wf(),
        ensures
            final(self).wf(),
            transfer_batch_post(*old(self), *final(self), ctx, *batch_id, now, r),
    {
        match self.find_index(batch_id) {
            None => {
                proof {
                    lemma_map_of_contains(self.batches@, batch_id@);
                }
                Err(PharmaTraceError::NotFound)
            },
            Some(i) => {
                proof {
                    lemma_map_of_index(self.batches@, i as int);
                }
                if self.batches[i].current_owner != ctx.current_owner {
                    return Err(PharmaTraceError::NotCurrentOwner);
                }
                if self.batches[i].status == BatchStatus::Flagged {
                    return Err(PharmaTraceError::BatchFlagged);
                }
                let old_owner = self.batches[i].current_owner;
                let event_batch_id = self.batches[i].batch_id.clone();
                let updated = Batch {
                    batch_id: self.batches[i].batch_id.clone(),
                    product_name: self.batches[i].product_name.clone(),
                    manufacturer: self.batches[i].manufacturer,
                    current_owner: ctx.new_owner,
                    mfg_date: self.batches[i].mfg_date.clone(),
                    exp_date: self.batches[i].exp_date.clone(),
                    status: self.batches[i].status,
                    ipfs_hash: self.batches[i].ipfs_hash.clone(),
                    created_at: self.batches[i].created_at,
                    updated_at: now,
                };
                proof {
                    lemma_map_of_update(self.batches@, i as int, updated);
                    lemma_ids_unique_update(self.batches@, i as int, updated);
                }
                self.batches[i] = updated;
                self.events.push(
                    BatchEvent::Transferred(
                        BatchTransferred {
                            batch_id: event_batch_id,
                            from: old_owner,
                            to: ctx.new_owner,
                        },
                    ),
                );
                Ok(())
            },
        }
    }

    /// Mark the batch keyed by `batch_id` as suspect, freezing custody
    /// transfers. Any authenticated caller may flag; the reason must be
    /// one to `MAX_REASON_LEN` bytes long, and a batch can be flagged
    /// only once until its status is reset.
    pub fn flag_batch(
        &mut self,
        ctx: FlagBatch,
        batch_id: &String,
        reason: String,
        now: i64,
    ) -> (r: Result<(), PharmaTraceError>)
        requires
            old(self).wf(),
        ensures
            final(self).wf(),
            flag_batch_post(*old(self), *final(self), ctx, *batch_id, reason, now, r),
    {
        match self.find_index(batch_id) {
            None => {
                proof {
                    lemma_map_of_contains(self.batches@, batch_id@);
                }
                Err(PharmaTraceError::NotFound)
            },
            Some(i) => {
                proof {
                    lemma_map_of_index(self.batches@, i as int);
                }
                if str_byte_len(&reason) > MAX_REASON_LEN {
                    return Err(PharmaTraceError::ReasonTooLong);
                }
                if str_byte_len(&reason) == 0 {
                    return Err(PharmaTraceError::ReasonEmpty);
                }
                if self.batches[i].status == BatchStatus::Flagged {
                    return Err(PharmaTraceError::AlreadyFlagged);
                }
                let event_batch_id = self.batches[i].batch_id.clone();
                let updated = Batch {
                    batch_id: self.batches[i].batch_id.clone(),
                    product_name: self.batches[i].product_name.clone(),
                    manufacturer: self.batches[i].manufacturer,
                    current_owner: self.batches[i].current_owner,
                    mfg_date: self.batches[i].mfg_date.clone(),
                    exp_date: self.batches[i].exp_date.clone(),
                    status: BatchStatus::Flagged,
                    ipfs_hash: self.batches[i].ipfs_hash.clone(),
                    created_at: self.batches[i].created_at,
                    updated_at: now,
                };
                proof {
                    lemma_map_of_update(self.batches@, i as int, updated);
                    lemma_ids_unique_update(self.batches@, i as int, updated);
                }
                self.batches[i] = updated;
                self.events.push(
                    BatchEvent::Flagged(
                        BatchFlagged {
                            batch_id: event_batch_id,
                            flagged_by: ctx.regulator,
                            reason,
                        },
                    ),
                );
                Ok(())
            },
        }
    }

    /// Set the status of the batch keyed by `batch_id` to `new_status`.
    /// Only the current owner may do so; any status may be set from any
    /// other, including reopening a flagged batch to `Valid`, and
    /// setting the status it already has.
    pub fn update_batch_status(
        &mut self,
        ctx: UpdateBatchStatus,
        batch_id: &String,
        new_status: BatchStatus,
        now: i64,
    ) -> (r: Result<(), PharmaTraceError>)
        requires
            old(self).wf(),
        ensures
            final(self).wf(),
            update_batch_status_post(*old(self), *final(self), ctx, *batch_id, new_status, now, r),
    {
        match self.find_index(batch_id) {
            None => {
                proof {
                    lemma_map_of_contains(self.batches@, batch_id@);
                }
                Err(PharmaTraceError::NotFound)
            },
            Some(i) => {
                proof {
                    lemma_map_of_index(self.batches@, i as int);
                }
                if self.batches[i].current_owner != ctx.authority {
                    return Err(PharmaTraceError::NotAuthorized);
                }
                let event_batch_id = self.batches[i].batch_id.clone();
                let updated = Batch {
                    batch_id: self.batches[i].batch_id.clone(),
                    product_name: self.batches[i].product_name.clone(),
                    manufacturer: self.batches[i].manufacturer,
                    current_owner: self.batches[i].current_owner,
                    mfg_date: self.batches[i].mfg_date.clone(),
                    exp_date: self.batches[i].exp_date.clone(),
                    status: new_status,
                    ipfs_hash: self.batches[i].ipfs_hash.clone(),
                    created_at: self.batches[i].created_at,
                    updated_at: now,
                };
                proof {
                    lemma_map_of_update(self.batches@, i as int, updated);
                    lemma_ids_unique_update(self.batches@, i as int, updated);
                }
                self.batches[i] = updated;
                self.events.push(
                    BatchEvent::StatusUpdated(
                        BatchStatusUpdated {
                            batch_id: event_batch_id,
                            new_status,
                            updated_by: ctx.authority,
                        },
                    ),
                );
                Ok(())
            },
        }
    }
}

/// The byte length of a string, as `byte_len` measures it.
fn str_byte_len(s: &String) -> (n: usize)
    ensures
        n == byte_len(s@),
{
    let b = s.as_str().as_bytes();
    proof {
        assert(b@ == vstd::utf8::encode_utf8(s@));
    }
    b.len()
}

/// A key is in the keyed view exactly when some record carries it.
pub proof fn lemma_map_of_contains(s: Seq<Batch>, id: Seq<char>)
    ensures
        map_of(s).contains_key(id) <==> contains_id(s, id),
    decreases s.len(),
{
    if s.len() > 0 {
        lemma_map_of_contains(s.drop_last(), id);
        if s.last().batch_id@ == id {
            assert(s[s.len() - 1].batch_id@ == id);
        } else {
            if contains_id(s, id) {
                let i = choose|i: int| 0 <= i < s.len() && s[i].batch_id@ == id;
                assert(s.drop_last()[i] == s[i]);
            }
            if contains_id(s.drop_last(), id) {
                let i = choose|i: int|
                    0 <= i < s.drop_last().len() && s.drop_last()[i].batch_id@ == id;
                assert(s[i] == s.drop_last()[i]);
            }
        }
    }
}

/// Dropping the last record keeps the remaining identifiers unique.
pub proof fn lemma_ids_unique_drop_last(s: Seq<Batch>)
    requires
        s.len() > 0,
        ids_unique(s),
    ensures
        ids_unique(s.drop_last()),
{
    assert forall|i: int, j: int|
        0 <= i < s.drop_last().len() && 0 <= j < s.drop_last().len() && i
            != j implies s.drop_last()[i].batch_id@ != s.drop_last()[j].batch_id@ by {
        assert(s.drop_last()[i] == s[i]);
        assert(s.drop_last()[j] == s[j]);
    }
}

/// When identifiers are unique, the keyed view maps each record's
/// identifier to that record.
pub proof fn lemma_map_of_index(s: Seq<Batch>, i: int)
    requires
        ids_unique(s),
        0 <= i < s.len(),
    ensures
        map_of(s).contains_key(s[i].batch_id@),
        map_of(s)[s[i].batch_id@] == s[i],
    decreases s.len(),
{
    if i < s.len() - 1 {
        lemma_ids_unique_drop_last(s);
        lemma_map_of_index(s.drop_last(), i);
        assert(s.drop_last()[i] == s[i]);
        assert(s[i].batch_id@ != s.last().batch_id@);
    }
}

/// Appending a record adds exactly its entry to the keyed view.
pub proof fn lemma_map_of_push(s: Seq<Batch>, b: Batch)
    ensures
        map_of(s.push(b)) == map_of(s).insert(b.batch_id@, b),
{
    assert(s.push(b).drop_last() =~= s);
    assert(s.push(b).last() == b);
}

/// Appending a record with a fresh identifier keeps identifiers
/// unique.
pub proof fn lemma_ids_unique_push(s: Seq<Batch>, b: Batch)
    requires
        ids_unique(s),
        !contains_id(s, b.batch_id@),
    ensures
        ids_unique(s.push(b)),
{
    let t = s.push(b);
    assert forall|i: int, j: int|
        0 <= i < t.len() && 0 <= j < t.len() && i != j implies t[i].batch_id@
        != t[j].batch_id@ by {
        if i < s.len() && j < s.len() {
        } else if i < s.len() {
            assert(t[i] == s[i]);
            assert(s[i].batch_id@ != b.batch_id@);
        } else {
            assert(t[j] == s[j]);
            assert(s[j].batch_id@ != b.batch_id@);
        }
    }
}

/// Replacing a record by one with the same identifier overwrites
/// exactly its entry in the keyed view.
pub proof fn lemma_map_of_update(s: Seq<Batch>, i: int, b: Batch)
    requires
        ids_unique(s),
        0 <= i < s.len(),
        b.batch_id@ == s[i].batch_id@,
    ensures
        map_of(s.update(i, b)) == map_of(s).insert(b.batch_id@, b),
    decreases s.len(),
{
    let t = s.update(i, b);
    if i == s.len() - 1 {
        assert(t.drop_last() =~= s.drop_last());
        assert(t.last() == b);
        assert(map_of(s.drop_last()).insert(s.last().batch_id@, s.last()).insert(b.batch_id@, b)
            =~= map_of(s.drop_last()).insert(b.batch_id@, b));
    } else {
        assert(t.drop_last() =~= s.drop_last().update(i, b));
        assert(t.last() == s.last());
        lemma_ids_unique_drop_last(s);
        assert(s.drop_last()[i] == s[i]);
        lemma_map_of_update(s.drop_last(), i, b);
        assert(b.batch_id@ != s.last().batch_id@);
        assert(map_of(s.drop_last()).insert(b.batch_id@, b).insert(
            s.last().batch_id@,
            s.last(),
        ) =~= map_of(s.drop_last()).insert(s.last().batch_id@, s.last()).insert(b.batch_id@, b));
    }
}

/// Replacing a record by one with the same identifier keeps
/// identifiers unique.
pub proof fn lemma_ids_unique_update(s: Seq<Batch>, i: int, b: Batch)
    requires
        ids_unique(s),
        0 <= i < s.len(),
        b.batch_id@ == s[i].batch_id@,
    ensures
        ids_unique(s.update(i, b)),
{
    let t = s.update(i, b);
    assert forall|k: int, j: int|
        0 <= k < t.len() && 0 <= j < t.len() && k != j implies t[k].batch_id@
        != t[j].batch_id@ by {
        assert(t[k].batch_id@ == s[k].batch_id@);
        assert(t[j].batch_id@ == s[j].batch_id@);
    }
}

} // verus!
