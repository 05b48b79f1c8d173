//! Laws of the registry's state machine, stated and proved over the
//! operations' transition predicates. Each lemma's `requires` holds
//! exactly the transition predicate of one operation (together with the
//! facts the law assumes about the registry before the call), so it
//! applies to every call of that operation.

use vstd::prelude::*;
use crate::batch::byte_len;
use crate::batch::Batch;
use crate::batch::BatchStatus;
use crate::errors::PharmaTraceError;
use crate::registry::flag_batch_post;
use crate::registry::init_batch_post;
use crate::registry::init_validation_error;
use crate::registry::transfer_batch_post;
use crate::registry::update_batch_status_post;
use crate::registry::FlagBatch;
use crate::registry::InitBatch;
use crate::registry::Registry;
use crate::registry::TransferBatch;
use crate::registry::UpdateBatchStatus;
use crate::registry::MAX_REASON_LEN;

verus! {

/// Law: a successfully initialized batch is owned by the caller that
/// created it — manufacturer and current owner are both that caller —
/// starts in status `Valid`, and its creation and update timestamps
/// coincide.
pub proof fn lemma_init_establishes_ownership(
    pre: Registry,
    post: Registry,
    ctx: InitBatch,
    batch_id: String,
    product_name: String,
    mfg_date: String,
    exp_date: String,
    ipfs_hash: String,
    now: i64,
    r: Result<(), PharmaTraceError>,
)
    requires
        init_batch_post(
            pre,
            post,
            ctx,
            batch_id,
            product_name,
            mfg_date,
            exp_date,
            ipfs_hash,
            now,
            r,
        ),
        r is Ok,
    ensures
        post.as_map().contains_key(batch_id@),
        post.as_map()[batch_id@].manufacturer == ctx.manufacturer,
        post.as_map()[batch_id@].current_owner == ctx.manufacturer,
        post.as_map()[batch_id@].status == BatchStatus::Valid,
        post.as_map()[batch_id@].created_at == post.as_map()[batch_id@].updated_at,
{
}

/// Law: creating a batch under an identifier that is already taken
/// fails with `AlreadyExists` and leaves the registry — in particular
/// the record stored under that identifier — unchanged.
pub proof fn lemma_reinit_rejected(
    pre: Registry,
    post: Registry,
    ctx: InitBatch,
    batch_id: String,
    product_name: String,
    mfg_date: String,
    exp_date: String,
    ipfs_hash: String,
    now: i64,
    r: Result<(), PharmaTraceError>,
)
    requires
        init_batch_post(
            pre,
            post,
            ctx,
            batch_id,
            product_name,
            mfg_date,
            exp_date,
            ipfs_hash,
            now,
            r,
        ),
        init_validation_error(batch_id@, product_name@, mfg_date@, exp_date@, ipfs_hash@) is None,
        pre.as_map().contains_key(batch_id@),
    ensures
        r == Result::<(), PharmaTraceError>::Err(PharmaTraceError::AlreadyExists),
        post == pre,
{
}

/// Law: a transfer attempted by a caller other than the batch's
/// current owner fails with `NotCurrentOwner` and leaves the registry —
/// in particular the record's owner and update timestamp — unchanged.
pub proof fn lemma_transfer_by_non_owner_rejected(
    pre: Registry,
    post: Registry,
    ctx: TransferBatch,
    batch_id: String,
    now: i64,
    r: Result<(), PharmaTraceError>,
)
    requires
        transfer_batch_post(pre, post, ctx, batch_id, now, r),
        pre.as_map().contains_key(batch_id@),
        pre.as_map()[batch_id@].current_owner != ctx.current_owner,
    ensures
        r == Result::<(), PharmaTraceError>::Err(PharmaTraceError::NotCurrentOwner),
        post == pre,
{
}

/// Law: no transfer of a flagged batch ever succeeds, whoever calls,
/// and the registry is left unchanged. When the caller is the batch's
/// current owner the error is `BatchFlagged`; any other caller is
/// turned away as `NotCurrentOwner` before the status is consulted.
pub proof fn lemma_transfer_of_flagged_rejected(
    pre: Registry,
    post: Registry,
    ctx: TransferBatch,
    batch_id: String,
    now: i64,
    r: Result<(), PharmaTraceError>,
)
    requires
        transfer_batch_post(pre, post, ctx, batch_id, now, r),
        pre.as_map().contains_key(batch_id@),
        pre.as_map()[batch_id@].status == BatchStatus::Flagged,
    ensures
        r is Err,
        post == pre,
        pre.as_map()[batch_id@].current_owner == ctx.current_owner ==> r == Result::<
            (),
            PharmaTraceError,
        >::Err(PharmaTraceError::BatchFlagged),
{
}

/// Law: on an existing, unflagged batch the outcome of `flag_batch` is
/// decided by the reason's byte length alone — empty is rejected as
/// `ReasonEmpty`, longer than `MAX_REASON_LEN` bytes as
/// `ReasonTooLong`, and anything in between succeeds; both rejections
/// leave the registry unchanged.
pub proof fn lemma_flag_reason_validation(
    pre: Registry,
    post: Registry,
    ctx: FlagBatch,
    batch_id: String,
    reason: String,
    now: i64,
    r: Result<(), PharmaTraceError>,
)
    requires
        flag_batch_post(pre, post, ctx, batch_id, reason, now, r),
        pre.as_map().contains_key(batch_id@),
        pre.as_map()[batch_id@].status != BatchStatus::Flagged,
    ensures
        byte_len(reason@) == 0 ==> r == Result::<(), PharmaTraceError>::Err(
            PharmaTraceError::ReasonEmpty,
        ) && post == pre,
        byte_len(reason@) > MAX_REASON_LEN ==> r == Result::<(), PharmaTraceError>::Err(
            PharmaTraceError::ReasonTooLong,
        ) && post == pre,
        1 <= byte_len(reason@) <= MAX_REASON_LEN ==> r is Ok,
{
}

/// Law: flagging a batch that is already flagged fails with
/// `AlreadyFlagged` and leaves the registry unchanged, whatever the
/// reason says — so of two flag calls on the same batch, the second is
/// always rejected.
pub proof fn lemma_reflag_rejected(
    pre: Registry,
    post: Registry,
    ctx: FlagBatch,
    batch_id: String,
    reason: String,
    now: i64,
    r: Result<(), PharmaTraceError>,
)
    requires
        flag_batch_post(pre, post, ctx, batch_id, reason, now, r),
        pre.as_map().contains_key(batch_id@),
        pre.as_map()[batch_id@].status == BatchStatus::Flagged,
        1 <= byte_len(reason@) <= MAX_REASON_LEN,
    ensures
        r == Result::<(), PharmaTraceError>::Err(PharmaTraceError::AlreadyFlagged),
        post == pre,
{
}

/// Law: a status update by the batch's current owner always succeeds,
/// whatever status the batch already has — in particular, setting the
/// status it already carries succeeds again. Each success sets the
/// update timestamp to the call's time and appends a fresh event, so
/// repeated calls are never silently dropped.
pub proof fn lemma_update_status_never_blocked(
    pre: Registry,
    post: Registry,
    ctx: UpdateBatchStatus,
    batch_id: String,
    new_status: BatchStatus,
    now: i64,
    r: Result<(), PharmaTraceError>,
)
    requires
        update_batch_status_post(pre, post, ctx, batch_id, new_status, now, r),
        pre.as_map().contains_key(batch_id@),
        pre.as_map()[batch_id@].current_owner == ctx.authority,
    ensures
        r is Ok,
        post.as_map()[batch_id@].status == new_status,
        post.as_map()[batch_id@].updated_at == now,
        post.as_map()[batch_id@].current_owner == pre.as_map()[batch_id@].current_owner,
        post.event_log().len() == pre.event_log().len() + 1,
{
}


/// The fields of a batch record that no operation may ever change:
/// its identifier, product name, manufacturer, dates, metadata pointer
/// and creation time.
pub open spec fn same_identity(a: Batch, b: Batch) -> bool {
    &&& a.batch_id == b.batch_id
    &&& a.product_name == b.product_name
    &&& a.manufacturer == b.manufacturer
    &&& a.mfg_date == b.mfg_date
    &&& a.exp_date == b.exp_date
    &&& a.ipfs_hash == b.ipfs_hash
    &&& a.created_at == b.created_at
}

/// Every record present before survives, identity intact.
pub open spec fn records_persist(pre: Registry, post: Registry) -> bool {
    forall|id: Seq<char>| #[trigger]
        pre.as_map().contains_key(id) ==> post.as_map().contains_key(id) && same_identity(
            pre.as_map()[id],
            post.as_map()[id],
        )
}

/// Law: `init_batch` never removes or rewrites an existing record — it
/// can only add a new one.
pub proof fn lemma_init_preserves_records(
    pre: Registry,
    post: Registry,
    ctx: InitBatch,
    batch_id: String,
    product_name: String,
    mfg_date: String,
    exp_date: String,
    ipfs_hash: String,
    now: i64,
    r: Result<(), PharmaTraceError>,
)
    requires
        init_batch_post(
            pre,
            post,
            ctx,
            batch_id,
            product_name,
            mfg_date,
            exp_date,
            ipfs_hash,
            now,
            r,
        ),
    ensures
        records_persist(pre, post),
{
}

/// Law: `transfer_batch` never removes a record and never changes a
/// record's identity fields — it can only move custody.
pub proof fn lemma_transfer_preserves_identity(
    pre: Registry,
    post: Registry,
    ctx: TransferBatch,
    batch_id: String,
    now: i64,
    r: Result<(), PharmaTraceError>,
)
    requires
        transfer_batch_post(pre, post, ctx, batch_id, now, r),
    ensures
        records_persist(pre, post),
{
}

/// Law: `flag_batch` never removes a record and never changes a
/// record's identity fields — it can only set the status.
pub proof fn lemma_flag_preserves_identity(
    pre: Registry,
    post: Registry,
    ctx: FlagBatch,
    batch_id: String,
    reason: String,
    now: i64,
    r: Result<(), PharmaTraceError>,
)
    requires
        flag_batch_post(pre, post, ctx, batch_id, reason, now, r),
    ensures
        records_persist(pre, post),
{
}

/// Law: `update_batch_status` never removes a record, never changes a
/// record's identity fields, and never moves custody — it can only set
/// the status.
pub proof fn lemma_update_preserves_identity(
    pre: Registry,
    post: Registry,
    ctx: UpdateBatchStatus,
    batch_id: String,
    new_status: BatchStatus,
    now: i64,
    r: Result<(), PharmaTraceError>,
)
    requires
        update_batch_status_post(pre, post, ctx, batch_id, new_status, now, r),
    ensures
        records_persist(pre, post),
        forall|id: Seq<char>| #[trigger]
            pre.as_map().contains_key(id) ==> post.as_map()[id].current_owner
                == pre.as_map()[id].current_owner,
{
}

} // verus!
