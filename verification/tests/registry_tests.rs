use pharmatrace::batch::BatchStatus;
use pharmatrace::batch::Principal;
use pharmatrace::errors::PharmaTraceError;
use pharmatrace::events::BatchEvent;
use pharmatrace::registry::FlagBatch;
use pharmatrace::registry::InitBatch;
use pharmatrace::registry::Registry;
use pharmatrace::registry::TransferBatch;
use pharmatrace::registry::UpdateBatchStatus;

const M: Principal = Principal { key: 1 };
const D: Principal = Principal { key: 2 };
const R: Principal = Principal { key: 3 };
const X: Principal = Principal { key: 4 };

fn init_b1(reg: &mut Registry, now: i64) {
    let r = reg.init_batch(
        InitBatch { manufacturer: M },
        String::from("B1"),
        String::from("Aspirin"),
        String::from("2024-01-01"),
        String::from("2026-01-01"),
        String::from("Qm123"),
        now,
    );
    assert_eq!(r, Ok(()));
}

#[test]
fn init_batch_creates_owned_valid_record() {
    let mut reg = Registry::new();
    init_b1(&mut reg, 100);
    let b = reg.get_batch(&String::from("B1")).expect("record must exist");
    assert_eq!(b.batch_id, "B1");
    assert_eq!(b.product_name, "Aspirin");
    assert_eq!(b.manufacturer, M);
    assert_eq!(b.current_owner, M);
    assert_eq!(b.mfg_date, "2024-01-01");
    assert_eq!(b.exp_date, "2026-01-01");
    assert_eq!(b.status, BatchStatus::Valid);
    assert_eq!(b.ipfs_hash, "Qm123");
    assert_eq!(b.created_at, 100);
    assert_eq!(b.updated_at, 100);
}

#[test]
fn init_batch_emits_initialized_event() {
    let mut reg = Registry::new();
    init_b1(&mut reg, 100);
    assert_eq!(reg.events().len(), 1);
    match &reg.events()[0] {
        BatchEvent::Initialized(e) => {
            assert_eq!(e.batch_id, "B1");
            assert_eq!(e.manufacturer, M);
            assert_eq!(e.product_name, "Aspirin");
        }
        _ => panic!("expected an Initialized event"),
    }
}

#[test]
fn reinit_same_batch_id_rejected() {
    let mut reg = Registry::new();
    init_b1(&mut reg, 100);
    let r = reg.init_batch(
        InitBatch { manufacturer: X },
        String::from("B1"),
        String::from("Ibuprofen"),
        String::from("2025-01-01"),
        String::from("2027-01-01"),
        String::from("Qm456"),
        200,
    );
    assert_eq!(r, Err(PharmaTraceError::AlreadyExists));
    let b = reg.get_batch(&String::from("B1")).expect("record must exist");
    assert_eq!(b.product_name, "Aspirin");
    assert_eq!(b.manufacturer, M);
    assert_eq!(b.current_owner, M);
    assert_eq!(b.updated_at, 100);
    assert_eq!(reg.events().len(), 1);
}

#[test]
fn init_validation_errors() {
    let mut reg = Registry::new();
    let long_id = "a".repeat(65);
    let r = reg.init_batch(
        InitBatch { manufacturer: M },
        long_id,
        String::from("p"),
        String::from("d"),
        String::from("d"),
        String::from("h"),
        1,
    );
    assert_eq!(r, Err(PharmaTraceError::BatchIdTooLong));

    let r = reg.init_batch(
        InitBatch { manufacturer: M },
        String::from("B1"),
        "p".repeat(129),
        String::from("d"),
        String::from("d"),
        String::from("h"),
        1,
    );
    assert_eq!(r, Err(PharmaTraceError::ProductNameTooLong));

    let r = reg.init_batch(
        InitBatch { manufacturer: M },
        String::from("B1"),
        String::from("p"),
        "d".repeat(33),
        String::from("d"),
        String::from("h"),
        1,
    );
    assert_eq!(r, Err(PharmaTraceError::DateTooLong));

    let r = reg.init_batch(
        InitBatch { manufacturer: M },
        String::from("B1"),
        String::from("p"),
        String::from("d"),
        "d".repeat(33),
        String::from("h"),
        1,
    );
    assert_eq!(r, Err(PharmaTraceError::DateTooLong));

    let r = reg.init_batch(
        InitBatch { manufacturer: M },
        String::from("B1"),
        String::from("p"),
        String::from("d"),
        String::from("d"),
        "h".repeat(129),
        1,
    );
    assert_eq!(r, Err(PharmaTraceError::IpfsHashTooLong));

    assert!(reg.get_batch(&String::from("B1")).is_none());
    assert_eq!(reg.events().len(), 0);
}

#[test]
fn init_boundary_lengths_succeed() {
    let mut reg = Registry::new();
    let r = reg.init_batch(
        InitBatch { manufacturer: M },
        "a".repeat(64),
        "p".repeat(128),
        "d".repeat(32),
        "d".repeat(32),
        "h".repeat(128),
        1,
    );
    assert_eq!(r, Ok(()));
    assert!(reg.get_batch(&"a".repeat(64)).is_some());
}

#[test]
fn length_bounds_are_measured_in_bytes() {
    let mut reg = Registry::new();
    // 33 two-byte characters: 33 chars but 66 bytes, over the 64-byte bound.
    let r = reg.init_batch(
        InitBatch { manufacturer: M },
        "é".repeat(33),
        String::from("p"),
        String::from("d"),
        String::from("d"),
        String::from("h"),
        1,
    );
    assert_eq!(r, Err(PharmaTraceError::BatchIdTooLong));
}

#[test]
fn transfer_moves_custody_and_logs_event() {
    let mut reg = Registry::new();
    init_b1(&mut reg, 100);
    let r = reg.transfer_batch(
        TransferBatch { current_owner: M, new_owner: D },
        &String::from("B1"),
        200,
    );
    assert_eq!(r, Ok(()));
    let b = reg.get_batch(&String::from("B1")).expect("record must exist");
    assert_eq!(b.current_owner, D);
    assert_eq!(b.manufacturer, M);
    assert_eq!(b.created_at, 100);
    assert_eq!(b.updated_at, 200);
    assert_eq!(reg.events().len(), 2);
    match &reg.events()[1] {
        BatchEvent::Transferred(e) => {
            assert_eq!(e.batch_id, "B1");
            assert_eq!(e.from, M);
            assert_eq!(e.to, D);
        }
        _ => panic!("expected a Transferred event"),
    }
}

#[test]
fn transfer_by_non_owner_rejected() {
    let mut reg = Registry::new();
    init_b1(&mut reg, 100);
    let r = reg.transfer_batch(
        TransferBatch { current_owner: X, new_owner: D },
        &String::from("B1"),
        200,
    );
    assert_eq!(r, Err(PharmaTraceError::NotCurrentOwner));
    let b = reg.get_batch(&String::from("B1")).expect("record must exist");
    assert_eq!(b.current_owner, M);
    assert_eq!(b.updated_at, 100);
    assert_eq!(reg.events().len(), 1);
}

#[test]
fn transfer_of_flagged_batch_rejected() {
    let mut reg = Registry::new();
    init_b1(&mut reg, 100);
    let r = reg.flag_batch(
        FlagBatch { regulator: R },
        &String::from("B1"),
        String::from("recall"),
        200,
    );
    assert_eq!(r, Ok(()));
    // The owner is refused because the batch is flagged.
    let r = reg.transfer_batch(
        TransferBatch { current_owner: M, new_owner: D },
        &String::from("B1"),
        300,
    );
    assert_eq!(r, Err(PharmaTraceError::BatchFlagged));
    // A stranger is refused as not the owner before the status is consulted.
    let r = reg.transfer_batch(
        TransferBatch { current_owner: X, new_owner: D },
        &String::from("B1"),
        300,
    );
    assert_eq!(r, Err(PharmaTraceError::NotCurrentOwner));
    let b = reg.get_batch(&String::from("B1")).expect("record must exist");
    assert_eq!(b.current_owner, M);
    assert_eq!(b.status, BatchStatus::Flagged);
    assert_eq!(b.updated_at, 200);
}

#[test]
fn flag_reason_length_bounds() {
    let mut reg = Registry::new();
    init_b1(&mut reg, 100);

    let r = reg.flag_batch(FlagBatch { regulator: R }, &String::from("B1"), String::new(), 200);
    assert_eq!(r, Err(PharmaTraceError::ReasonEmpty));

    let r = reg.flag_batch(FlagBatch { regulator: R }, &String::from("B1"), "r".repeat(257), 200);
    assert_eq!(r, Err(PharmaTraceError::ReasonTooLong));

    let b = reg.get_batch(&String::from("B1")).expect("record must exist");
    assert_eq!(b.status, BatchStatus::Valid);
    assert_eq!(reg.events().len(), 1);

    let r = reg.flag_batch(FlagBatch { regulator: R }, &String::from("B1"), "r".repeat(256), 200);
    assert_eq!(r, Ok(()));
    let b = reg.get_batch(&String::from("B1")).expect("record must exist");
    assert_eq!(b.status, BatchStatus::Flagged);
}

#[test]
fn flag_emits_flagged_event() {
    let mut reg = Registry::new();
    init_b1(&mut reg, 100);
    let r = reg.flag_batch(
        FlagBatch { regulator: R },
        &String::from("B1"),
        String::from("tampering suspected"),
        200,
    );
    assert_eq!(r, Ok(()));
    match &reg.events()[1] {
        BatchEvent::Flagged(e) => {
            assert_eq!(e.batch_id, "B1");
            assert_eq!(e.flagged_by, R);
            assert_eq!(e.reason, "tampering suspected");
        }
        _ => panic!("expected a Flagged event"),
    }
}

#[test]
fn reflag_rejected() {
    let mut reg = Registry::new();
    init_b1(&mut reg, 100);
    let r = reg.flag_batch(
        FlagBatch { regulator: R },
        &String::from("B1"),
        String::from("recall"),
        200,
    );
    assert_eq!(r, Ok(()));
    let r = reg.flag_batch(
        FlagBatch { regulator: X },
        &String::from("B1"),
        String::from("second opinion"),
        300,
    );
    assert_eq!(r, Err(PharmaTraceError::AlreadyFlagged));
    let b = reg.get_batch(&String::from("B1")).expect("record must exist");
    assert_eq!(b.updated_at, 200);
    assert_eq!(reg.events().len(), 2);
}

#[test]
fn update_status_requires_current_owner() {
    let mut reg = Registry::new();
    init_b1(&mut reg, 100);
    let r = reg.update_batch_status(
        UpdateBatchStatus { authority: X },
        &String::from("B1"),
        BatchStatus::Expired,
        200,
    );
    assert_eq!(r, Err(PharmaTraceError::NotAuthorized));
    let b = reg.get_batch(&String::from("B1")).expect("record must exist");
    assert_eq!(b.status, BatchStatus::Valid);
    assert_eq!(b.updated_at, 100);
}

#[test]
fn update_status_repeat_succeeds_each_time() {
    let mut reg = Registry::new();
    init_b1(&mut reg, 100);
    let r = reg.update_batch_status(
        UpdateBatchStatus { authority: M },
        &String::from("B1"),
        BatchStatus::Expired,
        200,
    );
    assert_eq!(r, Ok(()));
    let r = reg.update_batch_status(
        UpdateBatchStatus { authority: M },
        &String::from("B1"),
        BatchStatus::Expired,
        300,
    );
    assert_eq!(r, Ok(()));
    let b = reg.get_batch(&String::from("B1")).expect("record must exist");
    assert_eq!(b.status, BatchStatus::Expired);
    assert_eq!(b.updated_at, 300);
    assert_eq!(reg.events().len(), 3);
    for ev in &reg.events()[1..] {
        match ev {
            BatchEvent::StatusUpdated(e) => {
                assert_eq!(e.batch_id, "B1");
                assert_eq!(e.new_status, BatchStatus::Expired);
                assert_eq!(e.updated_by, M);
            }
            _ => panic!("expected a StatusUpdated event"),
        }
    }
}

#[test]
fn operations_on_missing_batch_not_found() {
    let mut reg = Registry::new();
    let missing = String::from("NOPE");
    let r = reg.transfer_batch(TransferBatch { current_owner: M, new_owner: D }, &missing, 1);
    assert_eq!(r, Err(PharmaTraceError::NotFound));
    let r = reg.flag_batch(FlagBatch { regulator: R }, &missing, String::from("reason"), 1);
    assert_eq!(r, Err(PharmaTraceError::NotFound));
    let r = reg.update_batch_status(
        UpdateBatchStatus { authority: M },
        &missing,
        BatchStatus::Valid,
        1,
    );
    assert_eq!(r, Err(PharmaTraceError::NotFound));
    assert_eq!(reg.events().len(), 0);
}

#[test]
fn full_custody_scenario() {
    let mut reg = Registry::new();
    // M creates the batch and is its first owner.
    init_b1(&mut reg, 100);
    let b = reg.get_batch(&String::from("B1")).expect("record must exist");
    assert_eq!(b.manufacturer, M);
    assert_eq!(b.current_owner, M);
    assert_eq!(b.status, BatchStatus::Valid);

    // M hands custody to D.
    let r = reg.transfer_batch(
        TransferBatch { current_owner: M, new_owner: D },
        &String::from("B1"),
        200,
    );
    assert_eq!(r, Ok(()));
    let b = reg.get_batch(&String::from("B1")).expect("record must exist");
    assert_eq!(b.current_owner, D);

    // R flags the batch.
    let r = reg.flag_batch(
        FlagBatch { regulator: R },
        &String::from("B1"),
        String::from("recall"),
        300,
    );
    assert_eq!(r, Ok(()));
    let b = reg.get_batch(&String::from("B1")).expect("record must exist");
    assert_eq!(b.status, BatchStatus::Flagged);

    // Custody is frozen: even the owner cannot transfer.
    let r = reg.transfer_batch(
        TransferBatch { current_owner: D, new_owner: X },
        &String::from("B1"),
        400,
    );
    assert_eq!(r, Err(PharmaTraceError::BatchFlagged));

    // D, as current owner, may reopen the batch to Valid.
    let r = reg.update_batch_status(
        UpdateBatchStatus { authority: D },
        &String::from("B1"),
        BatchStatus::Valid,
        500,
    );
    assert_eq!(r, Ok(()));
    let b = reg.get_batch(&String::from("B1")).expect("record must exist");
    assert_eq!(b.status, BatchStatus::Valid);
    assert_eq!(b.current_owner, D);
}

#[test]
fn registries_keep_batches_independent() {
    let mut reg = Registry::new();
    init_b1(&mut reg, 100);
    let r = reg.init_batch(
        InitBatch { manufacturer: D },
        String::from("B2"),
        String::from("Paracetamol"),
        String::from("2024-02-02"),
        String::from("2026-02-02"),
        String::from("Qm456"),
        150,
    );
    assert_eq!(r, Ok(()));
    let r = reg.flag_batch(
        FlagBatch { regulator: R },
        &String::from("B2"),
        String::from("recall"),
        200,
    );
    assert_eq!(r, Ok(()));
    let b1 = reg.get_batch(&String::from("B1")).expect("record must exist");
    assert_eq!(b1.status, BatchStatus::Valid);
    assert_eq!(b1.updated_at, 100);
    let b2 = reg.get_batch(&String::from("B2")).expect("record must exist");
    assert_eq!(b2.status, BatchStatus::Flagged);
    assert_eq!(b2.current_owner, D);
}

#[test]
fn error_messages_describe_the_rejection() {
    assert_eq!(
        PharmaTraceError::BatchIdTooLong.message(),
        "Batch ID is too long (max 64 characters)"
    );
    assert_eq!(
        PharmaTraceError::NotCurrentOwner.message(),
        "You are not the current owner of this batch"
    );
    assert_eq!(PharmaTraceError::AlreadyFlagged.message(), "This batch is already flagged");
}
