use ckb_bridge::engine::{Outcome, Policy};
use ckb_bridge::error::BridgeError;
use ckb_bridge::record::{TransferRecord, TransferRequest, TxHash};
use ckb_bridge::status::{Direction, FromCkbLogStatus, ToCkbLogStatus, TransferStatus};
use ckb_bridge::store::{load_from_ckb_log, load_to_ckb_log, TransferLogStore};

fn hash(tag: u8) -> TxHash {
    TxHash { bytes: [tag; 32] }
}

fn policy() -> Policy {
    Policy { confirmation_depth: 1, block_safe_depth: 2 }
}

fn request(id: u64) -> TransferRequest {
    TransferRequest { id, amount: 100, source_address: vec![1], dest_address: vec![2] }
}

fn approved(id: u64) -> TransferRecord {
    let (r, _) = TransferRecord::new(Direction::SourceToDest, request(id))
        .apply(Outcome::Submitted(hash(1)), &policy());
    r
}

#[test]
fn new_store_is_empty() {
    let s = TransferLogStore::new();
    assert_eq!(s.len(), 0);
    assert!(!s.contains(1));
    assert_eq!(s.get(1), None);
}

#[test]
fn put_then_get_returns_the_record() {
    let mut s = TransferLogStore::new();
    let r = approved(1);
    assert_eq!(s.put(r.clone()), Ok(()));
    assert_eq!(s.get(1), Some(r));
    assert!(s.contains(1));
    assert!(!s.contains(2));
    assert_eq!(s.len(), 1);
}

#[test]
fn first_put_must_be_version_one() {
    let mut s = TransferLogStore::new();
    let fresh = TransferRecord::new(Direction::SourceToDest, request(1));
    assert_eq!(s.put(fresh), Err(BridgeError::VersionConflict));
    let mut late = approved(1);
    late.updated_at = 2;
    assert_eq!(s.put(late), Err(BridgeError::VersionConflict));
    assert_eq!(s.len(), 0);
}

#[test]
fn put_refuses_a_stale_version() {
    let mut s = TransferLogStore::new();
    let r = approved(1);
    assert_eq!(s.put(r.clone()), Ok(()));
    // two writers start from the same stored record
    let (a, _) = r.clone().apply(Outcome::Submitted(hash(2)), &policy());
    let (b, _) = r.clone().apply(Outcome::Failed(BridgeError::Transient), &policy());
    assert_eq!(s.put(a.clone()), Ok(()));
    assert_eq!(s.put(b), Err(BridgeError::VersionConflict));
    assert_eq!(s.get(1), Some(a));
    // the same record once more
    assert_eq!(s.put(r), Err(BridgeError::VersionConflict));
    assert_eq!(s.len(), 1);
}

#[test]
fn put_refuses_what_does_not_continue_the_stored_record() {
    let mut s = TransferLogStore::new();
    let r = approved(1);
    assert_eq!(s.put(r.clone()), Ok(()));
    let mut back = r.clone();
    back.status = TransferStatus::ToCkb(ToCkbLogStatus::Initial);
    back.updated_at = 2;
    assert_eq!(s.put(back), Err(BridgeError::Rejected));
    let mut amount = r.clone();
    amount.amount = 5;
    amount.updated_at = 2;
    assert_eq!(s.put(amount), Err(BridgeError::Rejected));
    let mut way = TransferRecord::new(Direction::DestToSource, request(1));
    way.updated_at = 2;
    assert_eq!(s.put(way), Err(BridgeError::Rejected));
    assert_eq!(s.get(1), Some(r));
}

#[test]
fn put_refuses_to_replace_a_terminal_record() {
    let mut s = TransferLogStore::new();
    let r = approved(1);
    assert_eq!(s.put(r.clone()), Ok(()));
    let (failed, _) = r.abort();
    assert_eq!(s.put(failed.clone()), Ok(()));
    let mut again = failed.clone();
    again.updated_at += 1;
    assert_eq!(s.put(again), Err(BridgeError::Rejected));
    assert_eq!(s.get(1), Some(failed));
}

#[test]
fn restore_takes_only_sound_records() {
    let mut s = TransferLogStore::new();
    let r = approved(1);
    assert_eq!(s.restore(r.clone()), Ok(()));
    assert_eq!(s.get(1), Some(r.clone()));
    // nothing is overwritten
    assert_eq!(s.restore(r.clone()), Err(BridgeError::Rejected));
    // never persisted
    let fresh = TransferRecord::new(Direction::SourceToDest, request(2));
    assert_eq!(s.restore(fresh), Err(BridgeError::Rejected));
    // not well formed
    let mut broken = approved(3);
    broken.status = TransferStatus::ToCkb(ToCkbLogStatus::Locked);
    assert_eq!(s.restore(broken), Err(BridgeError::Rejected));
    let mut late = approved(4);
    late.updated_at = 40;
    assert_eq!(s.restore(late.clone()), Ok(()));
    assert_eq!(s.get(4), Some(late));
    assert_eq!(s.len(), 2);
}

#[test]
fn load_creates_a_fresh_record_when_absent() {
    let s = TransferLogStore::new();
    let r = s.load(Direction::SourceToDest, &request(1)).unwrap();
    assert_eq!(r, TransferRecord::new(Direction::SourceToDest, request(1)));
    assert_eq!(r.updated_at, 0);
    // loading stores nothing
    assert_eq!(s.len(), 0);
}

#[test]
fn load_to_ckb_log_returns_the_stored_entry() {
    let mut s = TransferLogStore::new();
    let fresh = load_to_ckb_log(&s, &request(1)).unwrap();
    assert_eq!(fresh.status(), ToCkbLogStatus::Initial);
    assert_eq!(fresh.record.amount, 100);
    let r = approved(1);
    assert_eq!(s.put(r.clone()), Ok(()));
    let log = load_to_ckb_log(&s, &request(1)).unwrap();
    assert_eq!(log.status(), ToCkbLogStatus::Approved);
    assert_eq!(log.record, r);
    assert_eq!(load_from_ckb_log(&s, &request(1)), Err(BridgeError::Rejected));
    let mut other = request(1);
    other.source_address = vec![9];
    assert_eq!(load_to_ckb_log(&s, &other), Err(BridgeError::Rejected));
}

#[test]
fn load_from_ckb_log_returns_the_stored_entry() {
    let mut s = TransferLogStore::new();
    let fresh = load_from_ckb_log(&s, &request(5)).unwrap();
    assert_eq!(fresh.status(), FromCkbLogStatus::Initial);
    assert_eq!(fresh.record.status, TransferStatus::FromCkb(FromCkbLogStatus::Initial));
    let (burned, _) = fresh.record.apply(Outcome::Submitted(hash(3)), &policy());
    assert_eq!(s.put(burned.clone()), Ok(()));
    let log = load_from_ckb_log(&s, &request(5)).unwrap();
    assert_eq!(log.status(), FromCkbLogStatus::Burned);
    assert_eq!(log.record.dest_tx_hash, Some(hash(3)));
    assert_eq!(load_to_ckb_log(&s, &request(5)), Err(BridgeError::Rejected));
}
