use ckb_bridge::command::{CkbBridgeSubCommand, Directive, Report};
use ckb_bridge::engine::{Action, Outcome, Policy};
use ckb_bridge::error::BridgeError;
use ckb_bridge::record::{TransferRecord, TransferRequest, TxHash};
use ckb_bridge::status::{Direction, FromCkbLogStatus, ToCkbLogStatus, TransferStatus};
use ckb_bridge::store::TransferLogStore;

fn hash(tag: u8) -> TxHash {
    TxHash { bytes: [tag; 32] }
}

fn request(id: u64, amount: u128) -> TransferRequest {
    TransferRequest {
        id,
        amount,
        source_address: vec![0xaa; 20],
        dest_address: vec![0xbb; 32],
    }
}

fn command() -> CkbBridgeSubCommand {
    CkbBridgeSubCommand::new(
        TransferLogStore::new(),
        Policy { confirmation_depth: 6, block_safe_depth: 12 },
        None,
        false,
    )
}

/// Adapters that count every call and answer from a script.
struct Adapters {
    approvals: u32,
    locks: u32,
    burns: u32,
    mints: u32,
    releases: u32,
    queries: u32,
    extractions: u32,
    waits: u32,
    /// How often the depth check answers `NotYetReady` before it succeeds.
    not_ready: u32,
    /// Whether the receiving chain refuses the proof.
    reject_proof: bool,
}

impl Adapters {
    fn cooperative() -> Adapters {
        Adapters {
            approvals: 0,
            locks: 0,
            burns: 0,
            mints: 0,
            releases: 0,
            queries: 0,
            extractions: 0,
            waits: 0,
            not_ready: 0,
            reject_proof: false,
        }
    }

    fn broadcasts(&self) -> u32 {
        self.approvals + self.locks + self.burns + self.mints + self.releases
    }

    fn perform(&mut self, action: &Action) -> Outcome {
        match action {
            Action::Approve => {
                self.approvals += 1;
                Outcome::Submitted(hash(1))
            }
            Action::Lock => {
                self.locks += 1;
                Outcome::Submitted(hash(2))
            }
            Action::Burn => {
                self.burns += 1;
                Outcome::Submitted(hash(3))
            }
            Action::QueryTx { .. } => {
                self.queries += 1;
                Outcome::Depth(1)
            }
            Action::ExtractProof { min_depth, .. } => {
                self.extractions += 1;
                if self.not_ready > 0 {
                    self.not_ready -= 1;
                    Outcome::Failed(BridgeError::NotYetReady)
                } else {
                    Outcome::Proof { depth: *min_depth, blob: vec![7, 7, 7] }
                }
            }
            Action::AwaitBlockSafe { min_depth, .. } => {
                self.waits += 1;
                Outcome::Depth(*min_depth)
            }
            Action::Mint => {
                self.mints += 1;
                if self.reject_proof {
                    Outcome::Failed(BridgeError::ProofRejected)
                } else {
                    Outcome::Submitted(hash(4))
                }
            }
            Action::Release => {
                self.releases += 1;
                if self.reject_proof {
                    Outcome::Failed(BridgeError::ProofRejected)
                } else {
                    Outcome::Submitted(hash(5))
                }
            }
        }
    }
}

fn step(
    cmd: &mut CkbBridgeSubCommand,
    direction: Direction,
    req: &TransferRequest,
    report: Option<Report>,
) -> Directive {
    match direction {
        Direction::SourceToDest => cmd.transfer_to_ckb(req, report),
        Direction::DestToSource => cmd.transfer_from_ckb(req, report),
    }
}

/// One call of `advance`: ask what to do, do it, report it.
fn advance_once(
    cmd: &mut CkbBridgeSubCommand,
    adapters: &mut Adapters,
    direction: Direction,
    req: &TransferRequest,
) -> Directive {
    match step(cmd, direction, req, None) {
        Directive::Perform { action, version } => {
            let outcome = adapters.perform(&action);
            step(cmd, direction, req, Some(Report { version, outcome }))
        }
        other => other,
    }
}

fn stored(cmd: &CkbBridgeSubCommand, id: u64) -> TransferRecord {
    cmd.store.get(id).expect("record is in the log")
}

#[test]
fn new_source_to_dest_transfer_runs_to_completion() {
    let mut cmd = command();
    let mut adapters = Adapters::cooperative();
    let req = request(1, 100);
    let expected = [
        ToCkbLogStatus::Approved,
        ToCkbLogStatus::Locked,
        ToCkbLogStatus::ProofReady,
        ToCkbLogStatus::SafeToMint,
        ToCkbLogStatus::Completed,
    ];
    assert!(cmd.store.get(1).is_none());
    for (i, want) in expected.iter().enumerate() {
        let d = advance_once(&mut cmd, &mut adapters, Direction::SourceToDest, &req);
        let rec = stored(&cmd, 1);
        assert_eq!(rec.status, TransferStatus::ToCkb(*want));
        assert_eq!(rec.updated_at, i as u64 + 1);
        assert_eq!(rec.last_error, None);
        if i < 4 {
            assert!(matches!(d, Directive::Perform { .. }));
        } else {
            assert_eq!(d, Directive::Finished);
        }
    }
    let rec = stored(&cmd, 1);
    assert_eq!(rec.amount, 100);
    assert_eq!(rec.source_tx_hash, Some(hash(2)));
    assert_eq!(rec.dest_tx_hash, Some(hash(4)));
    assert_eq!(rec.proof, Some(vec![7, 7, 7]));
    assert_eq!(rec.source_address, vec![0xaa; 20]);
    assert_eq!(rec.dest_address, vec![0xbb; 32]);
    assert_eq!(adapters.approvals, 1);
    assert_eq!(adapters.locks, 1);
    assert_eq!(adapters.extractions, 1);
    assert_eq!(adapters.waits, 1);
    assert_eq!(adapters.mints, 1);
    assert_eq!(adapters.queries, 0);
    assert_eq!(adapters.burns + adapters.releases, 0);
}

#[test]
fn rejected_proof_fails_the_transfer_for_good() {
    let mut cmd = command();
    let mut adapters = Adapters::cooperative();
    adapters.reject_proof = true;
    let req = request(2, 100);
    for _ in 0..4 {
        advance_once(&mut cmd, &mut adapters, Direction::SourceToDest, &req);
    }
    assert_eq!(stored(&cmd, 2).status, TransferStatus::ToCkb(ToCkbLogStatus::SafeToMint));
    let d = advance_once(&mut cmd, &mut adapters, Direction::SourceToDest, &req);
    assert_eq!(d, Directive::Halted(BridgeError::ProofRejected));
    let rec = stored(&cmd, 2);
    assert_eq!(rec.status, TransferStatus::ToCkb(ToCkbLogStatus::Failed));
    assert_eq!(rec.last_error, Some(BridgeError::ProofRejected));
    assert_eq!(rec.dest_tx_hash, None);
    assert_eq!(adapters.mints, 1);
    // no further automatic retries: nothing is performed any more
    for _ in 0..3 {
        let d = advance_once(&mut cmd, &mut adapters, Direction::SourceToDest, &req);
        assert_eq!(d, Directive::Halted(BridgeError::ProofRejected));
    }
    assert_eq!(adapters.mints, 1);
    assert_eq!(stored(&cmd, 2), rec);
}

#[test]
fn not_yet_ready_keeps_the_transfer_locked() {
    let mut cmd = command();
    let mut adapters = Adapters::cooperative();
    adapters.not_ready = 2;
    let req = request(3, 100);
    advance_once(&mut cmd, &mut adapters, Direction::SourceToDest, &req);
    advance_once(&mut cmd, &mut adapters, Direction::SourceToDest, &req);
    let locked = stored(&cmd, 3);
    assert_eq!(locked.status, TransferStatus::ToCkb(ToCkbLogStatus::Locked));
    for _ in 0..2 {
        let d = advance_once(&mut cmd, &mut adapters, Direction::SourceToDest, &req);
        assert_eq!(d, Directive::Halted(BridgeError::NotYetReady));
        let rec = stored(&cmd, 3);
        assert_eq!(rec.status, TransferStatus::ToCkb(ToCkbLogStatus::Locked));
        assert_eq!(rec.last_error, None);
        assert_eq!(rec, locked);
    }
    let d = advance_once(&mut cmd, &mut adapters, Direction::SourceToDest, &req);
    assert!(matches!(d, Directive::Perform { action: Action::AwaitBlockSafe { .. }, .. }));
    let rec = stored(&cmd, 3);
    assert_eq!(rec.status, TransferStatus::ToCkb(ToCkbLogStatus::ProofReady));
    assert_eq!(rec.last_error, None);
    assert_eq!(adapters.extractions, 3);
    assert_eq!(adapters.locks, 1);
}

#[test]
fn shallow_depth_keeps_the_transfer_locked() {
    let mut cmd = command();
    let mut adapters = Adapters::cooperative();
    let req = request(4, 100);
    advance_once(&mut cmd, &mut adapters, Direction::SourceToDest, &req);
    advance_once(&mut cmd, &mut adapters, Direction::SourceToDest, &req);
    let locked = stored(&cmd, 4);
    for depth in [0u64, 5] {
        let d = cmd.transfer_to_ckb(
            &req,
            Some(Report { version: locked.updated_at, outcome: Outcome::Proof { depth, blob: vec![1] } }),
        );
        assert_eq!(d, Directive::Halted(BridgeError::NotYetReady));
        assert_eq!(stored(&cmd, 4), locked);
    }
    let d = cmd.transfer_to_ckb(
        &req,
        Some(Report { version: locked.updated_at, outcome: Outcome::Depth(100) }),
    );
    assert_eq!(d, Directive::Halted(BridgeError::NotYetReady));
    assert_eq!(stored(&cmd, 4), locked);
    let d = cmd.transfer_to_ckb(
        &req,
        Some(Report { version: locked.updated_at, outcome: Outcome::Proof { depth: 6, blob: vec![1] } }),
    );
    assert_eq!(
        d,
        Directive::Perform {
            action: Action::AwaitBlockSafe { tx: hash(2), min_depth: 12 },
            version: 3
        }
    );
    assert_eq!(stored(&cmd, 4).proof, Some(vec![1]));
}

#[test]
fn progress_source_to_dest_takes_five_calls() {
    let mut cmd = command();
    let mut adapters = Adapters::cooperative();
    let req = request(5, 1);
    let mut calls = 0;
    loop {
        let d = advance_once(&mut cmd, &mut adapters, Direction::SourceToDest, &req);
        calls += 1;
        if d == Directive::Finished {
            break;
        }
        assert!(calls < 10);
    }
    assert_eq!(calls, 5);
    assert_eq!(adapters.broadcasts(), 3);
    assert_eq!(stored(&cmd, 5).status, TransferStatus::ToCkb(ToCkbLogStatus::Completed));
}

#[test]
fn progress_dest_to_source_takes_four_calls() {
    let mut cmd = command();
    let mut adapters = Adapters::cooperative();
    let req = request(6, 1);
    let expected = [
        FromCkbLogStatus::Burned,
        FromCkbLogStatus::ProofReady,
        FromCkbLogStatus::SafeToRelease,
        FromCkbLogStatus::Completed,
    ];
    for want in expected.iter() {
        advance_once(&mut cmd, &mut adapters, Direction::DestToSource, &req);
        assert_eq!(stored(&cmd, 6).status, TransferStatus::FromCkb(*want));
    }
    let rec = stored(&cmd, 6);
    assert_eq!(rec.updated_at, 4);
    assert_eq!(rec.dest_tx_hash, Some(hash(3)));
    assert_eq!(rec.source_tx_hash, Some(hash(5)));
    assert_eq!(rec.proof, Some(vec![7, 7, 7]));
    assert_eq!(adapters.burns, 1);
    assert_eq!(adapters.releases, 1);
    assert_eq!(adapters.extractions, 1);
    assert_eq!(adapters.waits, 1);
    assert_eq!(adapters.approvals + adapters.locks + adapters.mints + adapters.queries, 0);
}

#[test]
fn burn_proof_needs_no_confirmation_depth() {
    let mut cmd = command();
    let req = request(7, 1);
    let d = cmd.transfer_from_ckb(&req, None);
    assert_eq!(d, Directive::Perform { action: Action::Burn, version: 0 });
    let d = cmd.transfer_from_ckb(
        &req,
        Some(Report { version: 0, outcome: Outcome::Submitted(hash(3)) }),
    );
    assert_eq!(
        d,
        Directive::Perform { action: Action::ExtractProof { tx: hash(3), min_depth: 0 }, version: 1 }
    );
    let d = cmd.transfer_from_ckb(
        &req,
        Some(Report { version: 1, outcome: Outcome::Proof { depth: 0, blob: vec![9] } }),
    );
    assert_eq!(
        d,
        Directive::Perform {
            action: Action::AwaitBlockSafe { tx: hash(3), min_depth: 12 },
            version: 2
        }
    );
}

#[test]
fn idempotent_reentry_keeps_call_counts_at_one() {
    let mut cmd = command();
    let mut adapters = Adapters::cooperative();
    let req = request(8, 100);
    for _ in 0..5 {
        advance_once(&mut cmd, &mut adapters, Direction::SourceToDest, &req);
    }
    let done = stored(&cmd, 8);
    for _ in 0..5 {
        let d = advance_once(&mut cmd, &mut adapters, Direction::SourceToDest, &req);
        assert_eq!(d, Directive::Finished);
    }
    assert_eq!(adapters.approvals, 1);
    assert_eq!(adapters.locks, 1);
    assert_eq!(adapters.extractions, 1);
    assert_eq!(adapters.waits, 1);
    assert_eq!(adapters.mints, 1);
    assert_eq!(stored(&cmd, 8), done);
}

#[test]
fn stale_report_is_not_applied_twice() {
    let mut cmd = command();
    let req = request(9, 100);
    let d = cmd.transfer_to_ckb(&req, None);
    assert_eq!(d, Directive::Perform { action: Action::Approve, version: 0 });
    let first = cmd.transfer_to_ckb(
        &req,
        Some(Report { version: 0, outcome: Outcome::Submitted(hash(1)) }),
    );
    assert_eq!(first, Directive::Perform { action: Action::Lock, version: 1 });
    let rec = stored(&cmd, 9);
    // the same report once more: the record has moved on
    let again = cmd.transfer_to_ckb(
        &req,
        Some(Report { version: 0, outcome: Outcome::Submitted(hash(1)) }),
    );
    assert_eq!(again, Directive::Halted(BridgeError::VersionConflict));
    assert_eq!(stored(&cmd, 9), rec);
}

#[test]
fn known_lock_transaction_is_queried_not_rebroadcast() {
    let mut cmd = command();
    let mut adapters = Adapters::cooperative();
    let req = request(10, 100);
    let mut rec = TransferRecord::new(Direction::SourceToDest, req.clone());
    rec.status = TransferStatus::ToCkb(ToCkbLogStatus::Approved);
    rec.source_tx_hash = Some(hash(0x42));
    rec.updated_at = 1;
    assert!(rec.is_well_formed());
    assert_eq!(cmd.store.restore(rec), Ok(()));
    let d = cmd.transfer_to_ckb(&req, None);
    assert_eq!(d, Directive::Perform { action: Action::QueryTx { tx: hash(0x42) }, version: 1 });
    advance_once(&mut cmd, &mut adapters, Direction::SourceToDest, &req);
    let rec = stored(&cmd, 10);
    assert_eq!(rec.status, TransferStatus::ToCkb(ToCkbLogStatus::Locked));
    assert_eq!(rec.source_tx_hash, Some(hash(0x42)));
    assert_eq!(adapters.locks, 0);
    assert_eq!(adapters.queries, 1);
}

#[test]
fn known_mint_transaction_is_queried_not_rebroadcast() {
    let mut cmd = command();
    let mut adapters = Adapters::cooperative();
    let req = request(11, 100);
    let mut rec = TransferRecord::new(Direction::SourceToDest, req.clone());
    rec.status = TransferStatus::ToCkb(ToCkbLogStatus::SafeToMint);
    rec.source_tx_hash = Some(hash(2));
    rec.proof = Some(vec![1, 2]);
    rec.dest_tx_hash = Some(hash(0x43));
    rec.updated_at = 4;
    assert_eq!(cmd.store.restore(rec), Ok(()));
    let d = advance_once(&mut cmd, &mut adapters, Direction::SourceToDest, &req);
    assert_eq!(d, Directive::Finished);
    assert_eq!(adapters.mints, 0);
    assert_eq!(adapters.queries, 1);
    assert_eq!(stored(&cmd, 11).dest_tx_hash, Some(hash(0x43)));
}

#[test]
fn crash_recovery_reaches_the_same_end() {
    let req = request(12, 100);
    // the uninterrupted run
    let mut whole = command();
    let mut adapters = Adapters::cooperative();
    for _ in 0..5 {
        advance_once(&mut whole, &mut adapters, Direction::SourceToDest, &req);
    }
    let want = stored(&whole, 12);
    for cut in 0..5 {
        let mut first = command();
        let mut adapters = Adapters::cooperative();
        for _ in 0..cut {
            advance_once(&mut first, &mut adapters, Direction::SourceToDest, &req);
        }
        // what is on disk at the crash
        let persisted = first.store.get(12);
        drop(first);
        let mut second = command();
        if let Some(rec) = persisted {
            assert_eq!(second.store.restore(rec), Ok(()));
        }
        let mut calls = cut;
        loop {
            let d = advance_once(&mut second, &mut adapters, Direction::SourceToDest, &req);
            calls += 1;
            if d == Directive::Finished {
                break;
            }
            assert!(calls < 10);
        }
        assert_eq!(calls, 5);
        assert_eq!(stored(&second, 12), want);
        assert_eq!(adapters.approvals, 1);
        assert_eq!(adapters.locks, 1);
        assert_eq!(adapters.mints, 1);
        assert_eq!(adapters.extractions, 1);
        assert_eq!(adapters.waits, 1);
    }
}

#[test]
fn terminal_records_are_immutable() {
    let mut cmd = command();
    let mut adapters = Adapters::cooperative();
    let req = request(13, 100);
    for _ in 0..5 {
        advance_once(&mut cmd, &mut adapters, Direction::SourceToDest, &req);
    }
    let done = stored(&cmd, 13);
    let outcomes = vec![
        Outcome::Submitted(hash(9)),
        Outcome::Depth(1000),
        Outcome::Proof { depth: 1000, blob: vec![1] },
        Outcome::Failed(BridgeError::ProofRejected),
        Outcome::Failed(BridgeError::Transient),
    ];
    for outcome in outcomes {
        let d = cmd.transfer_to_ckb(&req, Some(Report { version: done.updated_at, outcome }));
        assert_eq!(d, Directive::Finished);
        assert_eq!(stored(&cmd, 13), done);
    }
}

#[test]
fn transient_error_is_recorded_and_cleared_by_success() {
    let mut cmd = command();
    let req = request(14, 100);
    let d = cmd.transfer_to_ckb(
        &req,
        Some(Report { version: 0, outcome: Outcome::Failed(BridgeError::Transient) }),
    );
    assert_eq!(d, Directive::Halted(BridgeError::Transient));
    let rec = stored(&cmd, 14);
    assert_eq!(rec.status, TransferStatus::ToCkb(ToCkbLogStatus::Initial));
    assert_eq!(rec.last_error, Some(BridgeError::Transient));
    assert_eq!(rec.updated_at, 1);
    let d = cmd.transfer_to_ckb(&req, None);
    assert_eq!(d, Directive::Perform { action: Action::Approve, version: 1 });
    cmd.transfer_to_ckb(&req, Some(Report { version: 1, outcome: Outcome::Submitted(hash(1)) }));
    let rec = stored(&cmd, 14);
    assert_eq!(rec.status, TransferStatus::ToCkb(ToCkbLogStatus::Approved));
    assert_eq!(rec.last_error, None);
    assert_eq!(rec.updated_at, 2);
}

#[test]
fn identifier_of_another_transfer_is_rejected() {
    let mut cmd = command();
    let mut adapters = Adapters::cooperative();
    let req = request(15, 100);
    advance_once(&mut cmd, &mut adapters, Direction::SourceToDest, &req);
    let rec = stored(&cmd, 15);
    // the other direction under the same identifier
    assert_eq!(cmd.transfer_from_ckb(&req, None), Directive::Halted(BridgeError::Rejected));
    // another amount under the same identifier
    assert_eq!(
        cmd.transfer_to_ckb(&request(15, 101), None),
        Directive::Halted(BridgeError::Rejected)
    );
    let mut other = request(15, 100);
    other.dest_address = vec![0xbc; 32];
    assert_eq!(cmd.transfer_to_ckb(&other, None), Directive::Halted(BridgeError::Rejected));
    assert_eq!(stored(&cmd, 15), rec);
    assert_eq!(cmd.store.len(), 1);
}

#[test]
fn transfers_with_different_ids_are_independent() {
    let mut cmd = command();
    let mut adapters = Adapters::cooperative();
    let a = request(16, 100);
    let b = request(17, 200);
    advance_once(&mut cmd, &mut adapters, Direction::SourceToDest, &a);
    advance_once(&mut cmd, &mut adapters, Direction::DestToSource, &b);
    advance_once(&mut cmd, &mut adapters, Direction::SourceToDest, &a);
    assert_eq!(stored(&cmd, 16).status, TransferStatus::ToCkb(ToCkbLogStatus::Locked));
    assert_eq!(stored(&cmd, 17).status, TransferStatus::FromCkb(FromCkbLogStatus::Burned));
    assert_eq!(stored(&cmd, 17).amount, 200);
    assert_eq!(cmd.store.len(), 2);
}
