//! The shared engine: which chain operation a record calls for, and what
//! the record becomes once the outcome of that operation is known.

use crate::error::{BridgeError, ErrorClass};
use crate::record::{RecordView, TransferRecord, TxHash};
use crate::status::{Direction, Step, TransferStatus};
use vstd::prelude::*;

verus! {

/// Confirmation thresholds that the operator configures.
#[derive(Clone, Copy, Debug, PartialEq, Eq)]
pub struct Policy {
    /// Depth the lock transaction must reach before its proof is accepted.
    pub confirmation_depth: u64,
    /// Depth beyond which the proven block counts as irreversible.
    pub block_safe_depth: u64,
}

/// One call into a chain or proof adapter.
#[derive(Clone, Copy, Debug, PartialEq, Eq)]
pub enum Action {
    /// Broadcast the approval transaction.
    Approve,
    /// Broadcast the lock transaction.
    Lock,
    /// Broadcast the burn transaction.
    Burn,
    /// Ask for the depth of a transaction that was broadcast before,
    /// in place of broadcasting it again.
    QueryTx { tx: TxHash },
    /// Ask for the depth of `tx` and for its inclusion proof.
    ExtractProof { tx: TxHash, min_depth: u64 },
    /// Ask for the depth of `tx`.
    AwaitBlockSafe { tx: TxHash, min_depth: u64 },
    /// Broadcast the transaction that verifies the proof and mints.
    Mint,
    /// Broadcast the transaction that verifies the proof and releases.
    Release,
}

/// What an adapter reported for one [`Action`].
#[derive(Clone, Debug, PartialEq, Eq)]
pub enum Outcome {
    /// A transaction was broadcast; this is its reference.
    Submitted(TxHash),
    /// The tracked transaction is known and this many blocks deep.
    Depth(u64),
    /// The proof of the tracked transaction, taken at the given depth.
    Proof { depth: u64, blob: Vec<u8> },
    /// The adapter failed.
    Failed(BridgeError),
}

/// Mathematical value of an [`Outcome`].
pub enum OutcomeView {
    Submitted(TxHash),
    Depth(u64),
    Proof { depth: u64, blob: Seq<u8> },
    Failed(BridgeError),
}

impl View for Outcome {
    type V = OutcomeView;

    open spec fn view(&self) -> OutcomeView {
        match self {
            Outcome::Submitted(h) => OutcomeView::Submitted(*h),
            Outcome::Depth(n) => OutcomeView::Depth(*n),
            Outcome::Proof { depth, blob } => OutcomeView::Proof { depth: *depth, blob: blob@ },
            Outcome::Failed(e) => OutcomeView::Failed(*e),
        }
    }
}

/// How one attempt to advance a record ended.
#[derive(Clone, Copy, Debug, PartialEq, Eq, Structural)]
pub enum Verdict {
    /// The record moved to the next state of its table.
    Advanced,
    /// The record is terminal; nothing was done.
    Unchanged,
    /// Nothing failed and nothing changed; come back later.
    Pending,
    /// The status stays; the error is remembered and the call may be repeated.
    Retry(BridgeError),
    /// The record moved to the failed state.
    Failed(BridgeError),
    /// The call failed and the record stays as it was.
    Aborted(BridgeError),
}

impl Action {
    /// True for the actions that put a new transaction on a chain.
    pub open spec fn broadcasts(self) -> bool {
        self is Approve || self is Lock || self is Burn || self is Mint || self is Release
    }

    /// True if the outcome completes the action.
    pub open spec fn met_by(self, o: OutcomeView) -> bool {
        match self {
            Action::QueryTx { tx } => o is Depth || o == OutcomeView::Submitted(tx),
            Action::ExtractProof { tx, min_depth } => o matches OutcomeView::Proof { depth, .. }
                && depth >= min_depth,
            Action::AwaitBlockSafe { tx, min_depth } => o matches OutcomeView::Depth(n) && n
                >= min_depth,
            _ => o is Submitted,
        }
    }

    /// True if the outcome says that the action cannot complete yet.
    pub open spec fn deferred_by(self, o: OutcomeView) -> bool {
        match self {
            Action::ExtractProof { tx, min_depth } => o is Depth || (o matches OutcomeView::Proof {
                depth,
                ..
            } && depth < min_depth),
            Action::AwaitBlockSafe { tx, min_depth } => o matches OutcomeView::Depth(n) && n
                < min_depth,
            _ => false,
        }
    }

    /// True if the outcome shows a second transaction where the record
    /// already names one.
    pub open spec fn contradicted_by(self, o: OutcomeView) -> bool {
        self matches Action::QueryTx { tx } && o matches OutcomeView::Submitted(h) && h != tx
    }

    /// True for the actions that put a new transaction on a chain.
    pub fn is_broadcast(&self) -> (b: bool)
        ensures
            b == self.broadcasts(),
    {
        match self {
            Action::Approve | Action::Lock | Action::Burn | Action::Mint | Action::Release => true,
            _ => false,
        }
    }
}

/// Depth that the proven transaction must have reached before its proof is
/// taken: the configured confirmation depth for a lock, none for a burn.
pub open spec fn proof_depth(direction: Direction, p: Policy) -> u64 {
    match direction {
        Direction::SourceToDest => p.confirmation_depth,
        Direction::DestToSource => 0,
    }
}

/// The action that a record calls for: the operation of its state's row,
/// or, where that operation would broadcast a transaction that the record
/// already names, a query for that transaction. `None` for a terminal
/// record.
pub open spec fn plan(r: RecordView, p: Policy) -> Option<Action> {
    match r.status.row() {
        None => None,
        Some(t) => Some(
            match t.0 {
                Step::Approve => Action::Approve,
                Step::Lock => match r.source_tx_hash {
                    Some(tx) => Action::QueryTx { tx },
                    None => Action::Lock,
                },
                Step::Burn => match r.dest_tx_hash {
                    Some(tx) => Action::QueryTx { tx },
                    None => Action::Burn,
                },
                Step::ExtractProof => Action::ExtractProof {
                    tx: r.anchor().unwrap(),
                    min_depth: proof_depth(r.status.way(), p),
                },
                Step::AwaitBlockSafe => Action::AwaitBlockSafe {
                    tx: r.anchor().unwrap(),
                    min_depth: p.block_safe_depth,
                },
                Step::Mint => match r.dest_tx_hash {
                    Some(tx) => Action::QueryTx { tx },
                    None => Action::Mint,
                },
                Step::Release => match r.source_tx_hash {
                    Some(tx) => Action::QueryTx { tx },
                    None => Action::Release,
                },
            },
        ),
    }
}

/// The record after the action `a` was completed by the outcome `o`: the
/// next state, the error cleared, the version raised, and what the outcome
/// carried put in its place.
pub open spec fn advanced(r: RecordView, next: TransferStatus, a: Action, o: OutcomeView)
    -> RecordView {
    RecordView {
        status: next,
        source_tx_hash: match (a, o) {
            (Action::Lock, OutcomeView::Submitted(h)) => Some(h),
            (Action::Release, OutcomeView::Submitted(h)) => Some(h),
            _ => r.source_tx_hash,
        },
        dest_tx_hash: match (a, o) {
            (Action::Burn, OutcomeView::Submitted(h)) => Some(h),
            (Action::Mint, OutcomeView::Submitted(h)) => Some(h),
            _ => r.dest_tx_hash,
        },
        proof: match (a, o) {
            (Action::ExtractProof { .. }, OutcomeView::Proof { depth, blob }) => Some(blob),
            _ => r.proof,
        },
        last_error: None,
        updated_at: (r.updated_at + 1) as u64,
        ..r
    }
}

/// The record after a retryable error: same state, error remembered.
pub open spec fn noted(r: RecordView, e: BridgeError) -> RecordView {
    RecordView { last_error: Some(e), updated_at: (r.updated_at + 1) as u64, ..r }
}

/// The record after a fatal error: failed, cause remembered.
pub open spec fn given_up(r: RecordView, e: BridgeError) -> RecordView {
    RecordView {
        status: r.status.failure(),
        last_error: Some(e),
        updated_at: (r.updated_at + 1) as u64,
        ..r
    }
}

/// The engine's transition function: the record and the verdict that
/// follow from a record and the outcome reported for its planned action.
pub open spec fn react(r: RecordView, o: OutcomeView, p: Policy) -> (RecordView, Verdict) {
    match plan(r, p) {
        None => (r, Verdict::Unchanged),
        Some(a) => if r.updated_at == u64::MAX {
            (r, Verdict::Aborted(BridgeError::VersionExhausted))
        } else if let OutcomeView::Failed(e) = o {
            match e.class() {
                ErrorClass::NotYetReady => (r, Verdict::Pending),
                ErrorClass::Store => (r, Verdict::Aborted(e)),
                ErrorClass::Retryable => (noted(r, e), Verdict::Retry(e)),
                ErrorClass::Fatal => (given_up(r, e), Verdict::Failed(e)),
            }
        } else if a.met_by(o) {
            (advanced(r, r.status.row().unwrap().1, a, o), Verdict::Advanced)
        } else if a.deferred_by(o) {
            (r, Verdict::Pending)
        } else if a.contradicted_by(o) {
            (given_up(r, BridgeError::Irreconcilable), Verdict::Failed(BridgeError::Irreconcilable))
        } else {
            (
                noted(r, BridgeError::IdempotencyConflict),
                Verdict::Retry(BridgeError::IdempotencyConflict),
            )
        },
    }
}

/// What an explicit abort makes of a record: a record that is not terminal
/// fails with `Aborted`; a terminal one stays as it is.
pub open spec fn cancelled(r: RecordView) -> (RecordView, Verdict) {
    if r.status.terminal() {
        (r, Verdict::Unchanged)
    } else if r.updated_at == u64::MAX {
        (r, Verdict::Aborted(BridgeError::VersionExhausted))
    } else {
        (given_up(r, BridgeError::Aborted), Verdict::Failed(BridgeError::Aborted))
    }
}

impl Verdict {
    /// True for the verdicts that come with a changed record, which has to
    /// be persisted.
    pub open spec fn changes(self) -> bool {
        self is Advanced || self is Retry || self is Failed
    }

    /// True for the verdicts that come with a changed record.
    pub fn is_change(self) -> (b: bool)
        ensures
            b == self.changes(),
    {
        match self {
            Verdict::Advanced | Verdict::Retry(_) | Verdict::Failed(_) => true,
            _ => false,
        }
    }
}

impl TransferRecord {
    /// The transaction whose inclusion the proof shows.
    fn anchor_tx(&self) -> (tx: TxHash)
        requires
            self@.anchor() is Some,
        ensures
            Some(tx) == self@.anchor(),
    {
        match self.status {
            TransferStatus::ToCkb(_) => self.source_tx_hash.unwrap(),
            TransferStatus::FromCkb(_) => self.dest_tx_hash.unwrap(),
        }
    }

    /// The adapter call that the record asks for next; `None` once the
    /// record is terminal.
    pub fn next_action(&self, policy: &Policy) -> (a: Option<Action>)
        requires
            self@.wf(),
        ensures
            a == plan(self@, *policy),
            a is None <==> self@.status.terminal(),
    {
        let step = match self.status.transition() {
            None => {
                return None;
            },
            Some(t) => t.0,
        };
        let action = match step {
            Step::Approve => Action::Approve,
            Step::Lock => match self.source_tx_hash {
                Some(tx) => Action::QueryTx { tx },
                None => Action::Lock,
            },
            Step::Burn => match self.dest_tx_hash {
                Some(tx) => Action::QueryTx { tx },
                None => Action::Burn,
            },
            Step::ExtractProof => {
                let min_depth = match self.status.direction() {
                    Direction::SourceToDest => policy.confirmation_depth,
                    Direction::DestToSource => 0,
                };
                Action::ExtractProof { tx: self.anchor_tx(), min_depth }
            },
            Step::AwaitBlockSafe => Action::AwaitBlockSafe {
                tx: self.anchor_tx(),
                min_depth: policy.block_safe_depth,
            },
            Step::Mint => match self.dest_tx_hash {
                Some(tx) => Action::QueryTx { tx },
                None => Action::Mint,
            },
            Step::Release => match self.source_tx_hash {
                Some(tx) => Action::QueryTx { tx },
                None => Action::Release,
            },
        };
        Some(action)
    }

    /// The record with the error remembered.
    fn note(self, e: BridgeError) -> (r: TransferRecord)
        requires
            self.updated_at < u64::MAX,
        ensures
            r@ == noted(self@, e),
    {
        let version = self.updated_at + 1;
        TransferRecord { last_error: Some(e), updated_at: version, ..self }
    }

    /// The record failed for the given cause.
    fn give_up(self, e: BridgeError) -> (r: TransferRecord)
        requires
            self.updated_at < u64::MAX,
        ensures
            r@ == given_up(self@, e),
    {
        let version = self.updated_at + 1;
        let status = self.status.to_failed();
        TransferRecord { status, last_error: Some(e), updated_at: version, ..self }
    }

    /// Applies the outcome that an adapter reported for the record's
    /// planned action. Returns the record that results and how the attempt
    /// ended; a changed record has still to be put into the log.
    pub fn apply(self, outcome: Outcome, policy: &Policy) -> (res: (TransferRecord, Verdict))
        requires
            self@.wf(),
        ensures
            (res.0@, res.1) == react(self@, outcome@, *policy),
            res.0@.wf(),
            res.1.changes() ==> res.0@.follows(self@),
            !res.1.changes() ==> res.0@ == self@,
    {
        proof {
            lemma_react_keeps_invariant(self@, outcome@, *policy);
            lemma_react_follows(self@, outcome@, *policy);
        }
        let action = match self.next_action(policy) {
            None => {
                return (self, Verdict::Unchanged);
            },
            Some(a) => a,
        };
        let next = match self.status.transition() {
            None => {
                return (self, Verdict::Unchanged);
            },
            Some(t) => t.1,
        };
        if self.updated_at == u64::MAX {
            return (self, Verdict::Aborted(BridgeError::VersionExhausted));
        }
        let version = self.updated_at + 1;
        match outcome {
            Outcome::Failed(e) => match e.classify() {
                ErrorClass::NotYetReady => (self, Verdict::Pending),
                ErrorClass::Store => (self, Verdict::Aborted(e)),
                ErrorClass::Retryable => (self.note(e), Verdict::Retry(e)),
                ErrorClass::Fatal => (self.give_up(e), Verdict::Failed(e)),
            },
            Outcome::Submitted(h) => match action {
                Action::Approve => (
                    TransferRecord { status: next, last_error: None, updated_at: version, ..self },
                    Verdict::Advanced,
                ),
                Action::Lock | Action::Release => (
                    TransferRecord {
                        status: next,
                        source_tx_hash: Some(h),
                        last_error: None,
                        updated_at: version,
                        ..self
                    },
                    Verdict::Advanced,
                ),
                Action::Burn | Action::Mint => (
                    TransferRecord {
                        status: next,
                        dest_tx_hash: Some(h),
                        last_error: None,
                        updated_at: version,
                        ..self
                    },
                    Verdict::Advanced,
                ),
                Action::QueryTx { tx } => if h.same(&tx) {
                    (
                        TransferRecord {
                            status: next,
                            last_error: None,
                            updated_at: version,
                            ..self
                        },
                        Verdict::Advanced,
                    )
                } else {
                    (
                        self.give_up(BridgeError::Irreconcilable),
                        Verdict::Failed(BridgeError::Irreconcilable),
                    )
                },
                _ => (
                    self.note(BridgeError::IdempotencyConflict),
                    Verdict::Retry(BridgeError::IdempotencyConflict),
                ),
            },
            Outcome::Depth(n) => match action {
                Action::QueryTx { tx } => (
                    TransferRecord { status: next, last_error: None, updated_at: version, ..self },
                    Verdict::Advanced,
                ),
                Action::ExtractProof { tx, min_depth } => (self, Verdict::Pending),
                Action::AwaitBlockSafe { tx, min_depth } => if n >= min_depth {
                    (
                        TransferRecord {
                            status: next,
                            last_error: None,
                            updated_at: version,
                            ..self
                        },
                        Verdict::Advanced,
                    )
                } else {
                    (self, Verdict::Pending)
                },
                _ => (
                    self.note(BridgeError::IdempotencyConflict),
                    Verdict::Retry(BridgeError::IdempotencyConflict),
                ),
            },
            Outcome::Proof { depth, blob } => match action {
                Action::ExtractProof { tx, min_depth } => if depth >= min_depth {
                    (
                        TransferRecord {
                            status: next,
                            proof: Some(blob),
                            last_error: None,
                            updated_at: version,
                            ..self
                        },
                        Verdict::Advanced,
                    )
                } else {
                    (self, Verdict::Pending)
                },
                _ => (
                    self.note(BridgeError::IdempotencyConflict),
                    Verdict::Retry(BridgeError::IdempotencyConflict),
                ),
            },
        }
    }

    /// Stops a transfer on the operator's request: a record that is not
    /// terminal fails with `Aborted`, a terminal one is returned as it is.
    /// Transactions that were broadcast stay broadcast.
    pub fn abort(self) -> (res: (TransferRecord, Verdict))
        requires
            self@.wf(),
        ensures
            (res.0@, res.1) == cancelled(self@),
            res.0@.wf(),
            res.1.changes() ==> res.0@.follows(self@),
            !res.1.changes() ==> res.0@ == self@,
    {
        if self.status.is_terminal() {
            (self, Verdict::Unchanged)
        } else if self.updated_at == u64::MAX {
            (self, Verdict::Aborted(BridgeError::VersionExhausted))
        } else {
            (self.give_up(BridgeError::Aborted), Verdict::Failed(BridgeError::Aborted))
        }
    }
}

/// The engine keeps a record well formed and never touches what is fixed
/// at creation: identifier, direction, amount and addresses.
pub proof fn lemma_react_keeps_invariant(r: RecordView, o: OutcomeView, p: Policy)
    requires
        r.wf(),
    ensures
        react(r, o, p).0.wf(),
        react(r, o, p).0.id == r.id,
        react(r, o, p).0.status.way() == r.status.way(),
        react(r, o, p).0.amount == r.amount,
        react(r, o, p).0.source_address == r.source_address,
        react(r, o, p).0.dest_address == r.dest_address,
{
}

/// A verdict that changes the record yields a record that may replace the
/// old one in the log: the next version, a state not before the old one,
/// no transaction reference or proof overwritten. Every other verdict
/// leaves the record exactly as it was.
pub proof fn lemma_react_follows(r: RecordView, o: OutcomeView, p: Policy)
    requires
        r.wf(),
    ensures
        react(r, o, p).1.changes() ==> react(r, o, p).0.follows(r),
        !react(r, o, p).1.changes() ==> react(r, o, p).0 == r,
        react(r, o, p).0.status.position() >= r.status.position(),
        react(r, o, p).0.updated_at >= r.updated_at,
        react(r, o, p).1 is Advanced ==> react(r, o, p).0.status.position() == r.status.position()
            + 1 && react(r, o, p).0.last_error is None,
        react(r, o, p).1 is Retry ==> react(r, o, p).0.status == r.status,
        react(r, o, p).1 is Failed ==> react(r, o, p).0.status.failed(),
{
}

/// Terminal immutability: on a completed or failed record the engine plans
/// nothing, and neither an outcome nor an abort changes it.
pub proof fn lemma_terminal_is_immutable(r: RecordView, o: OutcomeView, p: Policy)
    requires
        r.status.terminal(),
    ensures
        plan(r, p) is None,
        react(r, o, p) == (r, Verdict::Unchanged),
        cancelled(r) == (r, Verdict::Unchanged),
{
}

} // verus!
