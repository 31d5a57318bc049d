//! The transfer record: what is persisted about one bridging operation.

use crate::error::BridgeError;
use crate::status::{Direction, FromCkbLogStatus, ToCkbLogStatus, TransferStatus};
use vstd::prelude::*;

verus! {

/// Reference to a transaction on either chain: its 32-byte hash.
#[derive(Clone, Copy, Debug, PartialEq, Eq)]
pub struct TxHash {
    pub bytes: [u8; 32],
}

/// The parameters a transfer is created with.
#[derive(Clone, Debug, PartialEq, Eq)]
pub struct TransferRequest {
    /// Identifier that correlates every step of the transfer.
    pub id: u64,
    /// Amount to move across the bridge.
    pub amount: u128,
    /// Account on the source chain.
    pub source_address: Vec<u8>,
    /// Account on the destination chain.
    pub dest_address: Vec<u8>,
}

/// Mathematical value of a [`TransferRequest`].
pub struct RequestView {
    pub id: u64,
    pub amount: u128,
    pub source_address: Seq<u8>,
    pub dest_address: Seq<u8>,
}

/// One record per bridging operation.
#[derive(Clone, Debug, PartialEq, Eq)]
pub struct TransferRecord {
    /// Identifier that correlates every step of the transfer.
    pub id: u64,
    /// Direction of the transfer and the state reached in it.
    pub status: TransferStatus,
    /// The lock transaction, or the release transaction of the way back.
    pub source_tx_hash: Option<TxHash>,
    /// The mint transaction, or the burn transaction of the way back.
    pub dest_tx_hash: Option<TxHash>,
    /// The inclusion proof, once extracted.
    pub proof: Option<Vec<u8>>,
    /// Amount to move across the bridge.
    pub amount: u128,
    /// Account on the source chain.
    pub source_address: Vec<u8>,
    /// Account on the destination chain.
    pub dest_address: Vec<u8>,
    /// The last failure, cleared by the next successful transition.
    pub last_error: Option<BridgeError>,
    /// Version of the record: one more with every persisted change.
    pub updated_at: u64,
}

/// Mathematical value of a [`TransferRecord`].
pub struct RecordView {
    pub id: u64,
    pub status: TransferStatus,
    pub source_tx_hash: Option<TxHash>,
    pub dest_tx_hash: Option<TxHash>,
    pub proof: Option<Seq<u8>>,
    pub amount: u128,
    pub source_address: Seq<u8>,
    pub dest_address: Seq<u8>,
    pub last_error: Option<BridgeError>,
    pub updated_at: u64,
}

impl View for TransferRequest {
    type V = RequestView;

    open spec fn view(&self) -> RequestView {
        RequestView {
            id: self.id,
            amount: self.amount,
            source_address: self.source_address@,
            dest_address: self.dest_address@,
        }
    }
}

impl View for TransferRecord {
    type V = RecordView;

    open spec fn view(&self) -> RecordView {
        RecordView {
            id: self.id,
            status: self.status,
            source_tx_hash: self.source_tx_hash,
            dest_tx_hash: self.dest_tx_hash,
            proof: match self.proof {
                Some(p) => Some(p@),
                None => None,
            },
            amount: self.amount,
            source_address: self.source_address@,
            dest_address: self.dest_address@,
            last_error: self.last_error,
            updated_at: self.updated_at,
        }
    }
}

impl RecordView {
    /// The record a transfer starts with: first state, nothing broadcast,
    /// never persisted.
    pub open spec fn fresh(direction: Direction, request: RequestView) -> RecordView {
        RecordView {
            id: request.id,
            status: TransferStatus::start(direction),
            source_tx_hash: None,
            dest_tx_hash: None,
            proof: None,
            amount: request.amount,
            source_address: request.source_address,
            dest_address: request.dest_address,
            last_error: None,
            updated_at: 0,
        }
    }

    /// The invariant of a record: each state has behind it the transaction
    /// references and the proof that the steps before it produced, none
    /// that a later step produces, and a failed record names its cause.
    pub open spec fn wf(self) -> bool {
        let src = self.source_tx_hash is Some;
        let dst = self.dest_tx_hash is Some;
        let prf = self.proof is Some;
        &&& self.status.failed() ==> self.last_error is Some
        &&& match self.status {
            TransferStatus::ToCkb(ToCkbLogStatus::Initial) => !src && !prf && !dst,
            TransferStatus::ToCkb(ToCkbLogStatus::Approved) => !prf && !dst,
            TransferStatus::ToCkb(ToCkbLogStatus::Locked) => src && !prf && !dst,
            TransferStatus::ToCkb(ToCkbLogStatus::ProofReady) => src && prf && !dst,
            TransferStatus::ToCkb(ToCkbLogStatus::SafeToMint) => src && prf,
            TransferStatus::ToCkb(ToCkbLogStatus::Completed) => src && prf && dst,
            TransferStatus::ToCkb(ToCkbLogStatus::Failed) => true,
            TransferStatus::FromCkb(FromCkbLogStatus::Initial) => !src && !prf,
            TransferStatus::FromCkb(FromCkbLogStatus::Burned) => dst && !prf && !src,
            TransferStatus::FromCkb(FromCkbLogStatus::ProofReady) => dst && prf && !src,
            TransferStatus::FromCkb(FromCkbLogStatus::SafeToRelease) => dst && prf,
            TransferStatus::FromCkb(FromCkbLogStatus::Completed) => src && prf && dst,
            TransferStatus::FromCkb(FromCkbLogStatus::Failed) => true,
        }
    }

    /// The transaction whose inclusion the proof shows: the lock
    /// transaction on the way out, the burn transaction on the way back.
    pub open spec fn anchor(self) -> Option<TxHash> {
        match self.status {
            TransferStatus::ToCkb(_) => self.source_tx_hash,
            TransferStatus::FromCkb(_) => self.dest_tx_hash,
        }
    }

    /// True if the record belongs to the transfer that the request
    /// describes.
    pub open spec fn answers(self, request: RequestView) -> bool {
        &&& self.id == request.id
        &&& self.amount == request.amount
        &&& self.source_address == request.source_address
        &&& self.dest_address == request.dest_address
    }

    /// True if this record may replace `prev` in the log: same transfer,
    /// same parameters, the next version, a state not before the old one,
    /// and every transaction reference and proof that `prev` holds kept as
    /// it is. Nothing may replace a terminal record.
    pub open spec fn follows(self, prev: RecordView) -> bool {
        &&& !prev.status.terminal()
        &&& self.id == prev.id
        &&& self.status.way() == prev.status.way()
        &&& self.amount == prev.amount
        &&& self.source_address == prev.source_address
        &&& self.dest_address == prev.dest_address
        &&& self.updated_at == prev.updated_at + 1
        &&& self.status.position() >= prev.status.position()
        &&& (prev.source_tx_hash is Some ==> self.source_tx_hash == prev.source_tx_hash)
        &&& (prev.dest_tx_hash is Some ==> self.dest_tx_hash == prev.dest_tx_hash)
        &&& (prev.proof is Some ==> self.proof == prev.proof)
    }
}

/// True if the two byte strings are equal.
pub fn same_bytes(a: &Vec<u8>, b: &Vec<u8>) -> (r: bool)
    ensures
        r == (a@ == b@),
{
    if a.len() != b.len() {
        return false;
    }
    let mut i: usize = 0;
    while i < a.len()
        invariant
            a.len() == b.len(),
            i <= a.len(),
            forall|k: int| 0 <= k < i ==> a@[k] == b@[k],
        decreases a.len() - i,
    {
        if a[i] != b[i] {
            return false;
        }
        i += 1;
    }
    assert(a@ =~= b@);
    true
}

/// A copy of a byte string.
pub fn copy_bytes(v: &Vec<u8>) -> (r: Vec<u8>)
    ensures
        r@ == v@,
{
    let mut out: Vec<u8> = Vec::with_capacity(v.len());
    let mut i: usize = 0;
    while i < v.len()
        invariant
            i <= v.len(),
            out@ == v@.take(i as int),
        decreases v.len() - i,
    {
        out.push(v[i]);
        assert(v@.take(i + 1) =~= v@.take(i as int).push(v@[i as int]));
        i += 1;
    }
    assert(v@.take(v.len() as int) =~= v@);
    out
}

impl TxHash {
    /// True if both references name the same transaction.
    pub fn same(&self, other: &TxHash) -> (r: bool)
        ensures
            r == (*self == *other),
    {
        let mut i: usize = 0;
        while i < 32
            invariant
                i <= 32,
                forall|k: int| 0 <= k < i ==> self.bytes[k] == other.bytes[k],
            decreases 32 - i,
        {
            if self.bytes[i] != other.bytes[i] {
                return false;
            }
            i += 1;
        }
        assert(self.bytes =~= other.bytes);
        true
    }
}

/// True if both hold the same transaction reference, or none.
pub fn same_hash(a: &Option<TxHash>, b: &Option<TxHash>) -> (r: bool)
    ensures
        r == (*a == *b),
{
    match (a, b) {
        (Some(x), Some(y)) => x.same(y),
        (None, None) => true,
        _ => false,
    }
}

impl TransferRequest {
    /// A copy of the request.
    pub fn duplicate(&self) -> (r: TransferRequest)
        ensures
            r@ == self@,
    {
        TransferRequest {
            id: self.id,
            amount: self.amount,
            source_address: copy_bytes(&self.source_address),
            dest_address: copy_bytes(&self.dest_address),
        }
    }
}

impl TransferRecord {
    /// The record of a transfer that has not done anything yet.
    pub fn new(direction: Direction, request: TransferRequest) -> (r: TransferRecord)
        ensures
            r@ == RecordView::fresh(direction, request@),
            r@.wf(),
            r@.answers(request@),
            r@.status.way() == direction,
    {
        TransferRecord {
            id: request.id,
            status: TransferStatus::initial(direction),
            source_tx_hash: None,
            dest_tx_hash: None,
            proof: None,
            amount: request.amount,
            source_address: request.source_address,
            dest_address: request.dest_address,
            last_error: None,
            updated_at: 0,
        }
    }

    /// A copy of the record.
    pub fn duplicate(&self) -> (r: TransferRecord)
        ensures
            r@ == self@,
    {
        let proof = match &self.proof {
            Some(p) => Some(copy_bytes(p)),
            None => None,
        };
        TransferRecord {
            id: self.id,
            status: self.status,
            source_tx_hash: self.source_tx_hash,
            dest_tx_hash: self.dest_tx_hash,
            proof,
            amount: self.amount,
            source_address: copy_bytes(&self.source_address),
            dest_address: copy_bytes(&self.dest_address),
            last_error: self.last_error,
            updated_at: self.updated_at,
        }
    }

    /// The direction of the transfer.
    pub fn direction(&self) -> (d: Direction)
        ensures
            d == self@.status.way(),
    {
        self.status.direction()
    }

    /// Checks the record's invariant, as a caller must for a record that
    /// comes from outside the library.
    pub fn is_well_formed(&self) -> (b: bool)
        ensures
            b == self@.wf(),
    {
        let src = self.source_tx_hash.is_some();
        let dst = self.dest_tx_hash.is_some();
        let prf = self.proof.is_some();
        if self.status.is_failed() && self.last_error.is_none() {
            return false;
        }
        match self.status {
            TransferStatus::ToCkb(ToCkbLogStatus::Initial) => !src && !prf && !dst,
            TransferStatus::ToCkb(ToCkbLogStatus::Approved) => !prf && !dst,
            TransferStatus::ToCkb(ToCkbLogStatus::Locked) => src && !prf && !dst,
            TransferStatus::ToCkb(ToCkbLogStatus::ProofReady) => src && prf && !dst,
            TransferStatus::ToCkb(ToCkbLogStatus::SafeToMint) => src && prf,
            TransferStatus::ToCkb(ToCkbLogStatus::Completed) => src && prf && dst,
            TransferStatus::ToCkb(ToCkbLogStatus::Failed) => true,
            TransferStatus::FromCkb(FromCkbLogStatus::Initial) => !src && !prf,
            TransferStatus::FromCkb(FromCkbLogStatus::Burned) => dst && !prf && !src,
            TransferStatus::FromCkb(FromCkbLogStatus::ProofReady) => dst && prf && !src,
            TransferStatus::FromCkb(FromCkbLogStatus::SafeToRelease) => dst && prf,
            TransferStatus::FromCkb(FromCkbLogStatus::Completed) => src && prf && dst,
            TransferStatus::FromCkb(FromCkbLogStatus::Failed) => true,
        }
    }

    /// True if the record belongs to the transfer that the request
    /// describes: same identifier, amount and addresses.
    pub fn matches_request(&self, request: &TransferRequest) -> (b: bool)
        ensures
            b == self@.answers(request@),
    {
        self.id == request.id && self.amount == request.amount && same_bytes(
            &self.source_address,
            &request.source_address,
        ) && same_bytes(&self.dest_address, &request.dest_address)
    }

    /// True if this record may replace `prev` in the log.
    pub fn supersedes(&self, prev: &TransferRecord) -> (b: bool)
        ensures
            b == self@.follows(prev@),
    {
        if prev.status.is_terminal() {
            return false;
        }
        if self.id != prev.id || self.amount != prev.amount {
            return false;
        }
        if prev.updated_at == u64::MAX || self.updated_at != prev.updated_at + 1 {
            return false;
        }
        let ordered = match (self.status, prev.status) {
            (TransferStatus::ToCkb(a), TransferStatus::ToCkb(b)) => a.int_value() >= b.int_value(),
            (TransferStatus::FromCkb(a), TransferStatus::FromCkb(b)) => a.int_value()
                >= b.int_value(),
            _ => false,
        };
        if !ordered {
            return false;
        }
        if !same_bytes(&self.source_address, &prev.source_address) || !same_bytes(
            &self.dest_address,
            &prev.dest_address,
        ) {
            return false;
        }
        if prev.source_tx_hash.is_some() && !same_hash(&self.source_tx_hash, &prev.source_tx_hash) {
            return false;
        }
        if prev.dest_tx_hash.is_some() && !same_hash(&self.dest_tx_hash, &prev.dest_tx_hash) {
            return false;
        }
        match (&prev.proof, &self.proof) {
            (Some(p), Some(q)) => same_bytes(q, p),
            (Some(_), None) => false,
            (None, _) => true,
        }
    }
}

} // verus!
