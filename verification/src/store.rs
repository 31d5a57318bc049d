//! The transfer log: the working copy of the keyed record store, one
//! record per transfer identifier, guarded by a version check.

use crate::engine::{OutcomeView, Policy};
use crate::error::BridgeError;
use crate::progress::{lemma_run_never_regresses, lemma_run_resumes, run};
use crate::record::{RecordView, RequestView, TransferRecord, TransferRequest};
use crate::status::{Direction, FromCkbLogStatus, ToCkbLogStatus, TransferStatus};
use std::collections::HashMap;
use vstd::prelude::*;

verus! {

broadcast use vstd::std_specs::hash::group_hash_axioms;

/// Keyed store of transfer records. A record enters under its own
/// identifier, and only as the successor of the record that is there.
pub struct TransferLogStore {
    records: HashMap<u64, TransferRecord>,
}

/// The log entry of a source-to-destination transfer.
#[derive(Clone, Debug, PartialEq, Eq)]
pub struct ToCkbLog {
    pub record: TransferRecord,
}

/// The log entry of a destination-to-source transfer.
#[derive(Clone, Debug, PartialEq, Eq)]
pub struct FromCkbLog {
    pub record: TransferRecord,
}

/// The invariant of a log's contents: every record is well formed, stored
/// under its own identifier, and has been persisted at least once.
pub open spec fn sound(m: Map<u64, RecordView>) -> bool {
    &&& m.dom().finite()
    &&& forall|id: u64| #[trigger]
        m.contains_key(id) ==> m[id].wf() && m[id].id == id && m[id].updated_at >= 1
}

/// True if the log with contents `m` takes `r` in: `r` continues the record
/// stored under its identifier, or nothing is stored there and `r` is the
/// first version.
pub open spec fn admits(m: Map<u64, RecordView>, r: RecordView) -> bool {
    if m.contains_key(r.id) {
        r.follows(m[r.id])
    } else {
        r.updated_at == 1
    }
}

/// The error with which the log refuses `r`: a version conflict where `r`
/// is not the version after the stored one, a rejection otherwise.
pub open spec fn refusal(m: Map<u64, RecordView>, r: RecordView) -> BridgeError {
    let expected = if m.contains_key(r.id) {
        m[r.id].updated_at + 1
    } else {
        1
    };
    if r.updated_at != expected {
        BridgeError::VersionConflict
    } else {
        BridgeError::Rejected
    }
}

/// What loading a transfer from the log yields: the stored record if it
/// belongs to the requested transfer and direction, a new record if none
/// is stored, and a rejection if the identifier is taken by another
/// transfer.
pub open spec fn loaded(m: Map<u64, RecordView>, direction: Direction, request: RequestView)
    -> Result<RecordView, BridgeError> {
    if !m.contains_key(request.id) {
        Ok(RecordView::fresh(direction, request))
    } else if m[request.id].answers(request) && m[request.id].status.way() == direction {
        Ok(m[request.id])
    } else {
        Err(BridgeError::Rejected)
    }
}

impl View for TransferLogStore {
    type V = Map<u64, RecordView>;

    closed spec fn view(&self) -> Map<u64, RecordView> {
        self.records@.map_values(|r: TransferRecord| r@)
    }
}

impl TransferLogStore {
    /// The invariant of the log: its contents are sound.
    pub open spec fn wf(&self) -> bool {
        sound(self@)
    }

    /// An empty log.
    pub fn new() -> (s: TransferLogStore)
        ensures
            s.wf(),
            s@ == Map::<u64, RecordView>::empty(),
    {
        let s = TransferLogStore { records: HashMap::new() };
        assert(s@ =~= Map::<u64, RecordView>::empty());
        s
    }

    /// Number of transfers in the log.
    pub fn len(&self) -> (n: usize)
        ensures
            n == self@.len(),
    {
        proof {
            assert(self@.dom() =~= self.records@.dom());
        }
        self.records.len()
    }

    /// True if the log holds a record under the identifier.
    pub fn contains(&self, id: u64) -> (b: bool)
        ensures
            b == self@.contains_key(id),
    {
        self.records.contains_key(&id)
    }

    /// A copy of the record stored under the identifier.
    pub fn get(&self, id: u64) -> (r: Option<TransferRecord>)
        ensures
            match r {
                Some(x) => self@.contains_key(id) && x@ == self@[id],
                None => !self@.contains_key(id),
            },
    {
        match self.records.get(&id) {
            Some(x) => Some(x.duplicate()),
            None => None,
        }
    }

    /// Writes the record, all or nothing. The write succeeds exactly if
    /// the log admits the record; otherwise the log stays as it was.
    pub fn put(&mut self, record: TransferRecord) -> (res: Result<(), BridgeError>)
        requires
            old(self).wf(),
            record@.wf(),
        ensures
            final(self).wf(),
            match res {
                Ok(()) => admits(old(self)@, record@) && final(self)@ == old(self)@.insert(
                    record.id,
                    record@,
                ),
                Err(e) => !admits(old(self)@, record@) && final(self)@ == old(self)@ && e
                    == refusal(old(self)@, record@),
            },
    {
        let refused = match self.records.get(&record.id) {
            Some(prev) => {
                if prev.updated_at == u64::MAX || record.updated_at != prev.updated_at + 1 {
                    Some(BridgeError::VersionConflict)
                } else if !record.supersedes(prev) {
                    Some(BridgeError::Rejected)
                } else {
                    None
                }
            },
            None => {
                if record.updated_at != 1 {
                    Some(BridgeError::VersionConflict)
                } else {
                    None
                }
            },
        };
        match refused {
            Some(e) => Err(e),
            None => {
                let ghost before = self@;
                let ghost id = record.id;
                let ghost value = record@;
                self.records.insert(record.id, record);
                assert(self@ =~= before.insert(id, value));
                Ok(())
            },
        }
    }

    /// Takes in a record as it was read back from durable storage. The
    /// record is taken exactly if it is well formed, was persisted before,
    /// and the log holds nothing under its identifier; otherwise the log
    /// stays as it was and the record is rejected.
    pub fn restore(&mut self, record: TransferRecord) -> (res: Result<(), BridgeError>)
        requires
            old(self).wf(),
        ensures
            final(self).wf(),
            match res {
                Ok(()) => {
                    &&& record@.wf()
                    &&& record.updated_at >= 1
                    &&& !old(self)@.contains_key(record.id)
                    &&& final(self)@ == old(self)@.insert(record.id, record@)
                },
                Err(e) => {
                    &&& !(record@.wf() && record.updated_at >= 1 && !old(self)@.contains_key(
                        record.id,
                    ))
                    &&& final(self)@ == old(self)@
                    &&& e == BridgeError::Rejected
                },
            },
    {
        if !record.is_well_formed() || record.updated_at < 1 || self.records.contains_key(
            &record.id,
        ) {
            return Err(BridgeError::Rejected);
        }
        let ghost before = self@;
        let ghost id = record.id;
        let ghost value = record@;
        self.records.insert(record.id, record);
        assert(self@ =~= before.insert(id, value));
        Ok(())
    }

    /// Loads the record of the requested transfer in the given direction:
    /// the stored record, or a new one if the log has none.
    pub fn load(&self, direction: Direction, request: &TransferRequest) -> (res: Result<
        TransferRecord,
        BridgeError,
    >)
        requires
            self.wf(),
        ensures
            match res {
                Ok(r) => loaded(self@, direction, request@) == Ok::<RecordView, BridgeError>(r@)
                    && r@.wf() && r@.status.way() == direction && r@.answers(request@),
                Err(e) => loaded(self@, direction, request@) == Err::<RecordView, BridgeError>(e),
            },
    {
        match self.records.get(&request.id) {
            None => Ok(TransferRecord::new(direction, request.duplicate())),
            Some(stored) => {
                let same_way = match (stored.status, direction) {
                    (TransferStatus::ToCkb(_), Direction::SourceToDest) => true,
                    (TransferStatus::FromCkb(_), Direction::DestToSource) => true,
                    _ => false,
                };
                if same_way && stored.matches_request(request) {
                    Ok(stored.duplicate())
                } else {
                    Err(BridgeError::Rejected)
                }
            },
        }
    }
}

impl ToCkbLog {
    /// The invariant of the entry: a well-formed record of a
    /// source-to-destination transfer.
    pub open spec fn well_formed(&self) -> bool {
        self.record@.wf() && self.record.status is ToCkb
    }

    /// The state of the transfer.
    pub fn status(&self) -> (s: ToCkbLogStatus)
        requires
            self.well_formed(),
        ensures
            self.record.status == TransferStatus::ToCkb(s),
    {
        match self.record.status {
            TransferStatus::ToCkb(s) => s,
            TransferStatus::FromCkb(_) => vstd::pervasive::unreached(),
        }
    }
}

impl FromCkbLog {
    /// The invariant of the entry: a well-formed record of a
    /// destination-to-source transfer.
    pub open spec fn well_formed(&self) -> bool {
        self.record@.wf() && self.record.status is FromCkb
    }

    /// The state of the transfer.
    pub fn status(&self) -> (s: FromCkbLogStatus)
        requires
            self.well_formed(),
        ensures
            self.record.status == TransferStatus::FromCkb(s),
    {
        match self.record.status {
            TransferStatus::FromCkb(s) => s,
            TransferStatus::ToCkb(_) => vstd::pervasive::unreached(),
        }
    }
}

/// Loads the log entry of a source-to-destination transfer: the stored
/// entry, or a new one in the initial state if the log has none. Fails
/// with a rejection if the identifier belongs to another transfer.
pub fn load_to_ckb_log(store: &TransferLogStore, request: &TransferRequest) -> (res: Result<
    ToCkbLog,
    BridgeError,
>)
    requires
        store.wf(),
    ensures
        match res {
            Ok(log) => loaded(store@, Direction::SourceToDest, request@) == Ok::<
                RecordView,
                BridgeError,
            >(log.record@) && log.well_formed() && log.record@.answers(request@),
            Err(e) => loaded(store@, Direction::SourceToDest, request@) == Err::<
                RecordView,
                BridgeError,
            >(e),
        },
{
    match store.load(Direction::SourceToDest, request) {
        Ok(record) => Ok(ToCkbLog { record }),
        Err(e) => Err(e),
    }
}

/// Loads the log entry of a destination-to-source transfer: the stored
/// entry, or a new one in the initial state if the log has none. Fails
/// with a rejection if the identifier belongs to another transfer.
pub fn load_from_ckb_log(store: &TransferLogStore, request: &TransferRequest) -> (res: Result<
    FromCkbLog,
    BridgeError,
>)
    requires
        store.wf(),
    ensures
        match res {
            Ok(log) => loaded(store@, Direction::DestToSource, request@) == Ok::<
                RecordView,
                BridgeError,
            >(log.record@) && log.well_formed() && log.record@.answers(request@),
            Err(e) => loaded(store@, Direction::DestToSource, request@) == Err::<
                RecordView,
                BridgeError,
            >(e),
        },
{
    match store.load(Direction::DestToSource, request) {
        Ok(record) => Ok(FromCkbLog { record }),
        Err(e) => Err(e),
    }
}

/// What is put into the log is what comes out of it: after a record was
/// admitted, the log holds it under its identifier and holds every other
/// transfer as before.
pub proof fn lemma_put_then_get(m: Map<u64, RecordView>, r: RecordView, other: u64)
    requires
        other != r.id,
    ensures
        m.insert(r.id, r).contains_key(r.id),
        m.insert(r.id, r)[r.id] == r,
        m.insert(r.id, r).contains_key(other) == m.contains_key(other),
        m.contains_key(other) ==> m.insert(r.id, r)[other] == m[other],
{
}

/// Crash recovery through the log: cut a run anywhere, put the record
/// reached into the log, forget everything else, read the record back and
/// resume on the remaining outcomes. The end is the record that the
/// uninterrupted run ends in.
pub proof fn lemma_resume_from_log(
    m: Map<u64, RecordView>,
    r: RecordView,
    before: Seq<OutcomeView>,
    after: Seq<OutcomeView>,
    p: Policy,
)
    requires
        r.wf(),
    ensures
        run(m.insert(r.id, run(r, before, p))[r.id], after, p) == run(r, before + after, p),
        run(r, before, p).id == r.id,
{
    lemma_run_never_regresses(r, before, p);
    lemma_run_resumes(r, before, after, p);
}

} // verus!
