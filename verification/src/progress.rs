//! Runs of the engine: what holds of a record after any number of
//! reported outcomes.

use crate::engine::{lemma_react_follows, lemma_react_keeps_invariant, plan, react, Action, OutcomeView, Policy};
use crate::record::{RecordView, RequestView};
use crate::status::{lemma_table_order, Direction, Step, TransferStatus};
use vstd::prelude::*;

verus! {

/// The record after the outcomes `os` were reported one after the other,
/// each for the action planned from the record before it.
pub open spec fn run(r: RecordView, os: Seq<OutcomeView>, p: Policy) -> RecordView
    decreases os.len(),
{
    if os.len() == 0 {
        r
    } else {
        react(run(r, os.drop_last(), p), os.last(), p).0
    }
}

/// True if every outcome of `os` completes the action that was planned
/// when it was reported: the adapters always succeed.
pub open spec fn cooperative(r: RecordView, os: Seq<OutcomeView>, p: Policy) -> bool
    decreases os.len(),
{
    if os.len() == 0 {
        true
    } else {
        &&& cooperative(r, os.drop_last(), p)
        &&& plan(run(r, os.drop_last(), p), p) matches Some(a) && a.met_by(os.last())
    }
}

/// True if the record holds exactly the transaction references and the
/// proof that the rows before its state produce, and has not failed.
pub open spec fn exact(r: RecordView) -> bool {
    let n = r.status.position();
    let src = r.source_tx_hash is Some;
    let dst = r.dest_tx_hash is Some;
    let prf = r.proof is Some;
    &&& !r.status.failed()
    &&& match r.status {
        TransferStatus::ToCkb(_) => src == (n >= 2) && prf == (n >= 3) && dst == (n >= 5),
        TransferStatus::FromCkb(_) => dst == (n >= 1) && prf == (n >= 2) && src == (n >= 4),
    }
}

/// The operation of the table that an action performs; none for a query.
pub open spec fn operation(a: Action) -> Option<Step> {
    match a {
        Action::Approve => Some(Step::Approve),
        Action::Lock => Some(Step::Lock),
        Action::Burn => Some(Step::Burn),
        Action::ExtractProof { .. } => Some(Step::ExtractProof),
        Action::AwaitBlockSafe { .. } => Some(Step::AwaitBlockSafe),
        Action::Mint => Some(Step::Mint),
        Action::Release => Some(Step::Release),
        Action::QueryTx { .. } => None,
    }
}

/// True if the record has neither passed the state that the broadcast `a`
/// belongs to nor holds a reference to the transaction that `a` would
/// broadcast. True of every action that broadcasts nothing.
pub open spec fn outstanding(r: RecordView, a: Action) -> bool {
    match a {
        Action::Approve => r.status.way() == Direction::SourceToDest && r.status.position() == 0,
        Action::Lock => r.status.way() == Direction::SourceToDest && r.status.position() <= 1
            && r.source_tx_hash is None,
        Action::Burn => r.status.way() == Direction::DestToSource && r.status.position() == 0
            && r.dest_tx_hash is None,
        Action::Mint => r.status.way() == Direction::SourceToDest && r.status.position() <= 4
            && r.dest_tx_hash is None,
        Action::Release => r.status.way() == Direction::DestToSource && r.status.position() <= 3
            && r.source_tx_hash is None,
        _ => true,
    }
}

/// Whatever is reported, a record never moves back: it stays well formed,
/// keeps its identity and parameters, its state and its version never
/// decrease, and a transaction reference or proof that it holds stays the
/// same for ever.
pub proof fn lemma_run_never_regresses(r: RecordView, os: Seq<OutcomeView>, p: Policy)
    requires
        r.wf(),
    ensures
        run(r, os, p).wf(),
        run(r, os, p).id == r.id,
        run(r, os, p).status.way() == r.status.way(),
        run(r, os, p).amount == r.amount,
        run(r, os, p).source_address == r.source_address,
        run(r, os, p).dest_address == r.dest_address,
        run(r, os, p).status.position() >= r.status.position(),
        run(r, os, p).updated_at >= r.updated_at,
        r.source_tx_hash is Some ==> run(r, os, p).source_tx_hash == r.source_tx_hash,
        r.dest_tx_hash is Some ==> run(r, os, p).dest_tx_hash == r.dest_tx_hash,
        r.proof is Some ==> run(r, os, p).proof == r.proof,
        r.status.terminal() ==> run(r, os, p) == r,
    decreases os.len(),
{
    if os.len() > 0 {
        let mid = run(r, os.drop_last(), p);
        lemma_run_never_regresses(r, os.drop_last(), p);
        lemma_react_keeps_invariant(mid, os.last(), p);
        lemma_react_follows(mid, os.last(), p);
    }
}

/// Progress: from a new record, with adapters that always succeed, every
/// call moves the record exactly one row down its table. After `n` calls
/// the record is at place `n` and at version `n`; it is completed after as
/// many calls as the table has rows, not before, and no further call can
/// succeed after that. The record holds exactly what the rows passed have
/// produced.
pub proof fn lemma_cooperative_run(
    direction: Direction,
    request: RequestView,
    os: Seq<OutcomeView>,
    p: Policy,
)
    requires
        cooperative(RecordView::fresh(direction, request), os, p),
    ensures
        os.len() <= TransferStatus::start(direction).steps(),
        run(RecordView::fresh(direction, request), os, p).status.way() == direction,
        run(RecordView::fresh(direction, request), os, p).status.position() == os.len(),
        run(RecordView::fresh(direction, request), os, p).status.completed() <==> os.len()
            == TransferStatus::start(direction).steps(),
        run(RecordView::fresh(direction, request), os, p).updated_at == os.len(),
        run(RecordView::fresh(direction, request), os, p).last_error is None,
        run(RecordView::fresh(direction, request), os, p).answers(request),
        run(RecordView::fresh(direction, request), os, p).wf(),
        exact(run(RecordView::fresh(direction, request), os, p)),
    decreases os.len(),
{
    let start = RecordView::fresh(direction, request);
    lemma_table_order(start.status);
    if os.len() > 0 {
        let mid = run(start, os.drop_last(), p);
        lemma_cooperative_run(direction, request, os.drop_last(), p);
        lemma_table_order(mid.status);
        lemma_react_keeps_invariant(mid, os.last(), p);
        lemma_react_follows(mid, os.last(), p);
        lemma_table_order(run(start, os, p).status);
    }
}

/// A record that holds exactly what the rows passed have produced calls
/// for the operation of its own row, never for a query in its place.
pub proof fn lemma_exact_plans_row(r: RecordView, p: Policy)
    requires
        exact(r),
        !r.status.terminal(),
    ensures
        plan(r, p) matches Some(a) && r.status.row() matches Some(t) && operation(a) == Some(t.0),
{
}

/// A beginning of a run with adapters that always succeed is such a run.
pub proof fn lemma_cooperative_prefix(r: RecordView, os: Seq<OutcomeView>, k: int, p: Policy)
    requires
        cooperative(r, os, p),
        0 <= k <= os.len(),
    ensures
        cooperative(r, os.take(k), p),
    decreases os.len(),
{
    if k == os.len() {
        assert(os.take(k) =~= os);
    } else {
        lemma_cooperative_prefix(r, os.drop_last(), k, p);
        assert(os.drop_last().take(k) =~= os.take(k));
    }
}

/// No broadcast is skipped or repeated: in a run from a new record with
/// adapters that always succeed, the call number `k` performs the
/// operation of row `k` of the table.
pub proof fn lemma_each_row_once(
    direction: Direction,
    request: RequestView,
    os: Seq<OutcomeView>,
    k: int,
    p: Policy,
)
    requires
        cooperative(RecordView::fresh(direction, request), os, p),
        0 <= k < os.len(),
    ensures
        run(RecordView::fresh(direction, request), os.take(k), p).status.position() == k,
        plan(run(RecordView::fresh(direction, request), os.take(k), p), p) matches Some(a)
            && run(RecordView::fresh(direction, request), os.take(k), p).status.row() matches Some(
            t,
        ) && operation(a) == Some(t.0),
{
    let start = RecordView::fresh(direction, request);
    lemma_cooperative_prefix(start, os, k, p);
    lemma_cooperative_run(direction, request, os.take(k), p);
    lemma_cooperative_run(direction, request, os, p);
    let at = run(start, os.take(k), p);
    lemma_table_order(at.status);
    lemma_exact_plans_row(at, p);
}

/// Idempotent re-entry: whatever is reported in between, a broadcast is
/// planned only for a record that started out before that broadcast's
/// state and without a reference to its transaction. So a record that is
/// past a state, or names the transaction of that state, never causes a
/// second broadcast for it.
pub proof fn lemma_no_second_broadcast(r: RecordView, os: Seq<OutcomeView>, p: Policy)
    requires
        r.wf(),
    ensures
        plan(run(r, os, p), p) matches Some(a) ==> outstanding(r, a) && outstanding(
            run(r, os, p),
            a,
        ),
{
    lemma_run_never_regresses(r, os, p);
}

/// Crash recovery: a run that is cut anywhere, its record stored and read
/// back, and then resumed on the remaining outcomes ends in the record
/// that the uninterrupted run ends in.
pub proof fn lemma_run_resumes(
    r: RecordView,
    before: Seq<OutcomeView>,
    after: Seq<OutcomeView>,
    p: Policy,
)
    ensures
        run(r, before + after, p) == run(run(r, before, p), after, p),
    decreases after.len(),
{
    if after.len() == 0 {
        assert(before + after =~= before);
    } else {
        lemma_run_resumes(r, before, after.drop_last(), p);
        assert((before + after).drop_last() =~= before + after.drop_last());
        assert((before + after).last() == after.last());
    }
}

} // verus!
