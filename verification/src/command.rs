//! The bridge subcommand: the command table, the preparation of chain
//! reads, and the two transfer orchestrators on top of the shared engine.

use crate::engine::{
    cancelled, lemma_react_follows, lemma_react_keeps_invariant, plan, react, Action, Outcome,
    OutcomeView, Policy, Verdict,
};
use crate::error::BridgeError;
use crate::progress::{cooperative, lemma_cooperative_run, run};
use crate::record::{RecordView, RequestView, TransferRecord, TransferRequest};
use crate::status::{Direction, TransferStatus};
use crate::store::{
    admits, load_from_ckb_log, load_to_ckb_log, loaded, refusal, sound, TransferLogStore,
};
use vstd::prelude::*;

verus! {

/// What the bridge needs to know of the destination chain's genesis block
/// to bind its work to that chain.
#[derive(Clone, Copy, Debug, PartialEq, Eq)]
pub struct GenesisInfo {
    pub genesis_hash: [u8; 32],
}

/// The subcommands of the bridge.
#[derive(Clone, Copy, Debug, PartialEq, Eq, Structural)]
pub enum BridgeCommand {
    /// Create or advance a source-to-destination transfer.
    TransferToCkb,
    /// Create or advance a destination-to-source transfer.
    TransferFromCkb,
    /// Deploy the bridge contract on the source chain.
    DeploySol,
    /// Deploy the bridge scripts on the destination chain.
    DeployCkb,
}

/// The command-line surface of the bridge as plain values.
#[derive(Clone, Debug, PartialEq, Eq)]
pub struct CommandTable {
    pub name: &'static str,
    pub about: &'static str,
    pub subcommands: Vec<BridgeCommand>,
}

/// A provisioning operation, carried out wholly outside the bridge.
#[derive(Clone, Copy, Debug, PartialEq, Eq, Structural)]
pub enum Provision {
    SourceContract,
    DestScripts,
}

/// What the caller has to do before chain state may be read.
#[derive(Clone, Copy, Debug, PartialEq, Eq)]
pub enum DbAccess {
    /// Wait until the chain index has caught up with the tip.
    WaitUntilSynced,
    /// Fetch the genesis block and hand its info over.
    FetchGenesis,
    /// Open the index that belongs to this genesis block.
    Open(GenesisInfo),
}

/// What an adapter reported, together with the version of the record that
/// the action was planned from.
#[derive(Clone, Debug, PartialEq, Eq)]
pub struct Report {
    pub version: u64,
    pub outcome: Outcome,
}

/// Mathematical value of a [`Report`].
pub struct ReportView {
    pub version: u64,
    pub outcome: OutcomeView,
}

impl View for Report {
    type V = ReportView;

    open spec fn view(&self) -> ReportView {
        ReportView { version: self.version, outcome: self.outcome@ }
    }
}

/// What the caller of an orchestrator has to do next.
#[derive(Clone, Copy, Debug, PartialEq, Eq)]
pub enum Directive {
    /// Perform the action and report its outcome under this version.
    Perform { action: Action, version: u64 },
    /// The transfer is completed.
    Finished,
    /// The call ends here with this error; `NotYetReady` asks the caller to
    /// come back later.
    Halted(BridgeError),
    /// Run the provisioning operation.
    Provision(Provision),
}

/// The bridge subcommand: the transfer log it works on and its settings.
pub struct CkbBridgeSubCommand {
    pub store: TransferLogStore,
    pub policy: Policy,
    pub genesis_info: Option<GenesisInfo>,
    pub wait_for_sync: bool,
}

impl BridgeCommand {
    /// The name of the subcommand on the command line.
    pub open spec fn label(self) -> Seq<char> {
        match self {
            BridgeCommand::TransferToCkb => "transfer-to-dest"@,
            BridgeCommand::TransferFromCkb => "transfer-from-dest"@,
            BridgeCommand::DeploySol => "deploy-source-contract"@,
            BridgeCommand::DeployCkb => "deploy-dest-scripts"@,
        }
    }

    /// The help line of the subcommand.
    pub open spec fn summary(self) -> Seq<char> {
        match self {
            BridgeCommand::TransferToCkb => "transfer erc20 token from ethereum to ckb chain"@,
            BridgeCommand::TransferFromCkb => "transfer erc20 token from ckb chain to ethereum"@,
            BridgeCommand::DeploySol => "deploy the bridge contract on the source chain"@,
            BridgeCommand::DeployCkb => "deploy toCKB scripts"@,
        }
    }

    /// The subcommand that a name stands for.
    pub open spec fn named(name: Seq<char>) -> Option<BridgeCommand> {
        if name == BridgeCommand::TransferToCkb.label() {
            Some(BridgeCommand::TransferToCkb)
        } else if name == BridgeCommand::TransferFromCkb.label() {
            Some(BridgeCommand::TransferFromCkb)
        } else if name == BridgeCommand::DeploySol.label() {
            Some(BridgeCommand::DeploySol)
        } else if name == BridgeCommand::DeployCkb.label() {
            Some(BridgeCommand::DeployCkb)
        } else {
            None
        }
    }

    /// The name of the subcommand on the command line.
    pub fn name(self) -> (s: &'static str)
        ensures
            s@ == self.label(),
    {
        match self {
            BridgeCommand::TransferToCkb => "transfer-to-dest",
            BridgeCommand::TransferFromCkb => "transfer-from-dest",
            BridgeCommand::DeploySol => "deploy-source-contract",
            BridgeCommand::DeployCkb => "deploy-dest-scripts",
        }
    }

    /// The help line of the subcommand.
    pub fn about(self) -> (s: &'static str)
        ensures
            s@ == self.summary(),
    {
        match self {
            BridgeCommand::TransferToCkb => "transfer erc20 token from ethereum to ckb chain",
            BridgeCommand::TransferFromCkb => "transfer erc20 token from ckb chain to ethereum",
            BridgeCommand::DeploySol => "deploy the bridge contract on the source chain",
            BridgeCommand::DeployCkb => "deploy toCKB scripts",
        }
    }

    /// Finds the subcommand that a name stands for; `None` for any other
    /// name.
    pub fn parse(name: &str) -> (r: Option<BridgeCommand>)
        ensures
            r == BridgeCommand::named(name@),
    {
        let given = name.to_owned();
        if given == BridgeCommand::TransferToCkb.name().to_owned() {
            Some(BridgeCommand::TransferToCkb)
        } else if given == BridgeCommand::TransferFromCkb.name().to_owned() {
            Some(BridgeCommand::TransferFromCkb)
        } else if given == BridgeCommand::DeploySol.name().to_owned() {
            Some(BridgeCommand::DeploySol)
        } else if given == BridgeCommand::DeployCkb.name().to_owned() {
            Some(BridgeCommand::DeployCkb)
        } else {
            None
        }
    }
}

/// Every subcommand is found again under its own name.
pub proof fn lemma_name_finds_command(c: BridgeCommand)
    ensures
        BridgeCommand::named(c.label()) == Some(c),
{
    reveal_strlit("transfer-to-dest");
    reveal_strlit("transfer-from-dest");
    reveal_strlit("deploy-source-contract");
    reveal_strlit("deploy-dest-scripts");
    assert("transfer-to-dest"@.len() == 16);
    assert("transfer-from-dest"@.len() == 18);
    assert("deploy-source-contract"@.len() == 22);
    assert("deploy-dest-scripts"@.len() == 19);
}

/// What a record asks of the caller: its planned action, or the news that
/// it is completed, or the error it failed with.
pub open spec fn instruct(r: RecordView, p: Policy) -> Directive {
    match plan(r, p) {
        Some(action) => Directive::Perform { action, version: r.updated_at },
        None => if r.status.completed() {
            Directive::Finished
        } else {
            Directive::Halted(
                match r.last_error {
                    Some(e) => e,
                    None => BridgeError::Aborted,
                },
            )
        },
    }
}

/// One call of the engine on the record `r` against the log `m`: with no
/// report, the record's instruction; with a report planned from another
/// version, a version conflict; else the record reacts to the outcome, a
/// changed record is put into the log, and the verdict decides how the
/// caller goes on.
pub open spec fn proceed(
    m: Map<u64, RecordView>,
    r: RecordView,
    report: Option<ReportView>,
    p: Policy,
) -> (Map<u64, RecordView>, Directive) {
    match report {
        None => (m, instruct(r, p)),
        Some(rep) => if rep.version != r.updated_at {
            (m, Directive::Halted(BridgeError::VersionConflict))
        } else {
            let next = react(r, rep.outcome, p).0;
            match react(r, rep.outcome, p).1 {
                Verdict::Unchanged => (m, instruct(r, p)),
                Verdict::Pending => (m, Directive::Halted(BridgeError::NotYetReady)),
                Verdict::Aborted(e) => (m, Directive::Halted(e)),
                Verdict::Advanced => if admits(m, next) {
                    (m.insert(next.id, next), instruct(next, p))
                } else {
                    (m, Directive::Halted(refusal(m, next)))
                },
                Verdict::Retry(e) => if admits(m, next) {
                    (m.insert(next.id, next), Directive::Halted(e))
                } else {
                    (m, Directive::Halted(refusal(m, next)))
                },
                Verdict::Failed(e) => if admits(m, next) {
                    (m.insert(next.id, next), Directive::Halted(e))
                } else {
                    (m, Directive::Halted(refusal(m, next)))
                },
            }
        },
    }
}

/// One call of an orchestrator: load the transfer from the log, then let
/// the engine proceed on it.
pub open spec fn conduct(
    m: Map<u64, RecordView>,
    direction: Direction,
    request: RequestView,
    report: Option<ReportView>,
    p: Policy,
) -> (Map<u64, RecordView>, Directive) {
    match loaded(m, direction, request) {
        Err(e) => (m, Directive::Halted(e)),
        Ok(r) => proceed(m, r, report, p),
    }
}

/// An explicit abort of the transfer stored under `id`: a transfer that is
/// under way fails with `Aborted`, a terminal one stays as it is, and for
/// an identifier that the log does not know the abort is rejected.
pub open spec fn revoke(m: Map<u64, RecordView>, id: u64, p: Policy) -> (
    Map<u64, RecordView>,
    Directive,
) {
    if !m.contains_key(id) {
        (m, Directive::Halted(BridgeError::Rejected))
    } else {
        match cancelled(m[id]).1 {
            Verdict::Failed(e) => (m.insert(id, cancelled(m[id]).0), Directive::Halted(e)),
            Verdict::Aborted(e) => (m, Directive::Halted(e)),
            _ => (m, instruct(m[id], p)),
        }
    }
}

/// The log after a session of calls on an orchestrator: the outcomes `os`
/// are reported one after the other, each under the version of the record
/// as it is loaded at that moment.
pub open spec fn session(
    m: Map<u64, RecordView>,
    direction: Direction,
    request: RequestView,
    os: Seq<OutcomeView>,
    p: Policy,
) -> Map<u64, RecordView>
    decreases os.len(),
{
    if os.len() == 0 {
        m
    } else {
        let before = session(m, direction, request, os.drop_last(), p);
        match loaded(before, direction, request) {
            Ok(r) => conduct(
                before,
                direction,
                request,
                Some(ReportView { version: r.updated_at, outcome: os.last() }),
                p,
            ).0,
            Err(_) => before,
        }
    }
}

/// The mathematical value of an optional report.
pub open spec fn report_view(report: Option<Report>) -> Option<ReportView> {
    match report {
        Some(rep) => Some(rep@),
        None => None,
    }
}

/// The instruction that a record gives the caller.
pub fn directive_for(record: &TransferRecord, policy: &Policy) -> (d: Directive)
    requires
        record@.wf(),
    ensures
        d == instruct(record@, *policy),
{
    match record.next_action(policy) {
        Some(action) => Directive::Perform { action, version: record.updated_at },
        None => if record.status.is_completed() {
            Directive::Finished
        } else {
            Directive::Halted(
                match record.last_error {
                    Some(e) => e,
                    None => BridgeError::Aborted,
                },
            )
        },
    }
}

/// The shared engine. Takes the record of a transfer as it was loaded and,
/// if there is one, the report of the action performed for it; applies the
/// report, persists the record if it changed, and says how to go on. The
/// log changes only by taking in the changed record.
pub fn advance(
    store: &mut TransferLogStore,
    record: TransferRecord,
    report: Option<Report>,
    policy: &Policy,
) -> (d: Directive)
    requires
        old(store).wf(),
        record@.wf(),
    ensures
        final(store).wf(),
        (final(store)@, d) == proceed(old(store)@, record@, report_view(report), *policy),
{
    let rep = match report {
        None => {
            return directive_for(&record, policy);
        },
        Some(rep) => rep,
    };
    if rep.version != record.updated_at {
        return Directive::Halted(BridgeError::VersionConflict);
    }
    let was = directive_for(&record, policy);
    let (next, verdict) = record.apply(rep.outcome, policy);
    let then = directive_for(&next, policy);
    match verdict {
        Verdict::Unchanged => was,
        Verdict::Pending => Directive::Halted(BridgeError::NotYetReady),
        Verdict::Aborted(e) => Directive::Halted(e),
        Verdict::Advanced => match store.put(next) {
            Ok(()) => then,
            Err(refused) => Directive::Halted(refused),
        },
        Verdict::Retry(e) => match store.put(next) {
            Ok(()) => Directive::Halted(e),
            Err(refused) => Directive::Halted(refused),
        },
        Verdict::Failed(e) => match store.put(next) {
            Ok(()) => Directive::Halted(e),
            Err(refused) => Directive::Halted(refused),
        },
    }
}

impl CkbBridgeSubCommand {
    /// The invariant of the subcommand: its log is well formed.
    pub open spec fn wf(&self) -> bool {
        self.store.wf()
    }

    /// What preparing a chain read asks of the caller: first the sync
    /// gate, if it is configured and not yet passed, then the genesis info,
    /// if none is cached, then the index of the cached genesis.
    pub open spec fn db_access(&self, synced: bool) -> DbAccess {
        if self.wait_for_sync && !synced {
            DbAccess::WaitUntilSynced
        } else {
            match self.genesis_info {
                None => DbAccess::FetchGenesis,
                Some(info) => DbAccess::Open(info),
            }
        }
    }

    /// A subcommand on the given log and settings.
    pub fn new(
        store: TransferLogStore,
        policy: Policy,
        genesis_info: Option<GenesisInfo>,
        wait_for_sync: bool,
    ) -> (c: CkbBridgeSubCommand)
        ensures
            c.store == store,
            c.policy == policy,
            c.genesis_info == genesis_info,
            c.wait_for_sync == wait_for_sync,
    {
        CkbBridgeSubCommand { store, policy, genesis_info, wait_for_sync }
    }

    /// The genesis info to work with: the cached one, or else the one just
    /// fetched, which is cached from now on. What is cached is never
    /// replaced.
    pub fn genesis_info(&mut self, fetched: GenesisInfo) -> (info: GenesisInfo)
        ensures
            info == match old(self).genesis_info {
                Some(cached) => cached,
                None => fetched,
            },
            final(self).genesis_info == Some(info),
            final(self).store == old(self).store,
            final(self).policy == old(self).policy,
            final(self).wait_for_sync == old(self).wait_for_sync,
    {
        match self.genesis_info {
            Some(cached) => cached,
            None => {
                self.genesis_info = Some(fetched);
                fetched
            },
        }
    }

    /// Says what has to happen before chain state is read. `synced` tells
    /// whether the sync gate was passed already.
    pub fn with_db(&self, synced: bool) -> (step: DbAccess)
        ensures
            step == self.db_access(synced),
    {
        if self.wait_for_sync && !synced {
            DbAccess::WaitUntilSynced
        } else {
            match self.genesis_info {
                None => DbAccess::FetchGenesis,
                Some(info) => DbAccess::Open(info),
            }
        }
    }

    /// The command-line surface: the command's name and help line and its
    /// four subcommands in the order in which they are listed.
    pub fn subcommand() -> (table: CommandTable)
        ensures
            table.name@ == "ckb-bridge"@,
            table.about@ == "ckb bridge cli tools"@,
            table.subcommands@ == seq![
                BridgeCommand::TransferToCkb,
                BridgeCommand::TransferFromCkb,
                BridgeCommand::DeploySol,
                BridgeCommand::DeployCkb,
            ],
    {
        let mut subcommands: Vec<BridgeCommand> = Vec::new();
        subcommands.push(BridgeCommand::TransferToCkb);
        subcommands.push(BridgeCommand::TransferFromCkb);
        subcommands.push(BridgeCommand::DeploySol);
        subcommands.push(BridgeCommand::DeployCkb);
        assert(subcommands@ =~= seq![
            BridgeCommand::TransferToCkb,
            BridgeCommand::TransferFromCkb,
            BridgeCommand::DeploySol,
            BridgeCommand::DeployCkb,
        ]);
        CommandTable { name: "ckb-bridge", about: "ckb bridge cli tools", subcommands }
    }

    /// The source-to-destination orchestrator. Without a report it resumes
    /// the transfer: it loads the log entry, creating it in the initial
    /// state if there is none, and says what to do. With a report it
    /// applies the outcome, persists the entry and says how to go on.
    pub fn transfer_to_ckb(&mut self, request: &TransferRequest, report: Option<Report>) -> (d:
        Directive)
        requires
            old(self).wf(),
        ensures
            final(self).wf(),
            (final(self).store@, d) == conduct(
                old(self).store@,
                Direction::SourceToDest,
                request@,
                report_view(report),
                old(self).policy,
            ),
            final(self).policy == old(self).policy,
            final(self).genesis_info == old(self).genesis_info,
            final(self).wait_for_sync == old(self).wait_for_sync,
    {
        let policy = self.policy;
        match load_to_ckb_log(&self.store, request) {
            Err(e) => Directive::Halted(e),
            Ok(log) => advance(&mut self.store, log.record, report, &policy),
        }
    }

    /// The destination-to-source orchestrator. Without a report it resumes
    /// the transfer: it loads the log entry, creating it in the initial
    /// state if there is none, and says what to do. With a report it
    /// applies the outcome, persists the entry and says how to go on.
    pub fn transfer_from_ckb(&mut self, request: &TransferRequest, report: Option<Report>) -> (d:
        Directive)
        requires
            old(self).wf(),
        ensures
            final(self).wf(),
            (final(self).store@, d) == conduct(
                old(self).store@,
                Direction::DestToSource,
                request@,
                report_view(report),
                old(self).policy,
            ),
            final(self).policy == old(self).policy,
            final(self).genesis_info == old(self).genesis_info,
            final(self).wait_for_sync == old(self).wait_for_sync,
    {
        let policy = self.policy;
        match load_from_ckb_log(&self.store, request) {
            Err(e) => Directive::Halted(e),
            Ok(log) => advance(&mut self.store, log.record, report, &policy),
        }
    }

    /// Stops the transfer stored under `id` on the operator's request.
    /// Transactions that were broadcast stay broadcast; the transfer makes
    /// no further automatic progress.
    pub fn abort(&mut self, id: u64) -> (d: Directive)
        requires
            old(self).wf(),
        ensures
            final(self).wf(),
            (final(self).store@, d) == revoke(old(self).store@, id, old(self).policy),
            final(self).policy == old(self).policy,
            final(self).genesis_info == old(self).genesis_info,
            final(self).wait_for_sync == old(self).wait_for_sync,
    {
        let record = match self.store.get(id) {
            None => {
                return Directive::Halted(BridgeError::Rejected);
            },
            Some(r) => r,
        };
        let was = directive_for(&record, &self.policy);
        let (next, verdict) = record.abort();
        match verdict {
            Verdict::Failed(e) => match self.store.put(next) {
                Ok(()) => Directive::Halted(e),
                Err(refused) => Directive::Halted(refused),
            },
            Verdict::Aborted(e) => Directive::Halted(e),
            _ => was,
        }
    }

    /// Hands the deployment of the source-chain contract to the caller.
    pub fn deploy_sol(&self) -> (d: Directive)
        ensures
            d == Directive::Provision(Provision::SourceContract),
    {
        Directive::Provision(Provision::SourceContract)
    }

    /// Hands the deployment of the destination-chain scripts to the caller.
    pub fn deploy_ckb(&self) -> (d: Directive)
        ensures
            d == Directive::Provision(Provision::DestScripts),
    {
        Directive::Provision(Provision::DestScripts)
    }

    /// Dispatches a subcommand by its name. `None` for a name that is no
    /// subcommand: the caller shows the usage.
    pub fn process(&mut self, name: &str, request: &TransferRequest, report: Option<Report>) -> (res:
        Option<Directive>)
        requires
            old(self).wf(),
        ensures
            final(self).wf(),
            final(self).policy == old(self).policy,
            final(self).genesis_info == old(self).genesis_info,
            final(self).wait_for_sync == old(self).wait_for_sync,
            match BridgeCommand::named(name@) {
                None => res is None && final(self).store@ == old(self).store@,
                Some(BridgeCommand::TransferToCkb) => res matches Some(d) && (
                    final(self).store@,
                    d,
                ) == conduct(
                    old(self).store@,
                    Direction::SourceToDest,
                    request@,
                    report_view(report),
                    old(self).policy,
                ),
                Some(BridgeCommand::TransferFromCkb) => res matches Some(d) && (
                    final(self).store@,
                    d,
                ) == conduct(
                    old(self).store@,
                    Direction::DestToSource,
                    request@,
                    report_view(report),
                    old(self).policy,
                ),
                Some(BridgeCommand::DeploySol) => res == Some(
                    Directive::Provision(Provision::SourceContract),
                ) && final(self).store@ == old(self).store@,
                Some(BridgeCommand::DeployCkb) => res == Some(
                    Directive::Provision(Provision::DestScripts),
                ) && final(self).store@ == old(self).store@,
            },
    {
        match BridgeCommand::parse(name) {
            None => None,
            Some(BridgeCommand::TransferToCkb) => Some(self.transfer_to_ckb(request, report)),
            Some(BridgeCommand::TransferFromCkb) => Some(self.transfer_from_ckb(request, report)),
            Some(BridgeCommand::DeploySol) => Some(self.deploy_sol()),
            Some(BridgeCommand::DeployCkb) => Some(self.deploy_ckb()),
        }
    }
}

/// A record as it was loaded from a sound log is always taken back: the
/// log admits whatever the engine makes of it.
pub proof fn lemma_loaded_record_is_admitted(
    m: Map<u64, RecordView>,
    direction: Direction,
    request: RequestView,
    o: OutcomeView,
    p: Policy,
)
    requires
        sound(m),
        loaded(m, direction, request) is Ok,
    ensures
        loaded(m, direction, request) matches Ok(r) && r.wf() && r.id == request.id && (react(
            r,
            o,
            p,
        ).1.changes() ==> admits(m, react(r, o, p).0)),
{
    let r = loaded(m, direction, request)->Ok_0;
    lemma_react_keeps_invariant(r, o, p);
    lemma_react_follows(r, o, p);
}

/// A session of calls on an orchestrator is a run of the engine: what is
/// loaded from the log after the session is the record that the engine
/// makes of the record loaded before it. The log stays sound throughout.
pub proof fn lemma_session_is_run(
    m: Map<u64, RecordView>,
    direction: Direction,
    request: RequestView,
    os: Seq<OutcomeView>,
    p: Policy,
)
    requires
        sound(m),
        loaded(m, direction, request) is Ok,
    ensures
        sound(session(m, direction, request, os, p)),
        loaded(session(m, direction, request, os, p), direction, request) == Ok::<
            RecordView,
            BridgeError,
        >(run(loaded(m, direction, request)->Ok_0, os, p)),
    decreases os.len(),
{
    if os.len() > 0 {
        let before = session(m, direction, request, os.drop_last(), p);
        lemma_session_is_run(m, direction, request, os.drop_last(), p);
        let r = loaded(before, direction, request)->Ok_0;
        lemma_loaded_record_is_admitted(before, direction, request, os.last(), p);
        lemma_react_keeps_invariant(r, os.last(), p);
        lemma_react_follows(r, os.last(), p);
    }
}

/// Progress at the orchestrator: for a transfer that the log does not hold
/// yet, a session with adapters that always succeed leaves the record at
/// the place that equals the number of calls; the transfer is completed
/// after exactly as many calls as its table has rows.
pub proof fn lemma_session_progress(
    m: Map<u64, RecordView>,
    direction: Direction,
    request: RequestView,
    os: Seq<OutcomeView>,
    p: Policy,
)
    requires
        sound(m),
        !m.contains_key(request.id),
        cooperative(RecordView::fresh(direction, request), os, p),
        os.len() > 0,
    ensures
        os.len() <= TransferStatus::start(direction).steps(),
        session(m, direction, request, os, p).contains_key(request.id),
        session(m, direction, request, os, p)[request.id].status.position() == os.len(),
        session(m, direction, request, os, p)[request.id].status.completed() <==> os.len()
            == TransferStatus::start(direction).steps(),
        session(m, direction, request, os, p)[request.id] == run(
            RecordView::fresh(direction, request),
            os,
            p,
        ),
{
    lemma_session_is_run(m, direction, request, os, p);
    lemma_cooperative_run(direction, request, os, p);
}

/// A call of an orchestrator keeps the log sound and touches no transfer
/// but the requested one.
pub proof fn lemma_conduct_keeps_log_sound(
    m: Map<u64, RecordView>,
    direction: Direction,
    request: RequestView,
    report: Option<ReportView>,
    p: Policy,
    other: u64,
)
    requires
        sound(m),
        other != request.id,
    ensures
        sound(conduct(m, direction, request, report, p).0),
        conduct(m, direction, request, report, p).0.contains_key(other) == m.contains_key(other),
        m.contains_key(other) ==> conduct(m, direction, request, report, p).0[other] == m[other],
{
    if let Ok(r) = loaded(m, direction, request) {
        if let Some(rep) = report {
            lemma_react_keeps_invariant(r, rep.outcome, p);
            lemma_react_follows(r, rep.outcome, p);
        }
    }
}

/// Terminal immutability at the orchestrator: once the stored transfer is
/// completed or failed, no call and no abort changes the log, and no
/// action is ever asked for again.
pub proof fn lemma_conduct_on_terminal(
    m: Map<u64, RecordView>,
    direction: Direction,
    request: RequestView,
    report: Option<ReportView>,
    p: Policy,
)
    requires
        m.contains_key(request.id),
        m[request.id].status.terminal(),
    ensures
        conduct(m, direction, request, report, p).0 == m,
        !(conduct(m, direction, request, report, p).1 is Perform),
        revoke(m, request.id, p).0 == m,
        !(revoke(m, request.id, p).1 is Perform),
{
}

/// A completed transfer answers every call of its orchestrator with
/// `Finished`, whatever is reported under its version.
pub proof fn lemma_conduct_on_completed(
    m: Map<u64, RecordView>,
    direction: Direction,
    request: RequestView,
    o: OutcomeView,
    p: Policy,
)
    requires
        m.contains_key(request.id),
        m[request.id].status.completed(),
        loaded(m, direction, request) is Ok,
    ensures
        conduct(m, direction, request, None, p) == (m, Directive::Finished),
        conduct(
            m,
            direction,
            request,
            Some(ReportView { version: m[request.id].updated_at, outcome: o }),
            p,
        ) == (m, Directive::Finished),
{
}

} // verus!
