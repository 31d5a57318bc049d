use ckb_bridge::command::{
    advance, directive_for, BridgeCommand, CkbBridgeSubCommand, DbAccess, Directive, GenesisInfo,
    Provision, Report,
};
use ckb_bridge::engine::{Action, Outcome, Policy};
use ckb_bridge::error::BridgeError;
use ckb_bridge::record::{TransferRecord, TransferRequest, TxHash};
use ckb_bridge::status::{Direction, ToCkbLogStatus, TransferStatus};
use ckb_bridge::store::TransferLogStore;

fn hash(tag: u8) -> TxHash {
    TxHash { bytes: [tag; 32] }
}

fn policy() -> Policy {
    Policy { confirmation_depth: 3, block_safe_depth: 9 }
}

fn request(id: u64) -> TransferRequest {
    TransferRequest { id, amount: 100, source_address: vec![1], dest_address: vec![2] }
}

fn command(genesis: Option<GenesisInfo>, wait: bool) -> CkbBridgeSubCommand {
    CkbBridgeSubCommand::new(TransferLogStore::new(), policy(), genesis, wait)
}

#[test]
fn new_keeps_its_arguments() {
    let g = GenesisInfo { genesis_hash: [7; 32] };
    let c = command(Some(g), true);
    assert_eq!(c.policy, policy());
    assert_eq!(c.genesis_info, Some(g));
    assert!(c.wait_for_sync);
    assert_eq!(c.store.len(), 0);
}

#[test]
fn subcommand_table_lists_the_four_commands() {
    let t = CkbBridgeSubCommand::subcommand();
    assert_eq!(t.name, "ckb-bridge");
    assert_eq!(t.about, "ckb bridge cli tools");
    assert_eq!(
        t.subcommands,
        vec![
            BridgeCommand::TransferToCkb,
            BridgeCommand::TransferFromCkb,
            BridgeCommand::DeploySol,
            BridgeCommand::DeployCkb,
        ]
    );
    let names: Vec<&str> = t.subcommands.iter().map(|c| c.name()).collect();
    assert_eq!(
        names,
        vec!["transfer-to-dest", "transfer-from-dest", "deploy-source-contract", "deploy-dest-scripts"]
    );
    for c in t.subcommands {
        assert!(!c.about().is_empty());
        assert_eq!(BridgeCommand::parse(c.name()), Some(c));
    }
}

#[test]
fn parse_knows_only_the_four_names() {
    assert_eq!(BridgeCommand::parse("transfer-to-dest"), Some(BridgeCommand::TransferToCkb));
    assert_eq!(BridgeCommand::parse("transfer-from-dest"), Some(BridgeCommand::TransferFromCkb));
    assert_eq!(BridgeCommand::parse("deploy-source-contract"), Some(BridgeCommand::DeploySol));
    assert_eq!(BridgeCommand::parse("deploy-dest-scripts"), Some(BridgeCommand::DeployCkb));
    assert_eq!(BridgeCommand::parse(""), None);
    assert_eq!(BridgeCommand::parse("transfer-to-dest "), None);
    assert_eq!(BridgeCommand::parse("Transfer-To-Dest"), None);
    assert_eq!(BridgeCommand::parse("deploy"), None);
}

#[test]
fn with_db_orders_sync_genesis_and_open() {
    let g = GenesisInfo { genesis_hash: [7; 32] };
    assert_eq!(command(None, true).with_db(false), DbAccess::WaitUntilSynced);
    assert_eq!(command(Some(g), true).with_db(false), DbAccess::WaitUntilSynced);
    assert_eq!(command(None, true).with_db(true), DbAccess::FetchGenesis);
    assert_eq!(command(None, false).with_db(false), DbAccess::FetchGenesis);
    assert_eq!(command(Some(g), true).with_db(true), DbAccess::Open(g));
    assert_eq!(command(Some(g), false).with_db(false), DbAccess::Open(g));
}

#[test]
fn genesis_info_is_cached_once() {
    let first = GenesisInfo { genesis_hash: [1; 32] };
    let second = GenesisInfo { genesis_hash: [2; 32] };
    let mut c = command(None, false);
    assert_eq!(c.genesis_info(first), first);
    assert_eq!(c.genesis_info, Some(first));
    assert_eq!(c.genesis_info(second), first);
    assert_eq!(c.genesis_info, Some(first));
    assert_eq!(c.with_db(false), DbAccess::Open(first));
}

#[test]
fn deploy_commands_hand_the_work_out() {
    let c = command(None, false);
    assert_eq!(c.deploy_sol(), Directive::Provision(Provision::SourceContract));
    assert_eq!(c.deploy_ckb(), Directive::Provision(Provision::DestScripts));
}

#[test]
fn process_dispatches_by_name() {
    let mut c = command(None, false);
    let req = request(1);
    assert_eq!(
        c.process("transfer-to-dest", &req, None),
        Some(Directive::Perform { action: Action::Approve, version: 0 })
    );
    assert_eq!(
        c.process("transfer-from-dest", &request(2), None),
        Some(Directive::Perform { action: Action::Burn, version: 0 })
    );
    assert_eq!(
        c.process("deploy-source-contract", &req, None),
        Some(Directive::Provision(Provision::SourceContract))
    );
    assert_eq!(
        c.process("deploy-dest-scripts", &req, None),
        Some(Directive::Provision(Provision::DestScripts))
    );
    assert_eq!(c.process("transfer-erc20", &req, None), None);
    assert_eq!(c.store.len(), 0);
    let d = c.process(
        "transfer-to-dest",
        &req,
        Some(Report { version: 0, outcome: Outcome::Submitted(hash(1)) }),
    );
    assert_eq!(d, Some(Directive::Perform { action: Action::Lock, version: 1 }));
    assert_eq!(
        c.store.get(1).unwrap().status,
        TransferStatus::ToCkb(ToCkbLogStatus::Approved)
    );
}

#[test]
fn directive_for_each_kind_of_record() {
    let p = policy();
    let fresh = TransferRecord::new(Direction::SourceToDest, request(1));
    assert_eq!(
        directive_for(&fresh, &p),
        Directive::Perform { action: Action::Approve, version: 0 }
    );
    let (failed, _) = fresh.clone().abort();
    assert_eq!(directive_for(&failed, &p), Directive::Halted(BridgeError::Aborted));
    let mut done = fresh;
    done.status = TransferStatus::ToCkb(ToCkbLogStatus::Completed);
    done.source_tx_hash = Some(hash(1));
    done.dest_tx_hash = Some(hash(2));
    done.proof = Some(vec![1]);
    assert_eq!(directive_for(&done, &p), Directive::Finished);
}

#[test]
fn advance_refuses_a_record_that_is_not_current() {
    let p = policy();
    let mut store = TransferLogStore::new();
    let fresh = TransferRecord::new(Direction::SourceToDest, request(1));
    let d = advance(
        &mut store,
        fresh.clone(),
        Some(Report { version: 0, outcome: Outcome::Submitted(hash(1)) }),
        &p,
    );
    assert_eq!(d, Directive::Perform { action: Action::Lock, version: 1 });
    let stored = store.get(1).unwrap();
    // a second caller still holds the record as it was before
    let d = advance(
        &mut store,
        fresh,
        Some(Report { version: 0, outcome: Outcome::Submitted(hash(9)) }),
        &p,
    );
    assert_eq!(d, Directive::Halted(BridgeError::VersionConflict));
    assert_eq!(store.get(1), Some(stored));
}

#[test]
fn advance_persists_retry_and_failure() {
    let p = policy();
    let mut store = TransferLogStore::new();
    let fresh = TransferRecord::new(Direction::SourceToDest, request(1));
    let d = advance(
        &mut store,
        fresh,
        Some(Report { version: 0, outcome: Outcome::Failed(BridgeError::ProofUnavailable) }),
        &p,
    );
    assert_eq!(d, Directive::Halted(BridgeError::ProofUnavailable));
    let noted = store.get(1).unwrap();
    assert_eq!(noted.last_error, Some(BridgeError::ProofUnavailable));
    assert_eq!(noted.updated_at, 1);
    let d = advance(
        &mut store,
        noted.clone(),
        Some(Report { version: 1, outcome: Outcome::Failed(BridgeError::NotYetReady) }),
        &p,
    );
    assert_eq!(d, Directive::Halted(BridgeError::NotYetReady));
    assert_eq!(store.get(1), Some(noted.clone()));
    let d = advance(
        &mut store,
        noted,
        Some(Report { version: 1, outcome: Outcome::Failed(BridgeError::ProofRejected) }),
        &p,
    );
    assert_eq!(d, Directive::Halted(BridgeError::ProofRejected));
    let failed = store.get(1).unwrap();
    assert_eq!(failed.status, TransferStatus::ToCkb(ToCkbLogStatus::Failed));
    assert_eq!(failed.updated_at, 2);
}
