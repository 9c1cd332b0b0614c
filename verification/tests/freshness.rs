use kv_access::connection::{catch_up, open_readonly, open_secondary, CatchUpOutcome, ConnectionErrorKind, FilesLimit};
use kv_access::engine::{external_write, Database, EngineModel};
use kv_access::errors::CatchUpError;
use kv_access::freshness::{classify_catch_up, FreshnessPolicy, PolicyPhase, Strategy};
use kv_access::storage::{StorageView, ViewConfig};
use kv_access::tip::SelectedChainTip;

fn live_engine() -> EngineModel {
    EngineModel {
        source_exists: true,
        source: Database { log: Vec::new(), files_needed: 16, format_ok: true },
        primary_flushing: true,
        secondary_attached: false,
        slots: Vec::new(),
    }
}

fn config() -> ViewConfig {
    ViewConfig { network_id: 1 }
}

#[test]
fn static_view_reads_are_identical_across_external_writes() {
    let mut engine = live_engine();
    external_write(&mut engine, SelectedChainTip { index: 10 });
    let mut policy = FreshnessPolicy::new(Strategy::StaticSnapshot, FilesLimit::Cap(128), config(), 5000);
    policy.connect(&mut engine).unwrap();
    let first = policy.observe(&engine).unwrap();
    assert_eq!(first, Ok(SelectedChainTip { index: 10 }));
    external_write(&mut engine, SelectedChainTip { index: 11 });
    let second = policy.observe(&engine).unwrap();
    assert_eq!(second, first);
    policy.close(&mut engine);
    assert_eq!(policy.phase, PolicyPhase::Closed);
}

#[test]
fn reconnect_view_reflects_the_external_write() {
    let mut engine = live_engine();
    external_write(&mut engine, SelectedChainTip { index: 10 });
    let mut policy = FreshnessPolicy::new(Strategy::ReconnectRefresh, FilesLimit::Cap(128), config(), 5000);
    policy.connect(&mut engine).unwrap();
    assert_eq!(policy.observe(&engine).unwrap(), Ok(SelectedChainTip { index: 10 }));
    external_write(&mut engine, SelectedChainTip { index: 11 });
    assert_eq!(policy.observe(&engine).unwrap(), Ok(SelectedChainTip { index: 11 }));
    policy.close(&mut engine);
}

#[test]
fn catch_up_then_read_reflects_flushed_writes_and_is_noop_without_them() {
    let mut engine = live_engine();
    external_write(&mut engine, SelectedChainTip { index: 1 });
    let mut handle = open_secondary(&mut engine, FilesLimit::NoCap).unwrap();
    let view_cfg = config();

    external_write(&mut engine, SelectedChainTip { index: 2 });
    external_write(&mut engine, SelectedChainTip { index: 3 });
    let outcome = catch_up(&engine, &mut handle);
    assert_eq!(outcome, CatchUpOutcome::Advanced);
    let view = StorageView::new(handle, view_cfg);
    assert_eq!(view.read_tip(&engine), Ok(SelectedChainTip { index: 3 }));

    let before = handle;
    let outcome = catch_up(&engine, &mut handle);
    assert_eq!(outcome, CatchUpOutcome::NoNewData);
    assert_eq!(handle, before);
    let view = StorageView::new(handle, view_cfg);
    assert_eq!(view.read_tip(&engine), Ok(SelectedChainTip { index: 3 }));
    assert_eq!(classify_catch_up(outcome, false), Ok(CatchUpOutcome::NoNewData));
}

#[test]
fn silent_catch_up_misconfiguration_is_surfaced() {
    let mut engine = live_engine();
    engine.primary_flushing = false;
    external_write(&mut engine, SelectedChainTip { index: 1 });
    let mut handle = open_secondary(&mut engine, FilesLimit::NoCap).unwrap();
    external_write(&mut engine, SelectedChainTip { index: 2 });
    let outcome = catch_up(&engine, &mut handle);
    assert_eq!(outcome, CatchUpOutcome::NoNewData);
    assert_eq!(classify_catch_up(outcome, true), Err(CatchUpError::NoProgress));
}

#[test]
fn scenario_static_stays_at_t0_while_reconnect_sees_t1() {
    let t0 = SelectedChainTip { index: 100 };
    let t1 = SelectedChainTip { index: 101 };
    let mut engine = live_engine();
    external_write(&mut engine, t0);

    let mut static_policy = FreshnessPolicy::new(Strategy::StaticSnapshot, FilesLimit::Cap(128), config(), 5000);
    static_policy.connect(&mut engine).unwrap();
    assert_eq!(static_policy.observe(&engine).unwrap(), Ok(t0));

    let mut reconnect_policy = FreshnessPolicy::new(Strategy::ReconnectRefresh, FilesLimit::Cap(128), config(), 5000);
    reconnect_policy.connect(&mut engine).unwrap();
    assert_eq!(reconnect_policy.observe(&engine).unwrap(), Ok(t0));

    external_write(&mut engine, t1);

    assert_eq!(static_policy.observe(&engine).unwrap(), Ok(t0));
    assert_eq!(reconnect_policy.observe(&engine).unwrap(), Ok(t1));

    static_policy.close(&mut engine);
    reconnect_policy.close(&mut engine);
}

#[test]
fn connect_failure_closes_the_policy_without_a_handle() {
    let mut engine = live_engine();
    engine.source_exists = false;
    let mut policy = FreshnessPolicy::new(Strategy::StaticSnapshot, FilesLimit::Cap(128), config(), 5000);
    let err = policy.connect(&mut engine).unwrap_err();
    assert_eq!(err.kind, ConnectionErrorKind::PathMissing);
    assert_eq!(policy.phase, PolicyPhase::Closed);
    assert!(policy.view.is_none());
}

#[test]
fn closing_a_secondary_policy_releases_the_replica_directory() {
    let mut engine = live_engine();
    external_write(&mut engine, SelectedChainTip { index: 1 });
    let mut policy = FreshnessPolicy::new(Strategy::SecondaryCatchUp, FilesLimit::NoCap, config(), 5000);
    policy.connect(&mut engine).unwrap();
    assert!(engine.secondary_attached);
    assert_eq!(policy.observe(&engine).unwrap(), Ok(SelectedChainTip { index: 1 }));
    policy.close(&mut engine);
    assert_eq!(policy.phase, PolicyPhase::Closed);
    assert!(!engine.secondary_attached);
    assert!(open_readonly(&engine, FilesLimit::Cap(128)).is_ok());
}

#[test]
fn secondary_policy_observation_pulls_the_snapshot_forward() {
    let mut engine = live_engine();
    external_write(&mut engine, SelectedChainTip { index: 1 });
    let mut policy = FreshnessPolicy::new(Strategy::SecondaryCatchUp, FilesLimit::NoCap, config(), 5000);
    policy.connect(&mut engine).unwrap();
    external_write(&mut engine, SelectedChainTip { index: 2 });
    assert_eq!(policy.observe(&engine).unwrap(), Ok(SelectedChainTip { index: 2 }));
    policy.close(&mut engine);
}
