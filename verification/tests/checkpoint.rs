use kv_access::checkpoint::{
    create_checkpoint, discard_checkpoint, open_copy_for_read, release_copy_reader, CheckpointError,
};
use kv_access::connection::{ConnectionErrorKind, ConnectionMode, FilesLimit};
use kv_access::engine::{external_write, CheckpointSlot, Database, EngineModel};
use kv_access::storage::{StorageView, ViewConfig};
use kv_access::tip::SelectedChainTip;

fn empty_slot() -> CheckpointSlot {
    CheckpointSlot {
        occupied: false,
        dir: Database { log: Vec::new(), files_needed: 0, format_ok: false },
        readers: 0,
    }
}

fn live_engine_with_slots(n: usize) -> EngineModel {
    let mut slots = Vec::new();
    for _ in 0..n {
        slots.push(empty_slot());
    }
    EngineModel {
        source_exists: true,
        source: Database { log: Vec::new(), files_needed: 16, format_ok: true },
        primary_flushing: true,
        secondary_attached: false,
        slots,
    }
}

fn config() -> ViewConfig {
    ViewConfig { network_id: 1 }
}

#[test]
fn checkpoint_round_trip_reads_the_live_tip_then_discards() {
    let tip = SelectedChainTip { index: 77 };
    let mut engine = live_engine_with_slots(1);
    external_write(&mut engine, tip);

    let copy = create_checkpoint(&mut engine, 0, FilesLimit::Cap(128)).unwrap();
    assert_eq!(copy.slot, 0);
    assert!(engine.slots[0].occupied);

    let mut copy_handle = open_copy_for_read(&mut engine, &copy, FilesLimit::Cap(128)).unwrap();
    assert_eq!(copy_handle.mode, ConnectionMode::Checkpoint);
    let copy_view = StorageView::new(copy_handle, config());
    let live_handle = kv_access::connection::open_readonly(&engine, FilesLimit::Cap(128)).unwrap();
    let live_view = StorageView::new(live_handle, config());
    assert_eq!(copy_view.read_tip(&engine), live_view.read_tip(&engine));
    assert_eq!(copy_view.read_tip(&engine), Ok(tip));

    release_copy_reader(&mut engine, &mut copy_handle);
    assert!(!copy_handle.is_open);
    assert_eq!(discard_checkpoint(&mut engine, copy), Ok(()));
    assert!(!engine.slots[0].occupied);

    let again = create_checkpoint(&mut engine, 0, FilesLimit::Cap(128));
    assert!(again.is_ok());
}

#[test]
fn checkpoint_is_independent_of_later_source_writes() {
    let mut engine = live_engine_with_slots(1);
    external_write(&mut engine, SelectedChainTip { index: 1 });
    let copy = create_checkpoint(&mut engine, 0, FilesLimit::Cap(128)).unwrap();
    external_write(&mut engine, SelectedChainTip { index: 2 });
    let copy_handle = open_copy_for_read(&mut engine, &copy, FilesLimit::Cap(128)).unwrap();
    let copy_view = StorageView::new(copy_handle, config());
    assert_eq!(copy_view.read_tip(&engine), Ok(SelectedChainTip { index: 1 }));
}

#[test]
fn checkpoint_at_existing_destination_fails_and_changes_nothing() {
    let mut engine = live_engine_with_slots(1);
    external_write(&mut engine, SelectedChainTip { index: 9 });
    create_checkpoint(&mut engine, 0, FilesLimit::Cap(128)).unwrap();
    let kept = engine.slots[0].dir.log.clone();

    external_write(&mut engine, SelectedChainTip { index: 10 });
    let err = create_checkpoint(&mut engine, 0, FilesLimit::Cap(128)).unwrap_err();
    assert_eq!(err, CheckpointError::DestinationExists);
    assert!(engine.slots[0].occupied);
    assert_eq!(engine.slots[0].dir.log, kept);
}

#[test]
fn checkpoint_of_unreadable_source_fails() {
    let mut engine = live_engine_with_slots(1);
    engine.source_exists = false;
    let err = create_checkpoint(&mut engine, 0, FilesLimit::Cap(128)).unwrap_err();
    assert_eq!(err, CheckpointError::SourceUnreadable(ConnectionErrorKind::PathMissing));
    assert!(!engine.slots[0].occupied);
}

#[test]
fn discard_refuses_while_a_reader_is_open() {
    let mut engine = live_engine_with_slots(1);
    external_write(&mut engine, SelectedChainTip { index: 3 });
    let copy = create_checkpoint(&mut engine, 0, FilesLimit::Cap(128)).unwrap();
    let mut copy_handle = open_copy_for_read(&mut engine, &copy, FilesLimit::Cap(128)).unwrap();
    assert_eq!(discard_checkpoint(&mut engine, copy), Err(CheckpointError::CopyInUse));
    assert!(engine.slots[0].occupied);
    release_copy_reader(&mut engine, &mut copy_handle);
    let copy = kv_access::checkpoint::CheckpointCopy { slot: 0 };
    assert_eq!(discard_checkpoint(&mut engine, copy), Ok(()));
}

#[test]
fn opening_a_missing_copy_fails() {
    let mut engine = live_engine_with_slots(2);
    let copy = kv_access::checkpoint::CheckpointCopy { slot: 1 };
    let err = open_copy_for_read(&mut engine, &copy, FilesLimit::Cap(128)).unwrap_err();
    assert_eq!(err.mode, ConnectionMode::Checkpoint);
    assert_eq!(err.kind, ConnectionErrorKind::PathMissing);
}

#[test]
fn opening_a_copy_with_too_small_cap_fails() {
    let mut engine = live_engine_with_slots(1);
    engine.source.files_needed = 100;
    external_write(&mut engine, SelectedChainTip { index: 4 });
    let copy = create_checkpoint(&mut engine, 0, FilesLimit::NoCap).unwrap();
    let err = open_copy_for_read(&mut engine, &copy, FilesLimit::Cap(10)).unwrap_err();
    assert_eq!(err.kind, ConnectionErrorKind::ResourceExhausted);
}
