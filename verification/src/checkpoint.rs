//! CheckpointManager: materializing an immutable, independent point-in-time
//! copy of the source database into a destination directory, reading it, and
//! reclaiming its storage afterward.

use vstd::prelude::*;

use crate::connection::{
    close_readonly, open_failure, open_readonly, ConnectionError, ConnectionErrorKind,
    ConnectionHandle, ConnectionMode, ConnectionTarget, FilesLimit,
};
use crate::engine::{
    copy_log, snapshot_tip, written, CheckpointSlot, Database, EngineModel, EngineV, SlotV,
};
use crate::tip::SelectedChainTip;

verus! {

/// Creating, reading or discarding a checkpoint copy failed.
#[derive(Clone, Copy, PartialEq, Eq, Structural, Debug)]
pub enum CheckpointError {
    /// The destination already exists; creation never merges into or
    /// overwrites a stale directory.
    DestinationExists,
    /// The Primary-readonly open of the source failed, for the contained
    /// reason.
    SourceUnreadable(ConnectionErrorKind),
    /// Deletion failed because handles over the copy are still open.
    CopyInUse,
}

/// An owned, created checkpoint copy: the token `create_checkpoint` hands
/// out and `discard_checkpoint` consumes.
#[derive(Debug)]
pub struct CheckpointCopy {
    pub slot: usize,
}

/// Where creating a checkpoint fails: first the Primary-readonly open of the
/// source, then the fail-fast check that the destination does not exist.
pub open spec fn checkpoint_failure(e: EngineV, dest: int, limit: FilesLimit) -> Option<
    CheckpointError,
> {
    match open_failure(e, ConnectionMode::PrimaryReadonly, limit) {
        Some(k) => Some(CheckpointError::SourceUnreadable(k)),
        None => if e.slots[dest].occupied {
            Some(CheckpointError::DestinationExists)
        } else {
            None
        },
    }
}

/// The engine state after a checkpoint of the source is materialized at
/// `dest`: the destination holds a causally consistent copy of the source's
/// records as of this single moment, and nothing else — the source above
/// all — changes.
pub open spec fn checkpointed(e: EngineV, dest: int) -> EngineV {
    EngineV {
        slots: e.slots.update(
            dest,
            SlotV {
                occupied: true,
                dir: crate::engine::DbV {
                    records: e.source.records,
                    files_needed: e.source.files_needed,
                    format_ok: true,
                },
                readers: 0,
            },
        ),
        ..e
    }
}

/// The engine state after a copy's directory is removed.
pub open spec fn discarded(e: EngineV, dest: int) -> EngineV {
    EngineV { slots: e.slots.update(dest, SlotV { occupied: false, ..e.slots[dest] }), ..e }
}

/// The engine state after one more reader opens the copy at `dest`.
pub open spec fn copy_opened(e: EngineV, dest: int) -> EngineV {
    EngineV {
        slots: e.slots.update(
            dest,
            SlotV { readers: (e.slots[dest].readers + 1) as u64, ..e.slots[dest] },
        ),
        ..e
    }
}

/// The engine state after a reader of the copy at `dest` is released.
pub open spec fn copy_released(e: EngineV, dest: int) -> EngineV {
    EngineV {
        slots: e.slots.update(
            dest,
            SlotV { readers: (e.slots[dest].readers - 1) as u64, ..e.slots[dest] },
        ),
        ..e
    }
}

/// Where opening a copy for reading fails: the copy was written by the
/// engine itself, so only a missing directory or a too-small files cap can
/// stop the open.
pub open spec fn copy_open_failure(e: EngineV, dest: int, limit: FilesLimit) -> Option<
    ConnectionErrorKind,
> {
    if !e.slots[dest].occupied {
        Some(ConnectionErrorKind::PathMissing)
    } else if !e.slots[dest].dir.format_ok {
        Some(ConnectionErrorKind::FormatMismatch)
    } else if !limit.admits(e.slots[dest].dir.files_needed) {
        Some(ConnectionErrorKind::ResourceExhausted)
    } else {
        None
    }
}

/// Create a checkpoint of the source at destination `dest`: open a
/// Primary-readonly handle on the source, have the engine copy the current
/// immutable files and a consistent manifest into the destination
/// atomically, and release the handle again on every exit path. The
/// destination must not already exist — creation fails fast rather than
/// touch a stale directory, and on any failure the engine state is exactly
/// what it was.
pub fn create_checkpoint(engine: &mut EngineModel, dest: usize, limit: FilesLimit) -> (out: Result<
    CheckpointCopy,
    CheckpointError,
>)
    requires
        dest < old(engine).slots.len(),
    ensures
        match checkpoint_failure(old(engine)@, dest as int, limit) {
            Some(err) => {
                &&& out == Err::<CheckpointCopy, CheckpointError>(err)
                &&& final(engine)@ == old(engine)@
            },
            None => {
                &&& out is Ok
                &&& out->Ok_0.slot == dest
                &&& final(engine)@ == checkpointed(old(engine)@, dest as int)
            },
        },
{
    let mut src: ConnectionHandle = match open_readonly(engine, limit) {
        Ok(h) => h,
        Err(e) => {
            return Err(CheckpointError::SourceUnreadable(e.kind));
        },
    };
    if engine.slots[dest].occupied {
        close_readonly(&mut src);
        return Err(CheckpointError::DestinationExists);
    }
    let dir = Database {
        log: copy_log(&engine.source.log),
        files_needed: engine.source.files_needed,
        format_ok: true,
    };
    engine.slots[dest] = CheckpointSlot { occupied: true, dir, readers: 0 };
    close_readonly(&mut src);
    proof {
        assert(engine@ =~~= checkpointed(old(engine)@, dest as int));
    }
    Ok(CheckpointCopy { slot: dest })
}

/// Open the copy for reading: a live connection over the destination
/// directory, in checkpoint mode, with its snapshot frozen over the whole
/// copy — which never grows, since the copy is immutable.
pub fn open_copy_for_read(engine: &mut EngineModel, copy: &CheckpointCopy, limit: FilesLimit)
    -> (out: Result<ConnectionHandle, ConnectionError>)
    requires
        copy.slot < old(engine).slots.len(),
        old(engine)@.slots[copy.slot as int].readers < u64::MAX,
    ensures
        match copy_open_failure(old(engine)@, copy.slot as int, limit) {
            Some(k) => {
                &&& out == Err::<ConnectionHandle, ConnectionError>(
                    ConnectionError { mode: ConnectionMode::Checkpoint, kind: k },
                )
                &&& final(engine)@ == old(engine)@
            },
            None => {
                &&& out is Ok
                &&& out->Ok_0 == (ConnectionHandle {
                    mode: ConnectionMode::Checkpoint,
                    limit,
                    target: ConnectionTarget::CheckpointDir(copy.slot),
                    snapshot_len: old(engine)@.slots[copy.slot as int].dir.records.len() as usize,
                    is_open: true,
                })
                &&& final(engine)@ == copy_opened(old(engine)@, copy.slot as int)
                &&& out->Ok_0.live_in(final(engine)@)
            },
        },
{
    let slot = &engine.slots[copy.slot];
    if !slot.occupied {
        return Err(
            ConnectionError { mode: ConnectionMode::Checkpoint, kind: ConnectionErrorKind::PathMissing },
        );
    }
    if !slot.dir.format_ok {
        return Err(
            ConnectionError {
                mode: ConnectionMode::Checkpoint,
                kind: ConnectionErrorKind::FormatMismatch,
            },
        );
    }
    if !limit.admits_files(slot.dir.files_needed) {
        return Err(
            ConnectionError {
                mode: ConnectionMode::Checkpoint,
                kind: ConnectionErrorKind::ResourceExhausted,
            },
        );
    }
    let snapshot_len = slot.dir.log.len();
    let reader = &mut engine.slots[copy.slot];
    reader.readers = reader.readers + 1;
    proof {
        assert(engine@ =~~= copy_opened(old(engine)@, copy.slot as int));
    }
    Ok(
        ConnectionHandle {
            mode: ConnectionMode::Checkpoint,
            limit,
            target: ConnectionTarget::CheckpointDir(copy.slot),
            snapshot_len,
            is_open: true,
        },
    )
}

/// Release a handle opened over a checkpoint copy, so that the copy can be
/// discarded.
pub fn release_copy_reader(engine: &mut EngineModel, h: &mut ConnectionHandle)
    requires
        old(h).live_in(old(engine)@),
        old(h).target is CheckpointDir,
    ensures
        *final(h) == (ConnectionHandle { is_open: false, ..*old(h) }),
        final(engine)@ == copy_released(old(engine)@, old(h).target->CheckpointDir_0 as int),
{
    let dest = match h.target {
        ConnectionTarget::CheckpointDir(i) => i,
        ConnectionTarget::Source => {
            proof {
                assert(false);
            }
            0
        },
    };
    let reader = &mut engine.slots[dest];
    reader.readers = reader.readers - 1;
    h.is_open = false;
    proof {
        assert(engine@ =~~= copy_released(old(engine)@, dest as int));
    }
}

/// Recursively remove the copy's directory: destructive and not reversible,
/// so it refuses to run while any handle over the copy is still open, and
/// then removes exactly this one destination. The token is consumed; the
/// destination can be used for a fresh checkpoint afterwards.
pub fn discard_checkpoint(engine: &mut EngineModel, copy: CheckpointCopy) -> (out: Result<
    (),
    CheckpointError,
>)
    requires
        copy.slot < old(engine).slots.len(),
        old(engine)@.slots[copy.slot as int].occupied,
    ensures
        old(engine)@.slots[copy.slot as int].readers > 0 ==> {
            &&& out == Err::<(), CheckpointError>(CheckpointError::CopyInUse)
            &&& final(engine)@ == old(engine)@
        },
        old(engine)@.slots[copy.slot as int].readers == 0 ==> {
            &&& out == Ok::<(), CheckpointError>(())
            &&& final(engine)@ == discarded(old(engine)@, copy.slot as int)
        },
{
    if engine.slots[copy.slot].readers > 0 {
        return Err(CheckpointError::CopyInUse);
    }
    let slot = &mut engine.slots[copy.slot];
    slot.occupied = false;
    proof {
        assert(engine@ =~~= discarded(old(engine)@, copy.slot as int));
    }
    Ok(())
}

/// Law (checkpoint round trip): a checkpoint made at one instant reads the
/// same tip as the live source at that instant; after a discard the
/// destination directory no longer exists, and creating a fresh checkpoint
/// at the same destination succeeds again.
pub proof fn lemma_checkpoint_round_trip(e: EngineV, dest: int, limit: FilesLimit)
    requires
        0 <= dest < e.slots.len(),
        checkpoint_failure(e, dest, limit) is None,
    ensures
        ({
            let e1 = checkpointed(e, dest);
            &&& snapshot_tip(
                e1.slots[dest].dir.records,
                e1.slots[dest].dir.records.len() as int,
            ) == snapshot_tip(e1.source.records, e1.source.records.len() as int)
            &&& !discarded(e1, dest).slots[dest].occupied
            &&& checkpoint_failure(discarded(e1, dest), dest, limit) is None
        }),
{
    let e1 = checkpointed(e, dest);
    assert(e1.slots[dest].dir.records == e.source.records);
    assert(e1.source == e.source);
}

/// Law (checkpoint independence): once created, a copy shares nothing with
/// the source — a handle over it reads exactly the same after any later
/// commit by the writer, and stays consistent.
pub proof fn lemma_checkpoint_unaffected_by_source_writes(
    e: EngineV,
    h: ConnectionHandle,
    t: SelectedChainTip,
)
    requires
        h.live_in(e),
        h.target is CheckpointDir,
    ensures
        h.live_in(written(e, t)),
        h.spec_read(written(e, t)) == h.spec_read(e),
{
}

} // verus!
