//! ConnectionFactory: opening a handle to the engine in one of the read
//! modes, and the handle's lifecycle. A handle's view is frozen at the moment
//! of opening — it is a prefix of the record log — and only a secondary
//! handle can pull that prefix forward.

use vstd::prelude::*;

use crate::engine::{EngineModel, EngineV, snapshot_tip};
use crate::errors::ReadError;
use crate::tip::SelectedChainTip;

verus! {

/// The mode a connection was requested in. `Checkpoint` is the mode of a
/// handle over a materialized checkpoint copy.
#[derive(Clone, Copy, PartialEq, Eq, Structural, Debug)]
pub enum ConnectionMode {
    PrimaryReadonly,
    Secondary,
    Checkpoint,
}

/// Why an open failed.
#[derive(Clone, Copy, PartialEq, Eq, Structural, Debug)]
pub enum ConnectionErrorKind {
    PathMissing,
    FormatMismatch,
    LockConflict,
    ResourceExhausted,
}

/// An open failure, naming the mode that was being attempted.
#[derive(Clone, Copy, PartialEq, Eq, Structural, Debug)]
pub struct ConnectionError {
    pub mode: ConnectionMode,
    pub kind: ConnectionErrorKind,
}

/// The cap on files the engine may keep open for one handle. The engine's
/// builder takes a signed count whose negative values all mean "no cap" —
/// the sentinel a secondary uses, since a replica may need to track more
/// files than a bounded reader.
#[derive(Clone, Copy, PartialEq, Eq, Structural, Debug)]
pub enum FilesLimit {
    NoCap,
    Cap(u64),
}

impl FilesLimit {
    /// Whether this cap admits an instance that needs `files_needed` files.
    pub open spec fn admits(self, files_needed: u64) -> bool {
        match self {
            FilesLimit::NoCap => true,
            FilesLimit::Cap(n) => files_needed <= n,
        }
    }

    /// Resolve the engine builder's signed count: any negative value is the
    /// no-cap sentinel.
    pub fn from_raw(raw: i64) -> (out: FilesLimit)
        ensures
            raw < 0 ==> out == FilesLimit::NoCap,
            raw >= 0 ==> out == FilesLimit::Cap(raw as u64),
    {
        if raw < 0 {
            FilesLimit::NoCap
        } else {
            FilesLimit::Cap(raw as u64)
        }
    }

    /// Decide `admits` executably.
    pub fn admits_files(&self, files_needed: u64) -> (out: bool)
        ensures
            out == self.admits(files_needed),
    {
        match self {
            FilesLimit::NoCap => true,
            FilesLimit::Cap(n) => files_needed <= *n,
        }
    }
}

/// What a handle's frozen view ranges over: the source instance, or one
/// checkpoint copy.
#[derive(Clone, Copy, PartialEq, Eq, Structural, Debug)]
pub enum ConnectionTarget {
    Source,
    CheckpointDir(usize),
}

/// An open reference to the engine. Plain data: the engine-side resources it
/// stands for are tracked in the `EngineModel`, and `live_in` ties the two
/// together.
#[derive(Clone, Copy, PartialEq, Eq, Structural, Debug)]
pub struct ConnectionHandle {
    pub mode: ConnectionMode,
    pub limit: FilesLimit,
    pub target: ConnectionTarget,
    /// How many records of the target's log this handle's frozen view
    /// covers.
    pub snapshot_len: usize,
    pub is_open: bool,
}

impl ConnectionHandle {
    /// The records of the directory this handle is a view over.
    pub open spec fn viewed_records(self, e: EngineV) -> Seq<Seq<u8>> {
        match self.target {
            ConnectionTarget::Source => e.source.records,
            ConnectionTarget::CheckpointDir(i) => e.slots[i as int].dir.records,
        }
    }

    /// The handle is open and consistent with the engine state: its target
    /// directory is there, its snapshot is a prefix of the target's log, and
    /// the engine-side resources it stands for are held.
    pub open spec fn live_in(self, e: EngineV) -> bool {
        &&& self.is_open
        &&& match self.target {
            ConnectionTarget::Source => {
                &&& e.source_exists
                &&& (self.mode is PrimaryReadonly || self.mode is Secondary)
                &&& (self.mode is Secondary ==> e.secondary_attached)
            },
            ConnectionTarget::CheckpointDir(i) => {
                &&& self.mode is Checkpoint
                &&& i < e.slots.len()
                &&& e.slots[i as int].occupied
                &&& e.slots[i as int].readers >= 1
            },
        }
        &&& self.snapshot_len <= self.viewed_records(e).len()
    }

    /// What a tip read through this handle returns.
    pub open spec fn spec_read(self, e: EngineV) -> Result<SelectedChainTip, ReadError> {
        snapshot_tip(self.viewed_records(e), self.snapshot_len as int)
    }
}

/// Where an open of a source connection fails, and with which kind, checked
/// in the order the engine reports them.
pub open spec fn open_failure(e: EngineV, mode: ConnectionMode, limit: FilesLimit) -> Option<
    ConnectionErrorKind,
> {
    if !e.source_exists {
        Some(ConnectionErrorKind::PathMissing)
    } else if !e.source.format_ok {
        Some(ConnectionErrorKind::FormatMismatch)
    } else if mode is Secondary && e.secondary_attached {
        Some(ConnectionErrorKind::LockConflict)
    } else if !limit.admits(e.source.files_needed) {
        Some(ConnectionErrorKind::ResourceExhausted)
    } else {
        None
    }
}

/// The handle a successful open of a source connection returns: its view is
/// frozen at the moment of opening, covering the whole log as of now.
pub open spec fn fresh_source_handle(e: EngineV, mode: ConnectionMode, limit: FilesLimit)
    -> ConnectionHandle {
    ConnectionHandle {
        mode,
        limit,
        target: ConnectionTarget::Source,
        snapshot_len: e.source.records.len() as usize,
        is_open: true,
    }
}

/// The engine state after a secondary takes ownership of the replica
/// directory.
pub open spec fn attached(e: EngineV) -> EngineV {
    EngineV { secondary_attached: true, ..e }
}

/// The engine state after a secondary gives the replica directory back.
pub open spec fn detached(e: EngineV) -> EngineV {
    EngineV { secondary_attached: false, ..e }
}

/// Open a Primary-readonly connection: no writer lock is taken, nothing on
/// disk changes (the engine state is not even mutable here, so a missing
/// path cannot be created), and the returned handle observes a snapshot
/// frozen at this moment for its entire lifetime.
pub fn open_readonly(engine: &EngineModel, limit: FilesLimit) -> (out: Result<
    ConnectionHandle,
    ConnectionError,
>)
    ensures
        match open_failure(engine@, ConnectionMode::PrimaryReadonly, limit) {
            Some(k) => out == Err::<ConnectionHandle, ConnectionError>(
                ConnectionError { mode: ConnectionMode::PrimaryReadonly, kind: k },
            ),
            None => {
                &&& out == Ok::<ConnectionHandle, ConnectionError>(
                    fresh_source_handle(engine@, ConnectionMode::PrimaryReadonly, limit),
                )
                &&& out->Ok_0.live_in(engine@)
            },
        },
{
    if !engine.source_exists {
        return Err(
            ConnectionError {
                mode: ConnectionMode::PrimaryReadonly,
                kind: ConnectionErrorKind::PathMissing,
            },
        );
    }
    if !engine.source.format_ok {
        return Err(
            ConnectionError {
                mode: ConnectionMode::PrimaryReadonly,
                kind: ConnectionErrorKind::FormatMismatch,
            },
        );
    }
    if !limit.admits_files(engine.source.files_needed) {
        return Err(
            ConnectionError {
                mode: ConnectionMode::PrimaryReadonly,
                kind: ConnectionErrorKind::ResourceExhausted,
            },
        );
    }
    Ok(
        ConnectionHandle {
            mode: ConnectionMode::PrimaryReadonly,
            limit,
            target: ConnectionTarget::Source,
            snapshot_len: engine.source.log.len(),
            is_open: true,
        },
    )
}

/// Open a Secondary connection: the engine-managed replica directory starts
/// tracking the primary's log, owned exclusively by this handle until it is
/// detached. Its initial view is point-in-time, like a readonly open.
pub fn open_secondary(engine: &mut EngineModel, limit: FilesLimit) -> (out: Result<
    ConnectionHandle,
    ConnectionError,
>)
    ensures
        match open_failure(old(engine)@, ConnectionMode::Secondary, limit) {
            Some(k) => {
                &&& out == Err::<ConnectionHandle, ConnectionError>(
                    ConnectionError { mode: ConnectionMode::Secondary, kind: k },
                )
                &&& final(engine)@ == old(engine)@
            },
            None => {
                &&& out == Ok::<ConnectionHandle, ConnectionError>(
                    fresh_source_handle(old(engine)@, ConnectionMode::Secondary, limit),
                )
                &&& final(engine)@ == attached(old(engine)@)
                &&& out->Ok_0.live_in(final(engine)@)
            },
        },
{
    if !engine.source_exists {
        return Err(
            ConnectionError { mode: ConnectionMode::Secondary, kind: ConnectionErrorKind::PathMissing },
        );
    }
    if !engine.source.format_ok {
        return Err(
            ConnectionError {
                mode: ConnectionMode::Secondary,
                kind: ConnectionErrorKind::FormatMismatch,
            },
        );
    }
    if engine.secondary_attached {
        return Err(
            ConnectionError { mode: ConnectionMode::Secondary, kind: ConnectionErrorKind::LockConflict },
        );
    }
    if !limit.admits_files(engine.source.files_needed) {
        return Err(
            ConnectionError {
                mode: ConnectionMode::Secondary,
                kind: ConnectionErrorKind::ResourceExhausted,
            },
        );
    }
    engine.secondary_attached = true;
    proof {
        assert(engine@ =~~= attached(old(engine)@));
    }
    Ok(
        ConnectionHandle {
            mode: ConnectionMode::Secondary,
            limit,
            target: ConnectionTarget::Source,
            snapshot_len: engine.source.log.len(),
            is_open: true,
        },
    )
}

/// Release a Primary-readonly handle. The engine state is untouched: closing
/// a readonly reader disturbs neither the writer nor any other reader.
pub fn close_readonly(h: &mut ConnectionHandle)
    requires
        old(h).mode is PrimaryReadonly,
    ensures
        *final(h) == (ConnectionHandle { is_open: false, ..*old(h) }),
{
    h.is_open = false;
}

/// Release a Secondary handle and give the replica directory back to the
/// engine.
pub fn detach_secondary(engine: &mut EngineModel, h: &mut ConnectionHandle)
    requires
        old(h).mode is Secondary,
    ensures
        *final(h) == (ConnectionHandle { is_open: false, ..*old(h) }),
        final(engine)@ == detached(old(engine)@),
{
    engine.secondary_attached = false;
    h.is_open = false;
    proof {
        assert(engine@ =~~= detached(old(engine)@));
    }
}

/// The outcome a catch-up call reports.
#[derive(Clone, Copy, PartialEq, Eq, Structural, Debug)]
pub enum CatchUpOutcome {
    Advanced,
    NoNewData,
}

/// The handle after a catch-up against engine state `e`: with a flushing
/// primary the snapshot is pulled forward to the whole log as of the call;
/// otherwise replication makes no progress and the handle is unchanged.
pub open spec fn caught_up(h: ConnectionHandle, e: EngineV) -> ConnectionHandle {
    if e.primary_flushing {
        ConnectionHandle { snapshot_len: e.source.records.len() as usize, ..h }
    } else {
        h
    }
}

/// Re-apply the primary's log tail up to the moment of the call, on a
/// Secondary handle. When no new records were flushed since the snapshot,
/// this is a no-op: no error, no change, reported as `NoNewData`. The same
/// report with a non-flushing primary is the silent misconfiguration that
/// `classify_catch_up` exists to surface.
pub fn catch_up(engine: &EngineModel, h: &mut ConnectionHandle) -> (out: CatchUpOutcome)
    requires
        old(h).live_in(engine@),
        old(h).mode is Secondary,
    ensures
        *final(h) == caught_up(*old(h), engine@),
        final(h).live_in(engine@),
        out == (if final(h).snapshot_len > old(h).snapshot_len {
            CatchUpOutcome::Advanced
        } else {
            CatchUpOutcome::NoNewData
        }),
{
    if engine.primary_flushing {
        let new_len = engine.source.log.len();
        let advanced = new_len > h.snapshot_len;
        h.snapshot_len = new_len;
        proof {
            assert(*h =~~= caught_up(*old(h), engine@));
        }
        if advanced {
            CatchUpOutcome::Advanced
        } else {
            CatchUpOutcome::NoNewData
        }
    } else {
        proof {
            assert(*h =~~= caught_up(*old(h), engine@));
        }
        CatchUpOutcome::NoNewData
    }
}

} // verus!
