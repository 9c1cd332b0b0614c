//! StorageView: a read-only typed projection over a connection handle. It
//! shares no mutable state with other views, never writes, and reads exactly
//! what the handle's frozen snapshot covers.

use vstd::prelude::*;

use crate::connection::{ConnectionHandle, ConnectionTarget};
use crate::engine::{Database, EngineModel, EngineV};
use crate::errors::ReadError;
use crate::tip::{decode_tip, SelectedChainTip};

verus! {

/// Network and consensus parameters needed to interpret raw records: the
/// configuration a view carries beside its handle.
#[derive(Clone, Copy, PartialEq, Eq, Structural, Debug)]
pub struct ViewConfig {
    pub network_id: u64,
}

/// A read-only projection over one handle. Copies of it may coexist over the
/// same handle; none may write.
#[derive(Clone, Copy)]
pub struct StorageView {
    pub handle: ConnectionHandle,
    pub config: ViewConfig,
}

impl StorageView {
    /// Wrap a handle and the configuration used to interpret its records.
    pub fn new(handle: ConnectionHandle, config: ViewConfig) -> (out: StorageView)
        ensures
            out.handle == handle,
            out.config == config,
    {
        StorageView { handle, config }
    }

    /// Read the current tip pointer of the selected chain, through the
    /// handle's frozen snapshot. Purely a read: the engine state is shared
    /// immutably. `NotFound` is the legitimate empty-database state;
    /// `MalformedRecord` is a record the configuration cannot interpret.
    pub fn read_tip(&self, engine: &EngineModel) -> (out: Result<SelectedChainTip, ReadError>)
        requires
            self.handle.live_in(engine@),
        ensures
            out == self.handle.spec_read(engine@),
    {
        let db: &Database = match self.handle.target {
            ConnectionTarget::Source => &engine.source,
            ConnectionTarget::CheckpointDir(i) => &engine.slots[i].dir,
        };
        proof {
            assert(db@.records == self.handle.viewed_records(engine@));
        }
        if self.handle.snapshot_len == 0 {
            return Err(ReadError::NotFound);
        }
        let idx = self.handle.snapshot_len - 1;
        match decode_tip(&db.log[idx]) {
            Some(t) => Ok(t),
            None => Err(ReadError::MalformedRecord),
        }
    }
}

} // verus!
