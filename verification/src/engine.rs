//! The model of the embedded KV engine's on-disk world at one resolved
//! database path: the source instance the writer owns, the replica the engine
//! manages for a secondary connection, and the checkpoint destinations.
//!
//! The engine itself is an external collaborator; what the layer depends on is
//! only what is modeled here: an append-only log of atomically visible
//! records, point-in-time snapshots over prefixes of it, and independent
//! directory copies.

use vstd::prelude::*;

use crate::errors::ReadError;
use crate::tip::{encode_tip, tip_of_record, tip_record, SelectedChainTip};

verus! {

/// One on-disk instance of the embedded engine.
pub struct Database {
    /// Raw records in commit order; the selected-chain tip is the last one.
    /// Each record becomes visible atomically, so a snapshot is always a
    /// whole prefix of this log.
    pub log: Vec<Vec<u8>>,
    /// How many files the engine must keep open to serve a connection to
    /// this instance.
    pub files_needed: u64,
    /// Whether the directory holds a valid instance of the engine's on-disk
    /// format.
    pub format_ok: bool,
}

/// The mathematical content of a `Database`.
#[verifier::ext_equal]
pub ghost struct DbV {
    pub records: Seq<Seq<u8>>,
    pub files_needed: u64,
    pub format_ok: bool,
}

/// The byte sequences held by a sequence of raw-record vectors.
pub open spec fn rec_seq(s: Seq<Vec<u8>>) -> Seq<Seq<u8>> {
    Seq::new(s.len(), |i: int| s[i]@)
}

impl View for Database {
    type V = DbV;

    open spec fn view(&self) -> DbV {
        DbV { records: rec_seq(self.log@), files_needed: self.files_needed, format_ok: self.format_ok }
    }
}

/// One checkpoint destination directory. `dir` is meaningful only while
/// `occupied` holds; `readers` counts the open handles over the copy.
pub struct CheckpointSlot {
    pub occupied: bool,
    pub dir: Database,
    pub readers: u64,
}

#[verifier::ext_equal]
pub ghost struct SlotV {
    pub occupied: bool,
    pub dir: DbV,
    pub readers: u64,
}

impl View for CheckpointSlot {
    type V = SlotV;

    open spec fn view(&self) -> SlotV {
        SlotV { occupied: self.occupied, dir: self.dir@, readers: self.readers }
    }
}

/// Everything at and around one resolved database path. `source` is
/// meaningful only while `source_exists` holds (a missing path is a missing
/// directory, and opening one never creates it).
pub struct EngineModel {
    pub source_exists: bool,
    pub source: Database,
    /// Whether the writer process is flushing its log; a secondary can only
    /// pull forward what the primary has flushed.
    pub primary_flushing: bool,
    /// Whether a secondary connection currently owns the engine-managed
    /// replica directory.
    pub secondary_attached: bool,
    /// Checkpoint destination directories, one per candidate path.
    pub slots: Vec<CheckpointSlot>,
}

#[verifier::ext_equal]
pub ghost struct EngineV {
    pub source_exists: bool,
    pub source: DbV,
    pub primary_flushing: bool,
    pub secondary_attached: bool,
    pub slots: Seq<SlotV>,
}

/// The slot views of a slot vector.
pub open spec fn slot_seq(s: Seq<CheckpointSlot>) -> Seq<SlotV> {
    Seq::new(s.len(), |i: int| s[i]@)
}

impl View for EngineModel {
    type V = EngineV;

    open spec fn view(&self) -> EngineV {
        EngineV {
            source_exists: self.source_exists,
            source: self.source@,
            primary_flushing: self.primary_flushing,
            secondary_attached: self.secondary_attached,
            slots: slot_seq(self.slots@),
        }
    }
}

/// What a snapshot covering the first `n` records yields for a tip read: the
/// last record it covers, decoded. An empty snapshot has no tip; a record
/// that does not decode is malformed, kept distinct from absence.
pub open spec fn snapshot_tip(records: Seq<Seq<u8>>, n: int) -> Result<SelectedChainTip, ReadError> {
    if n <= 0 {
        Err(ReadError::NotFound)
    } else {
        match tip_of_record(records[n - 1]) {
            Some(t) => Ok(t),
            None => Err(ReadError::MalformedRecord),
        }
    }
}

/// The engine state after the writer commits and flushes a tip `t`.
pub open spec fn written(e: EngineV, t: SelectedChainTip) -> EngineV {
    EngineV {
        source: DbV { records: e.source.records.push(tip_record(t)), ..e.source },
        ..e
    }
}

/// The writer process commits and flushes one more tip record. This is the
/// external mutation the access layer observes but never performs; it only
/// appends, so every snapshot taken earlier still ranges over an unchanged
/// prefix.
pub fn external_write(engine: &mut EngineModel, t: SelectedChainTip)
    requires
        old(engine).source_exists,
    ensures
        final(engine)@ == written(old(engine)@, t),
{
    let rec = encode_tip(t);
    engine.source.log.push(rec);
    proof {
        assert(engine@.source.records =~= old(engine)@.source.records.push(tip_record(t)));
        assert(engine@ =~~= written(old(engine)@, t));
    }
}

/// A byte-for-byte copy of one raw record.
fn copy_record(r: &Vec<u8>) -> (out: Vec<u8>)
    ensures
        out@ == r@,
{
    let mut out: Vec<u8> = Vec::new();
    let mut i: usize = 0;
    while i < r.len()
        invariant
            i <= r.len(),
            out@ == r@.subrange(0, i as int),
        decreases r.len() - i,
    {
        out.push(r[i]);
        proof {
            assert(out@ =~= r@.subrange(0, i + 1 as int));
        }
        i = i + 1;
    }
    proof {
        assert(out@ =~= r@);
    }
    out
}

/// A record-for-record copy of a whole log, as the engine's checkpoint
/// facility materializes it.
pub fn copy_log(log: &Vec<Vec<u8>>) -> (out: Vec<Vec<u8>>)
    ensures
        rec_seq(out@) == rec_seq(log@),
{
    let mut out: Vec<Vec<u8>> = Vec::new();
    let mut i: usize = 0;
    while i < log.len()
        invariant
            i <= log.len(),
            out@.len() == i,
            forall|j: int| 0 <= j < i ==> out@[j]@ == log@[j]@,
        decreases log.len() - i,
    {
        out.push(copy_record(&log[i]));
        i = i + 1;
    }
    proof {
        assert(rec_seq(out@) =~= rec_seq(log@));
    }
    out
}

} // verus!
