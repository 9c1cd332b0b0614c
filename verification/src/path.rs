//! Resolving the one database path a reader works against. The writer may
//! rotate between several on-disk instance directories; a small metadata
//! store names the active one. The layout is
//! `<app-dir>/<network-prefix>/datadir/{meta, consensus/<instance-name>}`,
//! resolved once and treated as immutable input thereafter.

use vstd::prelude::*;
use vstd::string::StringExecFns;

use crate::errors::PathResolutionError;

verus! {

/// A filesystem location identifying one logical database instance, as its
/// path segments. Immutable once resolved.
pub struct DatabasePath {
    pub segments: Vec<String>,
}

impl View for DatabasePath {
    type V = Seq<Seq<char>>;

    open spec fn view(&self) -> Seq<Seq<char>> {
        Seq::new(self.segments@.len(), |i: int| self.segments@[i]@)
    }
}

impl DatabasePath {
    /// A path of one segment.
    pub fn root(name: String) -> (out: DatabasePath)
        ensures
            out@ == seq![name@],
    {
        let mut segments: Vec<String> = Vec::new();
        segments.push(name);
        let out = DatabasePath { segments };
        proof {
            assert(out@ =~= seq![name@]);
        }
        out
    }

    /// The path one segment below this one.
    pub fn child(self, name: String) -> (out: DatabasePath)
        ensures
            out@ == self@.push(name@),
    {
        let mut segments = self.segments;
        segments.push(name);
        let out = DatabasePath { segments };
        proof {
            assert(out@ =~= self@.push(name@));
        }
        out
    }

    /// The same location again, for building several paths below one base.
    pub fn duplicate(&self) -> (out: DatabasePath)
        ensures
            out@ == self@,
    {
        let mut segments: Vec<String> = Vec::new();
        let mut i: usize = 0;
        while i < self.segments.len()
            invariant
                i <= self.segments.len(),
                segments@.len() == i,
                forall|j: int| 0 <= j < i ==> segments@[j] == self.segments@[j],
            decreases self.segments.len() - i,
        {
            segments.push(self.segments[i].clone());
            i = i + 1;
        }
        let out = DatabasePath { segments };
        proof {
            assert(out@ =~= self@);
        }
        out
    }
}

/// The data directory of one network: `<app-dir>/<network-prefix>/datadir`.
pub fn data_dir(app_dir: DatabasePath, network_prefix: String) -> (out: DatabasePath)
    ensures
        out@ == app_dir@.push(network_prefix@).push("datadir"@),
{
    app_dir.child(network_prefix).child(String::from_str("datadir"))
}

/// The metadata store's directory under a data directory.
pub fn meta_dir(db_dir: &DatabasePath) -> (out: DatabasePath)
    ensures
        out@ == db_dir@.push("meta"@),
{
    db_dir.duplicate().child(String::from_str("meta"))
}

/// The metadata side-store: the well-known record naming the consensus
/// instance directory the writer is currently using, read once through a
/// bounded-resource Primary-readonly connection and passed in as a plain
/// value.
pub struct MetaStore {
    pub active_instance: Option<String>,
}

/// Resolve the active consensus directory under a data directory from what
/// the metadata store holds. When the store does not name an active
/// instance, the path cannot be determined and the error says so — nothing
/// is guessed.
pub fn resolve_active_consensus_dir(db_dir: &DatabasePath, meta: MetaStore) -> (out: Result<
    DatabasePath,
    PathResolutionError,
>)
    ensures
        match meta.active_instance {
            Some(name) => {
                &&& out is Ok
                &&& out->Ok_0@ == db_dir@.push("consensus"@).push(name@)
            },
            None => out == Err::<DatabasePath, PathResolutionError>(
                PathResolutionError::ActiveInstanceUnknown,
            ),
        },
{
    match meta.active_instance {
        Some(name) => Ok(db_dir.duplicate().child(String::from_str("consensus")).child(name)),
        None => Err(PathResolutionError::ActiveInstanceUnknown),
    }
}

} // verus!
