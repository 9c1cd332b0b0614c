//! The error taxonomy of the access layer. Every failure is terminal at the
//! failing operation: the layer retries nothing on its own.

use vstd::prelude::*;

verus! {

/// The active instance directory could not be determined from the metadata
/// store.
#[derive(Clone, Copy, PartialEq, Eq, Structural, Debug)]
pub enum PathResolutionError {
    ActiveInstanceUnknown,
}

/// A read through an open view. A missing key is a legitimate state of a
/// fresh database and is kept distinct from a record that cannot be
/// interpreted.
#[derive(Clone, Copy, PartialEq, Eq, Structural, Debug)]
pub enum ReadError {
    NotFound,
    MalformedRecord,
}

/// Secondary replication reported success but pulled in nothing although the
/// writer was known to have committed new records: the misconfiguration the
/// layer must surface rather than ignore.
#[derive(Clone, Copy, PartialEq, Eq, Structural, Debug)]
pub enum CatchUpError {
    NoProgress,
}

} // verus!
