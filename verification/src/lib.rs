//! An access layer for opening read connections, in several modes, to a single
//! embedded log-structured key-value database that another process is writing.
//!
//! The library is a verified model of the connection-mode semantics: how a
//! reader obtains a consistent view of data it does not own, how that view's
//! freshness is frozen, refreshed by reconnecting, or pulled forward by an
//! explicit catch-up, and how an isolated point-in-time checkpoint copy is
//! produced and later discarded. The engine's own disk and process work (opens,
//! log reads, directory copies) happens outside the library; every decision
//! about modes, freshness, errors and resource release is made here, over plain
//! values, and proved.

pub mod checkpoint;
pub mod connection;
pub mod engine;
pub mod errors;
pub mod freshness;
pub mod path;
pub mod storage;
pub mod tip;
