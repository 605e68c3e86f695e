//! The failure kinds of an ingestion run.

use vstd::prelude::*;

verus! {

/// Why a run stopped. No failure is retried or recovered from: each one ends the run.
#[derive(Debug, Clone, Copy, PartialEq, Eq, Structural)]
pub enum Error {
    /// A date of an advisory does not match the format it is expected in.
    MalformedTimestamp,
    /// A request for one of the two feeds failed on the network.
    TransportFailure,
    /// The archive cache could not be read or written.
    CacheIoFailure,
    /// Cached archive bytes could not be decompressed or decoded.
    DecodeFailure,
    /// An operation of the relational store failed.
    StoreFailure,
}

} // verus!
