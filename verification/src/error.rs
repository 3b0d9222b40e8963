//! The ways in which tracing a call, or writing and reading a batch, can fail.

use vstd::prelude::*;

verus! {

/// Why an operation of the library failed. A failure to record a call
/// concerns that one call only: the caller skips it and tracing goes on.
#[derive(Clone, Copy, Debug, PartialEq, Eq, Structural)]
pub enum TraceError {
    /// The call's name is empty.
    EmptyName,
    /// The snapshot holds fewer entries than the arity metadata announces.
    SnapshotTooShort { needed: u64, found: u64 },
    /// The store has emitted its batch and takes no further records.
    StoreDrained,
    /// The writer of the batch reported that it could not write it.
    Serialization,
    /// The text is not JSON.
    Syntax,
    /// The document is JSON, but not a batch of trace records.
    Malformed,
}

} // verus!
