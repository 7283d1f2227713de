use vstd::prelude::*;

verus! {

/// A call into the container runtime failed (refused, timed out, not found,
/// or answered with something unreadable); the cause is not told apart.
#[derive(Clone, Copy, Debug, PartialEq, Eq, Structural)]
pub struct RuntimeError;

/// Why a scrape produced no health observations.
#[derive(Clone, Copy, Debug, PartialEq, Eq, Structural)]
pub enum CollectError {
    /// The runtime could not be reached to enumerate containers.
    ConnectionFailure,
    /// A container had no id, or its inspection had no state block.
    MalformedRecord,
    /// Inspecting a well-formed container failed.
    OperationFailure,
}

} // verus!
