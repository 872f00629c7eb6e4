//! The error taxonomy of the broadcasting core.

use vstd::prelude::*;

verus! {

/// Fatal at startup, and only there: the dataset handed to the actor was
/// unusable. The actor must never enter its running state with an invalid
/// dataset, so construction aborts with this error instead.
#[derive(Clone, Copy, PartialEq, Eq, Structural, Debug)]
pub enum DatasetLoadError {
    /// The loader produced `actual` records where `expected` were required.
    WrongCount { expected: usize, actual: usize },
    /// The external source could not be read at all.
    ReadFailure,
    /// The external source could not be parsed into records.
    Malformed,
}

/// The actor's mailbox is closed: the core has shut down. A caller that sees
/// this should stop issuing requests; the condition is terminal, never
/// retried away.
#[derive(Clone, Copy, PartialEq, Eq, Structural, Debug)]
pub struct GatewayUnavailable;

} // verus!
