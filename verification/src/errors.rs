//! Error taxonomy of the registry.
//!
//! Every expected failure is an ordinary return value: the store and the
//! service never panic on a condition a caller can provoke. Lock contention
//! (a transient `Busy`) and backend unreachability are conditions of a
//! concurrent or persistent backing and are surfaced by the embedding
//! process, not by this in-memory core.

use vstd::prelude::*;

verus! {

/// Failures of the store itself.
#[derive(Clone, Copy, Debug, PartialEq, Eq, Structural)]
pub enum StoreError {
    /// The identifier of the game to insert is already present.
    Conflict,
    /// No game with the given identifier is present.
    NotFound,
}

/// Failures of a join request.
#[derive(Clone, Copy, Debug, PartialEq, Eq, Structural)]
pub enum JoinError {
    /// The player payload fails boundary validation: its identifier is empty.
    InvalidPlayer,
    /// No game with the given identifier is present.
    NotFound,
    /// The joining player's identifier is already on the roster.
    DuplicatePlayer,
}

/// Failures of a create request.
#[derive(Clone, Copy, Debug, PartialEq, Eq, Structural)]
pub enum CreateError {
    /// The creator payload fails boundary validation: its identifier is empty.
    InvalidPlayer,
    /// The store could not accept any freshly generated identifier.
    Unavailable,
}

} // verus!
