use vstd::prelude::*;

verus! {

/// Why a call was refused. Every guard is checked before any mutation, so a
/// call that returns an error leaves the state exactly as it was.
#[derive(Clone, Copy, Debug, PartialEq, Eq, Structural)]
pub enum GovError {
    /// The caller lacks the required role, membership or voting power.
    Unauthorized,
    /// The referenced record index does not exist.
    NotFound,
    /// The operation is not permitted in the record's current state.
    InvalidState,
    /// The time gate has already passed: the call came too late.
    WindowClosed,
    /// The time gate has not been reached yet: the call came too early.
    WindowOpen,
    /// A non-positive amount or a past-dated deadline.
    InvalidArgument,
}

} // verus!
