//! The suspend/resume result wrapper.

use vstd::prelude::*;

verus! {

/// Outcome of an operation that may need to be resumed by an external
/// actor: either the operation fully resolved with an `E`, or it
/// suspended and carries a `T` as the resumption token. Once a `Trap` is
/// observed, the frame that produced it must not be advanced further
/// until the corresponding feedback call is delivered.
#[derive(Clone, Copy, Debug, Eq, PartialEq)]
pub enum Capture<E, T> {
    /// The operation fully finished with this value; no further host
    /// interaction is needed.
    Exit(E),
    /// The operation suspended; the token must be resolved by the
    /// orchestrator and its result fed back.
    Trap(T),
}

} // verus!
