//! The exit-reason taxonomy reported by every unit of execution.

use vstd::prelude::*;

use crate::opcode::Opcode;

verus! {

/// Exit reason of a frame, by increasing severity: normal success, an
/// explicit revert, an execution fault local to the frame, or a fatal
/// host failure that must unwind every enclosing frame.
#[derive(Clone, Copy, Debug, Eq, PartialEq, Structural)]
pub enum ExitReason {
    /// Normal termination; no rollback.
    Succeed(ExitSucceed),
    /// Execution fault local to the current frame: its state changes are
    /// discarded and all remaining gas is consumed, but enclosing frames
    /// continue once they process the failure.
    Error(ExitError),
    /// Explicit, caller-intentional abort: reverts the current frame's
    /// state changes, returns the caller-supplied data, and does not
    /// necessarily consume all gas.
    Revert(ExitRevert),
    /// Unrecoverable host or environment failure; must propagate through
    /// every enclosing frame, terminating the entire call tree.
    Fatal(ExitFatal),
}

/// The ways a frame terminates normally.
#[derive(Clone, Copy, Debug, Eq, PartialEq, Structural)]
pub enum ExitSucceed {
    /// Machine encountered an explicit stop.
    Stopped,
    /// Machine encountered an explicit return, carrying output bytes.
    Returned,
    /// Machine encountered an explicit self-destruct.
    Suicided,
}

/// The ways a frame reverts.
#[derive(Clone, Copy, Debug, Eq, PartialEq, Structural)]
pub enum ExitRevert {
    /// Machine encountered an explicit revert.
    Reverted,
}

/// Execution faults local to the current frame.
#[derive(Clone, Copy, Debug, Eq, PartialEq, Structural)]
pub enum ExitError {
    /// Trying to pop from an empty stack.
    StackUnderflow,
    /// Trying to push past the stack limit.
    StackOverflow,
    /// Jump destination is invalid.
    InvalidJump,
    /// An opcode accesses memory region, but the region is invalid.
    InvalidRange,
    /// Encountered the designated invalid opcode.
    DesignatedInvalid,
    /// Call stack is too deep.
    CallTooDeep,
    /// The created contract address collides with an existing account.
    CreateCollision,
    /// The created contract exceeds the code size limit.
    CreateContractLimit,
    /// An opcode the dispatcher does not recognize, carrying the byte.
    InvalidCode(Opcode),
    /// An opcode accesses data outside the valid offset range.
    OutOfOffset,
    /// Execution ran out of gas.
    OutOfGas,
    /// Not enough funds to carry out the requested transfer.
    OutOfFund,
    /// A mutating opcode was attempted inside a static call.
    StaticModeViolation,
}

/// Unrecoverable host or environment failures, not attributable to the
/// executing code.
#[derive(Clone, Copy, Debug, Eq, PartialEq, Structural)]
pub enum ExitFatal {
    /// The operation is not supported by the host.
    NotSupported,
    /// A trap (interrupt) was left unhandled by the orchestrator.
    UnhandledInterrupt,
    /// The environment reported a frame-level error in a context where it
    /// cannot be recovered from, escalating it to fatal.
    CallErrorAsFatal(ExitError),
}

impl core::convert::From<ExitSucceed> for ExitReason {
    fn from(s: ExitSucceed) -> Self {
        ExitReason::Succeed(s)
    }
}

impl vstd::std_specs::convert::FromSpecImpl<ExitSucceed> for ExitReason {
    open spec fn obeys_from_spec() -> bool {
        true
    }

    open spec fn from_spec(s: ExitSucceed) -> ExitReason {
        ExitReason::Succeed(s)
    }
}

impl core::convert::From<ExitError> for ExitReason {
    fn from(e: ExitError) -> Self {
        ExitReason::Error(e)
    }
}

impl vstd::std_specs::convert::FromSpecImpl<ExitError> for ExitReason {
    open spec fn obeys_from_spec() -> bool {
        true
    }

    open spec fn from_spec(e: ExitError) -> ExitReason {
        ExitReason::Error(e)
    }
}

impl core::convert::From<ExitRevert> for ExitReason {
    fn from(r: ExitRevert) -> Self {
        ExitReason::Revert(r)
    }
}

impl vstd::std_specs::convert::FromSpecImpl<ExitRevert> for ExitReason {
    open spec fn obeys_from_spec() -> bool {
        true
    }

    open spec fn from_spec(r: ExitRevert) -> ExitReason {
        ExitReason::Revert(r)
    }
}

impl core::convert::From<ExitFatal> for ExitReason {
    fn from(f: ExitFatal) -> Self {
        ExitReason::Fatal(f)
    }
}

impl vstd::std_specs::convert::FromSpecImpl<ExitFatal> for ExitReason {
    open spec fn obeys_from_spec() -> bool {
        true
    }

    open spec fn from_spec(f: ExitFatal) -> ExitReason {
        ExitReason::Fatal(f)
    }
}

/// A failure can never silently become success: converting any value of
/// the error, revert or fatal family into `ExitReason` lands it in the
/// corresponding non-`Succeed` arm.
pub proof fn lemma_failure_never_succeeds(e: ExitError, r: ExitRevert, f: ExitFatal)
    ensures
        <ExitReason as vstd::std_specs::convert::FromSpec<ExitError>>::from_spec(e)
            == ExitReason::Error(e),
        <ExitReason as vstd::std_specs::convert::FromSpec<ExitRevert>>::from_spec(r)
            == ExitReason::Revert(r),
        <ExitReason as vstd::std_specs::convert::FromSpec<ExitFatal>>::from_spec(f)
            == ExitReason::Fatal(f),
{
}

} // verus!
