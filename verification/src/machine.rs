//! The collaborator frame state the `Handler` contract is shown.
//!
//! The instruction-dispatch loop itself — its stack and memory arithmetic
//! — is outside this crate; the `Handler` contract only needs to be able
//! to look at a frame's operand stack and code buffer.

use vstd::prelude::*;

use primitive_types::H256;

verus! {

/// Operand stack of one call frame, as the `Handler` contract sees it.
#[derive(Clone, Debug)]
pub struct Stack {
    /// Stack items, the last element being the top of the stack.
    pub data: Vec<H256>,
    /// Maximum number of items the stack may ever hold.
    pub limit: usize,
}

/// One call frame of the dispatch loop, as far as the `Handler` contract
/// needs to see it.
#[derive(Clone, Debug)]
pub struct Machine {
    /// Code buffer the frame executes.
    pub code: Vec<u8>,
    /// Program counter into the code buffer.
    pub position: usize,
    /// Operand stack of the frame.
    pub stack: Stack,
}

} // verus!
