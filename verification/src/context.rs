//! Value types describing the environment of an executing call frame.

use vstd::prelude::*;

use primitive_types::{H160, H256, U256};

verus! {

/// Address-derivation strategy for a newly created contract. It only
/// records how the new address is to be computed; the computation itself
/// is the host's responsibility.
#[derive(Clone, Copy, Debug, Eq, PartialEq)]
pub enum CreateScheme {
    /// Legacy create scheme of `CREATE`: the address derives from the
    /// creator's address and nonce.
    Legacy {
        /// Caller of the create.
        caller: H160,
    },
    /// Create scheme of `CREATE2`: the address derives from the caller,
    /// the hash of the init code, and a salt.
    Create2 {
        /// Caller of the create.
        caller: H160,
        /// Hash of the init code.
        code_hash: H256,
        /// Salt.
        salt: H256,
    },
    /// A fixed, explicitly given address, used for genesis-style or
    /// precompile injection.
    Fixed(H160),
}

/// Per-frame environment snapshot, immutable for the lifetime of the
/// frame; a fresh one is constructed per call or create invocation and
/// owned by the nested frame.
#[derive(Clone, Debug)]
pub struct Context {
    /// Address that owns the executing code.
    pub address: H160,
    /// Caller of the frame.
    pub caller: H160,
    /// Apparent value passed along with the call; for a delegated call it
    /// may differ from the value actually transferred.
    pub apparent_value: U256,
}

} // verus!
