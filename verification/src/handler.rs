//! The capability surface through which the dispatch loop reads and
//! mutates world state and delegates nested calls and creations.

use vstd::prelude::*;
use vstd::std_specs::convert::FromSpec;

use primitive_types::{H160, H256, U256};

use crate::capture::Capture;
use crate::context::{Context, CreateScheme};
use crate::error::{ExitError, ExitFatal, ExitReason};
use crate::machine::{Machine, Stack};
use crate::opcode::Opcode;

verus! {

/// Transfer of value from a source to a target address, accompanying a
/// call; immutable once constructed.
#[derive(Clone, Debug)]
pub struct Transfer {
    /// Source address.
    pub source: H160,
    /// Target address.
    pub target: H160,
    /// Transfer value.
    pub value: U256,
}

/// EVM context handler: the single interface boundary between the
/// dispatch loop and the host's world state.
///
/// Query methods are read-only; mutating methods record state changes
/// owned exclusively by the implementation. `call` and `create` either
/// return a completed exit or suspend the current frame with a trap that
/// the orchestrator must resolve and feed back through exactly one
/// matching feedback call.
pub trait Handler {
    /// Type of `CREATE` interrupt.
    type CreateInterrupt;

    /// Feedback value for `CREATE` interrupt.
    type CreateFeedback;

    /// Type of `CALL` interrupt.
    type CallInterrupt;

    /// Feedback value of `CALL` interrupt.
    type CallFeedback;

    /// The host-level error. It is always convertible into the exit
    /// taxonomy, with `ExitFatal` as the guaranteed fallback, so a host
    /// failure can never silently resolve as ordinary success.
    type RuntimeError: core::convert::From<ExitFatal> + core::convert::Into<ExitReason>;

    /// Get balance of address.
    fn balance(&self, address: H160) -> Result<U256, Self::RuntimeError>;

    /// Get code size of address.
    fn code_size(&self, address: H160) -> Result<U256, Self::RuntimeError>;

    /// Get code hash of address.
    fn code_hash(&self, address: H160) -> Result<H256, Self::RuntimeError>;

    /// Get code of address.
    fn code(&self, address: H160) -> Result<Vec<u8>, Self::RuntimeError>;

    /// Get storage value of address at index.
    fn storage(&self, address: H160, index: H256) -> Result<H256, Self::RuntimeError>;

    /// Get the pre-transaction storage value of address at index, needed
    /// for refund computations that compare original, current and new
    /// values.
    fn original_storage(&self, address: H160, index: H256) -> Result<H256, Self::RuntimeError>;

    /// Get the gas left value.
    fn gas_left(&self) -> Result<U256, Self::RuntimeError>;

    /// Get the gas price value.
    fn gas_price(&self) -> Result<U256, Self::RuntimeError>;

    /// Get execution origin.
    fn origin(&self) -> Result<H160, Self::RuntimeError>;

    /// Get environmental block hash.
    fn block_hash(&self, number: U256) -> Result<H256, Self::RuntimeError>;

    /// Get environmental block number.
    fn block_number(&self) -> Result<U256, Self::RuntimeError>;

    /// Get environmental coinbase.
    fn block_coinbase(&self) -> Result<H160, Self::RuntimeError>;

    /// Get environmental block timestamp.
    fn block_timestamp(&self) -> Result<U256, Self::RuntimeError>;

    /// Get environmental block difficulty.
    fn block_difficulty(&self) -> Result<U256, Self::RuntimeError>;

    /// Get environmental gas limit.
    fn block_gas_limit(&self) -> Result<U256, Self::RuntimeError>;

    /// Environmental block base fee.
    fn block_base_fee_per_gas(&self) -> Result<U256, Self::RuntimeError>;

    /// Get environmental chain ID.
    fn chain_id(&self) -> Result<U256, Self::RuntimeError>;

    /// Check whether an address exists.
    fn account_exists(&self, address: H160) -> Result<bool, Self::RuntimeError>;

    /// Check whether an address has already been deleted.
    fn deleted(&self, address: H160) -> Result<bool, Self::RuntimeError>;

    /// Check whether the address — or, with `Some(index)`, the storage
    /// slot under it — has not been accessed before in the current
    /// transaction, for access-list gas discounting.
    fn is_cold(&self, address: H160, index: Option<H256>) -> Result<bool, Self::RuntimeError>;

    /// Set storage value of address at index.
    fn set_storage(&mut self, address: H160, index: H256, value: H256) -> Result<
        (),
        Self::RuntimeError,
    >;

    /// Append a log owned by address with the given topics and data;
    /// ordering within a frame is the append order, and the topics count
    /// is validated by the caller, not here.
    fn log(&mut self, address: H160, topics: Vec<H256>, data: Vec<u8>) -> Result<
        (),
        Self::RuntimeError,
    >;

    /// Record the intent to delete an address at end-of-transaction
    /// commit, with its funds swept to target; the effect is deferred,
    /// not applied immediately.
    fn mark_delete(&mut self, address: H160, target: H160) -> Result<(), Self::RuntimeError>;

    /// Invoke a create operation. On `Exit` the returned triple is final:
    /// the exit reason, the new contract's address if creation succeeded
    /// (`None` on failure), and any returned output bytes. On `Trap` the
    /// orchestrator owns running the nested creation and must eventually
    /// deliver exactly one `create_feedback` before the suspended frame
    /// is advanced.
    fn create(
        &mut self,
        caller: H160,
        scheme: CreateScheme,
        value: U256,
        init_code: Vec<u8>,
        target_gas: Option<u64>,
    ) -> Result<
        Capture<(ExitReason, Option<H160>, Vec<u8>), Self::CreateInterrupt>,
        Self::RuntimeError,
    >;

    /// Feed in create feedback. The default accepts any feedback value
    /// and succeeds unconditionally, so engines that never trap creation
    /// need not override it.
    fn create_feedback(&mut self, _feedback: Self::CreateFeedback) -> (r: Result<
        (),
        Self::RuntimeError,
    >)
        default_ensures
            r is Ok,
    {
        Ok(())
    }

    /// Invoke a call operation. `transfer: None` signals a value-less
    /// call; `is_static` forbids state mutation for the entire nested
    /// call tree beneath this invocation. Same exit/trap duality and
    /// feedback mechanism as `create`.
    fn call(
        &mut self,
        code_address: H160,
        transfer: Option<Transfer>,
        input: Vec<u8>,
        target_gas: Option<u64>,
        is_static: bool,
        context: Context,
    ) -> Result<Capture<(ExitReason, Vec<u8>), Self::CallInterrupt>, Self::RuntimeError>;

    /// Feed in call feedback. The default accepts any feedback value and
    /// succeeds unconditionally, so engines that never trap calls need
    /// not override it.
    fn call_feedback(&mut self, _feedback: Self::CallFeedback) -> (r: Result<
        (),
        Self::RuntimeError,
    >)
        default_ensures
            r is Ok,
    {
        Ok(())
    }

    /// Pre-validation step, invoked before every opcode executes — core
    /// opcodes included, since they may also be gas-gated — so the host
    /// can reject execution before any stack or memory effects occur.
    fn pre_validate(
        &mut self,
        context: &Context,
        opcode: Opcode,
        stack: &Stack,
    ) -> Result<(), Self::RuntimeError>;

    /// Fallback for opcodes the dispatcher recognizes as neither core
    /// nor external. The default fails with a fatal invalid-code error
    /// carrying the offending opcode; engines extending the instruction
    /// set override this instead of the dispatch loop.
    fn other(&mut self, opcode: Opcode, _stack: &mut Machine) -> (r: Result<
        (),
        Self::RuntimeError,
    >) where
        Self: Sized,

        default_ensures
            r is Err,
            *final(self) == *old(self),
            *final(_stack) == *old(_stack),
            <Self::RuntimeError as FromSpec<ExitFatal>>::obeys_from_spec() ==> (r == Err::<
                (),
                Self::RuntimeError,
            >(
                <Self::RuntimeError as FromSpec<ExitFatal>>::from_spec(
                    ExitFatal::CallErrorAsFatal(ExitError::InvalidCode(opcode)),
                ),
            )),
    {
        Err(ExitFatal::CallErrorAsFatal(ExitError::InvalidCode(opcode)).into())
    }
}

} // verus!
