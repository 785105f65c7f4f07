use evm_core::{
    Capture, Context, CreateScheme, ExitError, ExitFatal, ExitReason, ExitSucceed, Handler,
    Machine, Opcode, Stack, Transfer,
};
use primitive_types::{H160, H256, U256};

fn context() -> Context {
    Context {
        address: H160::zero(),
        caller: H160::zero(),
        apparent_value: U256::zero(),
    }
}

fn machine() -> Machine {
    Machine {
        code: vec![],
        position: 0,
        stack: Stack {
            data: vec![],
            limit: 1024,
        },
    }
}

/// A host that answers every query with a zero value and never traps,
/// overriding none of the provided methods.
struct ZeroHost;

impl Handler for ZeroHost {
    type CreateInterrupt = ();
    type CreateFeedback = ();
    type CallInterrupt = ();
    type CallFeedback = ();
    type RuntimeError = ExitReason;

    fn balance(&self, _address: H160) -> Result<U256, Self::RuntimeError> {
        Ok(U256::zero())
    }
    fn code_size(&self, _address: H160) -> Result<U256, Self::RuntimeError> {
        Ok(U256::zero())
    }
    fn code_hash(&self, _address: H160) -> Result<H256, Self::RuntimeError> {
        Ok(H256::zero())
    }
    fn code(&self, _address: H160) -> Result<Vec<u8>, Self::RuntimeError> {
        Ok(vec![])
    }
    fn storage(&self, _address: H160, _index: H256) -> Result<H256, Self::RuntimeError> {
        Ok(H256::zero())
    }
    fn original_storage(&self, _address: H160, _index: H256) -> Result<H256, Self::RuntimeError> {
        Ok(H256::zero())
    }
    fn gas_left(&self) -> Result<U256, Self::RuntimeError> {
        Ok(U256::zero())
    }
    fn gas_price(&self) -> Result<U256, Self::RuntimeError> {
        Ok(U256::zero())
    }
    fn origin(&self) -> Result<H160, Self::RuntimeError> {
        Ok(H160::zero())
    }
    fn block_hash(&self, _number: U256) -> Result<H256, Self::RuntimeError> {
        Ok(H256::zero())
    }
    fn block_number(&self) -> Result<U256, Self::RuntimeError> {
        Ok(U256::zero())
    }
    fn block_coinbase(&self) -> Result<H160, Self::RuntimeError> {
        Ok(H160::zero())
    }
    fn block_timestamp(&self) -> Result<U256, Self::RuntimeError> {
        Ok(U256::zero())
    }
    fn block_difficulty(&self) -> Result<U256, Self::RuntimeError> {
        Ok(U256::zero())
    }
    fn block_gas_limit(&self) -> Result<U256, Self::RuntimeError> {
        Ok(U256::zero())
    }
    fn block_base_fee_per_gas(&self) -> Result<U256, Self::RuntimeError> {
        Ok(U256::zero())
    }
    fn chain_id(&self) -> Result<U256, Self::RuntimeError> {
        Ok(U256::zero())
    }
    fn account_exists(&self, _address: H160) -> Result<bool, Self::RuntimeError> {
        Ok(false)
    }
    fn deleted(&self, _address: H160) -> Result<bool, Self::RuntimeError> {
        Ok(false)
    }
    fn is_cold(&self, _address: H160, _index: Option<H256>) -> Result<bool, Self::RuntimeError> {
        Ok(true)
    }
    fn set_storage(
        &mut self,
        _address: H160,
        _index: H256,
        _value: H256,
    ) -> Result<(), Self::RuntimeError> {
        Ok(())
    }
    fn log(
        &mut self,
        _address: H160,
        _topics: Vec<H256>,
        _data: Vec<u8>,
    ) -> Result<(), Self::RuntimeError> {
        Ok(())
    }
    fn mark_delete(&mut self, _address: H160, _target: H160) -> Result<(), Self::RuntimeError> {
        Ok(())
    }
    fn create(
        &mut self,
        _caller: H160,
        _scheme: CreateScheme,
        _value: U256,
        _init_code: Vec<u8>,
        _target_gas: Option<u64>,
    ) -> Result<
        Capture<(ExitReason, Option<H160>, Vec<u8>), Self::CreateInterrupt>,
        Self::RuntimeError,
    > {
        Ok(Capture::Exit((
            ExitReason::Succeed(ExitSucceed::Returned),
            Some(H160::zero()),
            vec![],
        )))
    }
    fn call(
        &mut self,
        _code_address: H160,
        _transfer: Option<Transfer>,
        _input: Vec<u8>,
        _target_gas: Option<u64>,
        _is_static: bool,
        _context: Context,
    ) -> Result<Capture<(ExitReason, Vec<u8>), Self::CallInterrupt>, Self::RuntimeError> {
        Ok(Capture::Exit((
            ExitReason::Succeed(ExitSucceed::Returned),
            vec![],
        )))
    }
    fn pre_validate(
        &mut self,
        _context: &Context,
        _opcode: Opcode,
        _stack: &Stack,
    ) -> Result<(), Self::RuntimeError> {
        Ok(())
    }
}

/// A host whose `call` always suspends with a trap token, and which
/// checks that feedback for it is delivered exactly once.
struct TrappingHost {
    feedback_count: usize,
    feedback: Option<(ExitReason, Vec<u8>)>,
}

impl Handler for TrappingHost {
    type CreateInterrupt = ();
    type CreateFeedback = ();
    type CallInterrupt = u64;
    type CallFeedback = (ExitReason, Vec<u8>);
    type RuntimeError = ExitReason;

    fn balance(&self, _address: H160) -> Result<U256, Self::RuntimeError> {
        Ok(U256::zero())
    }
    fn code_size(&self, _address: H160) -> Result<U256, Self::RuntimeError> {
        Ok(U256::zero())
    }
    fn code_hash(&self, _address: H160) -> Result<H256, Self::RuntimeError> {
        Ok(H256::zero())
    }
    fn code(&self, _address: H160) -> Result<Vec<u8>, Self::RuntimeError> {
        Ok(vec![])
    }
    fn storage(&self, _address: H160, _index: H256) -> Result<H256, Self::RuntimeError> {
        Ok(H256::zero())
    }
    fn original_storage(&self, _address: H160, _index: H256) -> Result<H256, Self::RuntimeError> {
        Ok(H256::zero())
    }
    fn gas_left(&self) -> Result<U256, Self::RuntimeError> {
        Ok(U256::zero())
    }
    fn gas_price(&self) -> Result<U256, Self::RuntimeError> {
        Ok(U256::zero())
    }
    fn origin(&self) -> Result<H160, Self::RuntimeError> {
        Ok(H160::zero())
    }
    fn block_hash(&self, _number: U256) -> Result<H256, Self::RuntimeError> {
        Ok(H256::zero())
    }
    fn block_number(&self) -> Result<U256, Self::RuntimeError> {
        Ok(U256::zero())
    }
    fn block_coinbase(&self) -> Result<H160, Self::RuntimeError> {
        Ok(H160::zero())
    }
    fn block_timestamp(&self) -> Result<U256, Self::RuntimeError> {
        Ok(U256::zero())
    }
    fn block_difficulty(&self) -> Result<U256, Self::RuntimeError> {
        Ok(U256::zero())
    }
    fn block_gas_limit(&self) -> Result<U256, Self::RuntimeError> {
        Ok(U256::zero())
    }
    fn block_base_fee_per_gas(&self) -> Result<U256, Self::RuntimeError> {
        Ok(U256::zero())
    }
    fn chain_id(&self) -> Result<U256, Self::RuntimeError> {
        Ok(U256::zero())
    }
    fn account_exists(&self, _address: H160) -> Result<bool, Self::RuntimeError> {
        Ok(false)
    }
    fn deleted(&self, _address: H160) -> Result<bool, Self::RuntimeError> {
        Ok(false)
    }
    fn is_cold(&self, _address: H160, _index: Option<H256>) -> Result<bool, Self::RuntimeError> {
        Ok(true)
    }
    fn set_storage(
        &mut self,
        _address: H160,
        _index: H256,
        _value: H256,
    ) -> Result<(), Self::RuntimeError> {
        Ok(())
    }
    fn log(
        &mut self,
        _address: H160,
        _topics: Vec<H256>,
        _data: Vec<u8>,
    ) -> Result<(), Self::RuntimeError> {
        Ok(())
    }
    fn mark_delete(&mut self, _address: H160, _target: H160) -> Result<(), Self::RuntimeError> {
        Ok(())
    }
    fn create(
        &mut self,
        _caller: H160,
        _scheme: CreateScheme,
        _value: U256,
        _init_code: Vec<u8>,
        _target_gas: Option<u64>,
    ) -> Result<
        Capture<(ExitReason, Option<H160>, Vec<u8>), Self::CreateInterrupt>,
        Self::RuntimeError,
    > {
        Ok(Capture::Trap(()))
    }
    fn call(
        &mut self,
        _code_address: H160,
        _transfer: Option<Transfer>,
        _input: Vec<u8>,
        _target_gas: Option<u64>,
        _is_static: bool,
        _context: Context,
    ) -> Result<Capture<(ExitReason, Vec<u8>), Self::CallInterrupt>, Self::RuntimeError> {
        Ok(Capture::Trap(7))
    }
    fn call_feedback(&mut self, feedback: Self::CallFeedback) -> Result<(), Self::RuntimeError> {
        if self.feedback_count != 0 {
            self.feedback_count += 1;
            return Err(ExitReason::Fatal(ExitFatal::UnhandledInterrupt));
        }
        self.feedback_count += 1;
        self.feedback = Some(feedback);
        Ok(())
    }
    fn pre_validate(
        &mut self,
        _context: &Context,
        _opcode: Opcode,
        _stack: &Stack,
    ) -> Result<(), Self::RuntimeError> {
        Ok(())
    }
}

#[test]
fn default_feedbacks_always_succeed() {
    let mut host = ZeroHost;
    assert_eq!(host.call_feedback(()), Ok(()));
    assert_eq!(host.create_feedback(()), Ok(()));
}

#[test]
fn default_other_rejects_the_opcode_as_fatal_invalid_code() {
    let mut host = ZeroHost;
    let mut frame = machine();
    let r = host.other(Opcode(0x0c), &mut frame);
    assert_eq!(
        r,
        Err(ExitReason::Fatal(ExitFatal::CallErrorAsFatal(
            ExitError::InvalidCode(Opcode(0x0c))
        )))
    );
}

#[test]
fn trapped_call_resumes_through_exactly_one_feedback() {
    let mut host = TrappingHost {
        feedback_count: 0,
        feedback: None,
    };

    // The frame issues a call; the host suspends it with a trap token.
    let outcome = host
        .call(H160::zero(), None, vec![0xaa], None, false, context())
        .unwrap();
    let token = match outcome {
        Capture::Exit(_) => panic!("the call was expected to suspend"),
        Capture::Trap(token) => token,
    };
    assert_eq!(token, 7);

    // While the trap is pending, no feedback has been delivered and the
    // suspended frame has no result yet.
    assert_eq!(host.feedback_count, 0);
    assert!(host.feedback.is_none());

    // The orchestrator resolves the nested call and feeds the result
    // back exactly once; the value arrives unchanged as the suspended
    // frame's result.
    let resolved = (ExitReason::Succeed(ExitSucceed::Returned), vec![1, 2, 3]);
    assert_eq!(host.call_feedback(resolved.clone()), Ok(()));
    assert_eq!(host.feedback_count, 1);
    assert_eq!(host.feedback, Some(resolved));
}

#[test]
fn second_feedback_delivery_is_rejected_by_the_host() {
    let mut host = TrappingHost {
        feedback_count: 0,
        feedback: None,
    };
    let _ = host.call(H160::zero(), None, vec![], None, false, context());
    let first = (ExitReason::Succeed(ExitSucceed::Stopped), vec![0x01]);
    assert_eq!(host.call_feedback(first.clone()), Ok(()));
    let second = (ExitReason::Succeed(ExitSucceed::Returned), vec![0x02]);
    assert_eq!(
        host.call_feedback(second),
        Err(ExitReason::Fatal(ExitFatal::UnhandledInterrupt))
    );
    // The result the suspended frame sees is still the first delivery.
    assert_eq!(host.feedback, Some(first));
}

#[test]
fn exit_reason_conversions_preserve_the_family() {
    assert_eq!(
        ExitReason::from(ExitSucceed::Stopped),
        ExitReason::Succeed(ExitSucceed::Stopped)
    );
    assert_eq!(
        ExitReason::from(ExitError::OutOfGas),
        ExitReason::Error(ExitError::OutOfGas)
    );
    assert_eq!(
        ExitReason::from(evm_core::ExitRevert::Reverted),
        ExitReason::Revert(evm_core::ExitRevert::Reverted)
    );
    assert_eq!(
        ExitReason::from(ExitFatal::NotSupported),
        ExitReason::Fatal(ExitFatal::NotSupported)
    );
}
