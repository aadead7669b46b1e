//! What an executive hands to a virtual machine and gets back from it, and the surroundings in
//! which both work.
use crate::contract_address::CreateContractAddress;
use crate::hash::{Address, H256};
use crate::uint::U256;
use std::sync::Arc;
use vstd::prelude::*;

verus! {

/// The block that a transaction is executed in.
#[derive(Clone, Copy, Debug, PartialEq, Eq)]
pub struct EnvInfo {
    /// The block number.
    pub number: u64,
    /// The block author, who is paid the fees.
    pub author: Address,
    /// The block time.
    pub timestamp: u64,
    /// The gas that the transactions before this one used.
    pub gas_used: U256,
    /// The gas that all transactions of the block may use.
    pub gas_limit: U256,
}

/// Which accounts with little balance are removed after a transaction.
#[derive(Clone, Copy, Debug, PartialEq, Eq, Structural)]
pub enum CleanDustMode {
    /// None.
    Off,
    /// Those without code and storage.
    BasicOnly,
    /// Those with code and storage too.
    WithCodeAndStorage,
}

/// The rules of execution, as far as an executive reads them.
#[derive(Clone, Copy, Debug, PartialEq, Eq)]
pub struct Schedule {
    /// Which dust accounts are removed.
    pub kill_dust: CleanDustMode,
    /// Whether touched empty accounts are removed.
    pub kill_empty: bool,
    /// Whether a new contract starts at nonce one, so that it is never empty.
    pub no_empty: bool,
    /// The gas refunded for each account that destroyed itself.
    pub suicide_refund_gas: u64,
    /// The base gas of a transaction.
    pub tx_gas: u64,
    /// How long the storage of a contract lives when its header does not say.
    pub default_storage_duration: u64,
}

/// The machine whose rules hold for the block.
#[derive(Clone, Copy, Debug, PartialEq, Eq)]
pub struct Machine {
    /// The schedule at the block.
    pub schedule: Schedule,
    /// How addresses of new contracts are derived at the block.
    pub create_address_scheme: CreateContractAddress,
}

/// How an action was started.
#[derive(Clone, Copy, Debug, PartialEq, Eq, Structural)]
pub enum CallType {
    /// No call: a creation.
    Creation,
    /// A call.
    Call,
    /// A call that runs the code of another account.
    CallCode,
    /// A call that runs the code of another account on behalf of the caller.
    DelegateCall,
    /// A call that must not change the state.
    StaticCall,
}

/// Where the arguments of the code are.
#[derive(Clone, Copy, Debug, PartialEq, Eq, Structural)]
pub enum ParamsType {
    /// In the code, after it.
    Embedded,
    /// Apart from the code.
    Separate,
}

/// The value of an action.
#[derive(Clone, Copy, Debug, PartialEq, Eq)]
pub enum ActionValue {
    /// A value that moves from the sender to the receiver.
    Transfer(U256),
    /// A value that the code sees and that does not move.
    Apparent(U256),
}

impl ActionValue {
    /// The amount, whether it moves or not.
    pub open spec fn amount(self) -> U256 {
        match self {
            ActionValue::Transfer(value) => value,
            ActionValue::Apparent(value) => value,
        }
    }

    /// Whether some amount moves.
    pub open spec fn moves_value(self) -> bool {
        self matches ActionValue::Transfer(value) && value@ != 0
    }

    /// The amount, whether it moves or not.
    pub fn value(&self) -> (r: U256)
        ensures
            r == self.amount(),
    {
        match self {
            ActionValue::Transfer(value) => *value,
            ActionValue::Apparent(value) => *value,
        }
    }
}

/// A contract that was deployed with a header.
#[derive(Debug, PartialEq, Eq)]
pub struct OasisContract {
    /// Whether the contract is confidential.
    pub confidential: bool,
    /// When the storage of the contract expires, where the header says so.
    pub expiry: Option<u64>,
    /// The code without the header.
    pub code: Arc<Vec<u8>>,
}

impl Clone for OasisContract {
    fn clone(&self) -> (r: Self)
        ensures
            r == *self,
    {
        OasisContract {
            confidential: self.confidential,
            expiry: self.expiry,
            code: self.code.clone(),
        }
    }
}

/// What a call or a creation is to do.
#[derive(Debug, PartialEq, Eq)]
pub struct ActionParams {
    /// The address of the code that is executed.
    pub code_address: Address,
    /// The hash of the code.
    pub code_hash: Option<H256>,
    /// The receiving address.
    pub address: Address,
    /// The sender of this action.
    pub sender: Address,
    /// The sender of the transaction.
    pub origin: Address,
    /// The nonce that the sender of the transaction had.
    pub origin_nonce: U256,
    /// The gas paid up front.
    pub gas: U256,
    /// The gas price.
    pub gas_price: U256,
    /// The value.
    pub value: ActionValue,
    /// The code.
    pub code: Option<Arc<Vec<u8>>>,
    /// The input.
    pub data: Option<Arc<Vec<u8>>>,
    /// How the action was started.
    pub call_type: CallType,
    /// Where the arguments are.
    pub params_type: ParamsType,
    /// The header of the contract, where it has one.
    pub oasis_contract: Option<OasisContract>,
    /// Additional authenticated data.
    pub aad: Option<Arc<Vec<u8>>>,
}

/// A further handle on the same bytes.
fn share(bytes: &Option<Arc<Vec<u8>>>) -> (r: Option<Arc<Vec<u8>>>)
    ensures
        r == *bytes,
{
    match bytes {
        Some(bytes) => Some(bytes.clone()),
        None => None,
    }
}

impl Clone for ActionParams {
    fn clone(&self) -> (r: Self)
        ensures
            r == *self,
    {
        ActionParams {
            code_address: self.code_address,
            code_hash: self.code_hash,
            address: self.address,
            sender: self.sender,
            origin: self.origin,
            origin_nonce: self.origin_nonce,
            gas: self.gas,
            gas_price: self.gas_price,
            value: self.value,
            code: share(&self.code),
            data: share(&self.data),
            call_type: self.call_type,
            params_type: self.params_type,
            oasis_contract: match &self.oasis_contract {
                Some(contract) => Some(contract.clone()),
                None => None,
            },
            aad: share(&self.aad),
        }
    }
}

/// Why an action failed.
#[allow(inconsistent_fields)]
#[derive(Debug, PartialEq, Eq)]
pub enum VmError {
    /// The gas ran out.
    OutOfGas,
    /// A jump to a place that is none.
    BadJumpDestination { destination: usize },
    /// An instruction that is none.
    BadInstruction { instruction: u8 },
    /// Too few items on the stack.
    StackUnderflow { instruction: String, wanted: usize, on_stack: usize },
    /// Too many items on the stack.
    OutOfStack { instruction: String, wanted: usize, limit: usize },
    /// A built-in contract failed.
    BuiltIn(String),
    /// The state changed in a static context.
    MutableCallInStaticContext,
    /// A failure of the host, not of the code.
    Internal(String),
    /// A failure of the WebAssembly runtime.
    Wasm(String),
    /// An access outside of bounds.
    OutOfBounds,
    /// The code reverted.
    Reverted,
    /// The storage of the contract has expired.
    ContractExpired,
    /// A failure of confidential execution.
    Confidential(String),
}

impl Clone for VmError {
    fn clone(&self) -> (r: Self)
        ensures
            r == *self,
    {
        match self {
            VmError::OutOfGas => VmError::OutOfGas,
            VmError::BadJumpDestination { destination } => VmError::BadJumpDestination {
                destination: *destination,
            },
            VmError::BadInstruction { instruction } => VmError::BadInstruction {
                instruction: *instruction,
            },
            VmError::StackUnderflow { instruction, wanted, on_stack } => VmError::StackUnderflow {
                instruction: instruction.clone(),
                wanted: *wanted,
                on_stack: *on_stack,
            },
            VmError::OutOfStack { instruction, wanted, limit } => VmError::OutOfStack {
                instruction: instruction.clone(),
                wanted: *wanted,
                limit: *limit,
            },
            VmError::BuiltIn(message) => VmError::BuiltIn(message.clone()),
            VmError::MutableCallInStaticContext => VmError::MutableCallInStaticContext,
            VmError::Internal(message) => VmError::Internal(message.clone()),
            VmError::Wasm(message) => VmError::Wasm(message.clone()),
            VmError::OutOfBounds => VmError::OutOfBounds,
            VmError::Reverted => VmError::Reverted,
            VmError::ContractExpired => VmError::ContractExpired,
            VmError::Confidential(message) => VmError::Confidential(message.clone()),
        }
    }
}

/// The data that an action returned: a window into the memory of the code.
#[derive(Debug, PartialEq, Eq)]
pub struct ReturnData<B = Vec<u8>> {
    /// The memory.
    pub mem: B,
    /// Where the window starts.
    pub offset: usize,
    /// How long the window is.
    pub size: usize,
}

impl View for ReturnData {
    type V = ReturnData<Seq<u8>>;

    open spec fn view(&self) -> ReturnData<Seq<u8>> {
        ReturnData { mem: self.mem@, offset: self.offset, size: self.size }
    }
}

impl ReturnData {
    /// No data.
    pub fn empty() -> (r: ReturnData)
        ensures
            r@ == (ReturnData { mem: Seq::<u8>::empty(), offset: 0, size: 0 }),
    {
        ReturnData { mem: Vec::new(), offset: 0, size: 0 }
    }
}

/// How an action ended when it did not fail.
#[derive(Debug, PartialEq, Eq)]
pub struct FinalizationResult<B = Vec<u8>> {
    /// The gas that is left.
    pub gas_left: U256,
    /// What the action returned.
    pub return_data: ReturnData<B>,
    /// Whether the changes of the state stand.
    pub apply_state: bool,
}

impl View for FinalizationResult {
    type V = FinalizationResult<Seq<u8>>;

    open spec fn view(&self) -> FinalizationResult<Seq<u8>> {
        FinalizationResult {
            gas_left: self.gas_left,
            return_data: self.return_data@,
            apply_state: self.apply_state,
        }
    }
}

/// How an action ended.
pub type ActionResult<B> = Result<FinalizationResult<B>, VmError>;

/// How an action ended, over sequences of bytes.
pub open spec fn result_view(result: ActionResult<Vec<u8>>) -> ActionResult<Seq<u8>> {
    match result {
        Ok(finished) => Ok(finished@),
        Err(error) => Err(error),
    }
}

} // verus!
