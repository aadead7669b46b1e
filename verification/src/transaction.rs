//! Transactions, why they are rejected, and what comes of executing them.
use crate::hash::{Address, H256};
use crate::uint::{U256, U512};
use crate::vm::VmError;
use std::sync::Arc;
use vstd::prelude::*;

verus! {

/// What a transaction does.
#[derive(Clone, Copy, Debug, PartialEq, Eq)]
pub enum Action {
    /// Creates a contract.
    Create,
    /// Calls the account.
    Call(Address),
}

/// A transaction whose sender is known.
#[derive(Debug, PartialEq, Eq)]
pub struct SignedTransaction {
    /// The sender.
    pub sender: Address,
    /// Whether the transaction carries no signature.
    pub unsigned: bool,
    /// The nonce.
    pub nonce: U256,
    /// The gas price.
    pub gas_price: U256,
    /// The gas paid up front.
    pub gas: U256,
    /// What the transaction does.
    pub action: Action,
    /// The value that moves.
    pub value: U256,
    /// The input of a call, or the code of a creation.
    pub data: Arc<Vec<u8>>,
}

impl Clone for SignedTransaction {
    fn clone(&self) -> (r: Self)
        ensures
            r == *self,
    {
        SignedTransaction {
            sender: self.sender,
            unsigned: self.unsigned,
            nonce: self.nonce,
            gas_price: self.gas_price,
            gas: self.gas,
            action: self.action,
            value: self.value,
            data: self.data.clone(),
        }
    }
}

/// Why a transaction was not executed.
#[allow(inconsistent_fields)]
#[derive(Debug, PartialEq, Eq)]
pub enum ExecutionError {
    /// The gas does not cover the base cost.
    NotEnoughBaseGas { required: U256, got: U256 },
    /// The block has not enough gas left.
    BlockGasLimitReached { gas_limit: U256, gas_used: U256, gas: U256 },
    /// The nonce is not the sender's.
    InvalidNonce { expected: U256, got: U256 },
    /// The sender cannot pay.
    NotEnoughCash { required: U512, got: U512 },
    /// The sender does not exist.
    SenderMustExist,
    /// The header of the contract is malformed.
    TransactionMalformed(String),
    /// A failure of the host.
    Internal(String),
}

/// A log entry that a contract wrote.
#[derive(Debug, PartialEq, Eq)]
pub struct LogEntry {
    /// The contract.
    pub address: Address,
    /// The topics.
    pub topics: Vec<H256>,
    /// The data.
    pub data: Vec<u8>,
}

/// What a successful transaction leaves behind besides the state.
#[derive(Debug, PartialEq, Eq)]
pub struct Effects {
    /// The logs.
    pub logs: Vec<LogEntry>,
    /// The addresses of new contracts, in the order of their creation.
    pub contracts_created: Vec<Address>,
}

/// What the substate of a transaction holds when its action is over.
#[derive(Debug, PartialEq, Eq)]
pub struct SubstateSummary {
    /// The gas to refund for storage that was cleared.
    pub sstore_clears_refund: U256,
    /// The accounts that destroyed themselves.
    pub suicides: Vec<Address>,
    /// What is left behind.
    pub effects: Effects,
}

/// The receipt of an executed transaction, without its traces.
#[derive(Debug, PartialEq, Eq)]
pub struct Outcome<B = Vec<u8>> {
    /// Why the action failed, where it did.
    pub exception: Option<VmError>,
    /// The gas paid up front.
    pub gas: U256,
    /// The gas used.
    pub gas_used: U256,
    /// The gas refunded.
    pub refunded: U256,
    /// The gas used in the block so far, this transaction included.
    pub cumulative_gas_used: U256,
    /// What the transaction left behind, where its action did not fail.
    pub effects: Option<Effects>,
    /// The output.
    pub output: B,
}

impl View for Outcome {
    type V = Outcome<Seq<u8>>;

    open spec fn view(&self) -> Outcome<Seq<u8>> {
        Outcome {
            exception: self.exception,
            gas: self.gas,
            gas_used: self.gas_used,
            refunded: self.refunded,
            cumulative_gas_used: self.cumulative_gas_used,
            effects: self.effects,
            output: self.output@,
        }
    }
}

/// How the execution of a transaction ended.
pub type TransactResult<B> = Result<Outcome<B>, ExecutionError>;

/// How the execution of a transaction ended, over sequences of bytes.
pub open spec fn outcome_view(result: TransactResult<Vec<u8>>) -> TransactResult<Seq<u8>> {
    match result {
        Ok(outcome) => Ok(outcome@),
        Err(error) => Err(error),
    }
}

/// The difference between two states. An executive computes none.
#[derive(Debug, PartialEq, Eq)]
pub struct StateDiff {
    /// The accounts that differ.
    pub accounts: Vec<Address>,
}

/// The receipt of an executed transaction.
#[derive(Debug, PartialEq, Eq)]
pub struct Executed<T, V> {
    /// Why the action failed, where it did.
    pub exception: Option<VmError>,
    /// The gas paid up front.
    pub gas: U256,
    /// The gas used.
    pub gas_used: U256,
    /// The gas refunded.
    pub refunded: U256,
    /// The gas used in the block so far, this transaction included.
    pub cumulative_gas_used: U256,
    /// The logs.
    pub logs: Vec<LogEntry>,
    /// The addresses of new contracts, in the order of their creation.
    pub contracts_created: Vec<Address>,
    /// The output.
    pub output: Vec<u8>,
    /// The traces.
    pub trace: Vec<T>,
    /// The machine trace.
    pub vm_trace: Option<V>,
    /// The difference of states.
    pub state_diff: Option<StateDiff>,
}

/// Whether `executed` is the receipt `outcome` with these traces. A transaction whose action failed
/// has no logs and has created no contracts.
pub open spec fn carries<T, V>(
    executed: Executed<T, V>,
    outcome: Outcome,
    trace: Vec<T>,
    vm_trace: Option<V>,
) -> bool {
    &&& executed.exception == outcome.exception
    &&& executed.gas == outcome.gas
    &&& executed.gas_used == outcome.gas_used
    &&& executed.refunded == outcome.refunded
    &&& executed.cumulative_gas_used == outcome.cumulative_gas_used
    &&& match outcome.effects {
        Some(effects) => {
            &&& executed.logs == effects.logs
            &&& executed.contracts_created == effects.contracts_created
        },
        None => {
            &&& executed.logs@.len() == 0
            &&& executed.contracts_created@.len() == 0
        },
    }
    &&& executed.output == outcome.output
    &&& executed.trace == trace
    &&& executed.vm_trace == vm_trace
    &&& executed.state_diff is None
}

impl Outcome {
    /// The receipt with its traces.
    pub fn with_traces<T, V>(self, trace: Vec<T>, vm_trace: Option<V>) -> (r: Executed<T, V>)
        ensures
            carries(r, self, trace, vm_trace),
    {
        let (logs, contracts_created) = match self.effects {
            Some(effects) => (effects.logs, effects.contracts_created),
            None => (Vec::new(), Vec::new()),
        };
        Executed {
            exception: self.exception,
            gas: self.gas,
            gas_used: self.gas_used,
            refunded: self.refunded,
            cumulative_gas_used: self.cumulative_gas_used,
            logs,
            contracts_created,
            output: self.output,
            trace,
            vm_trace,
            state_diff: None,
        }
    }
}

} // verus!
