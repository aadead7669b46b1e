//! The run of a transaction.
use crate::bytes::BytesRef;
use crate::call::{CallRun, CallStage};
use crate::contract_address::{contract_address, new_contract_address};
use crate::create::{CreateRun, CreateStage};
use crate::executive::Executive;
use crate::finalize::{FinalizeRun, FinalizeStage};
use crate::hash::{address, group_hashes, h256, keccak256, Address, H256};
use crate::history::Run;
use crate::protocol::{commands_view, emit, no_commands, Cleanup, Command};
use crate::transact_protocol::{TransactAsk, TransactReply};
use crate::transaction::{
    carries, outcome_view, Action, Executed, ExecutionError, SignedTransaction, TransactResult,
};
use crate::uint::{
    group_words, saturating_product, saturating_sum, u256, u256_range, u512, u512_range, U256,
};
use crate::vm::{
    ActionParams, ActionValue, CallType, CleanDustMode, OasisContract, ParamsType,
};
use std::sync::Arc;
use vstd::prelude::*;

verus! {

broadcast use {group_words, group_hashes};

/// What is known of a transaction whose gas, sender and nonce were found in order and that fits
/// the block.
#[derive(Debug, PartialEq, Eq)]
pub struct Admission {
    /// The nonce of the sender.
    pub nonce: U256,
    /// The header of the contract, where there is one.
    pub oasis_contract: Option<OasisContract>,
    /// The gas that is left for the action.
    pub init_gas: U256,
}

/// What a transaction waits for.
#[derive(Debug, PartialEq, Eq)]
pub enum TransactStage<B = Vec<u8>> {
    /// The balance of the sender, who may need more.
    VirtualBalance,
    /// The balance that the sender lacks.
    TopUp { amount: U256 },
    /// The nonce of the sender.
    Nonce,
    /// The header of the contract.
    Oasis { nonce: U256 },
    /// The gas needed before anything is executed.
    GasRequired { nonce: U256, oasis_contract: Option<OasisContract> },
    /// Whether the sender exists.
    Exists { nonce: U256, oasis_contract: Option<OasisContract>, base_gas: U256 },
    /// The balance of the sender.
    Balance(Admission),
    /// The increment of the sender's nonce.
    IncNonce { admission: Admission, gas_cost: U256 },
    /// The payment of the gas.
    Charge { admission: Admission, gas_cost: U256 },
    /// The code of the called account.
    Code { admission: Admission, callee: Address },
    /// The hash of the code of the called account.
    CodeHash { admission: Admission, callee: Address, code: Option<Arc<Vec<u8>>> },
    /// The creation.
    Creating(CreateRun<B>),
    /// The call.
    Calling(CallRun<B>),
    /// Refunds, fees and the removal of accounts.
    Finalizing(FinalizeRun<B>),
    /// Nothing: the transaction is over.
    Done(TransactResult<B>),
}

/// A transaction on its way.
#[derive(Debug, PartialEq, Eq)]
pub struct TransactRun<B = Vec<u8>> {
    /// The executive.
    pub executive: Executive,
    /// The transaction.
    pub transaction: SignedTransaction,
    /// Whether the nonce must be the sender's.
    pub check_nonce: bool,
    /// Whether the output of a creation is recorded.
    pub output_from_create: bool,
    /// What the transaction waits for.
    pub stage: TransactStage<B>,
}

impl View for TransactStage {
    type V = TransactStage<Seq<u8>>;

    open spec fn view(&self) -> TransactStage<Seq<u8>> {
        match self {
            TransactStage::VirtualBalance => TransactStage::VirtualBalance,
            TransactStage::TopUp { amount } => TransactStage::TopUp { amount: *amount },
            TransactStage::Nonce => TransactStage::Nonce,
            TransactStage::Oasis { nonce } => TransactStage::Oasis { nonce: *nonce },
            TransactStage::GasRequired { nonce, oasis_contract } => TransactStage::GasRequired {
                nonce: *nonce,
                oasis_contract: *oasis_contract,
            },
            TransactStage::Exists { nonce, oasis_contract, base_gas } => TransactStage::Exists {
                nonce: *nonce,
                oasis_contract: *oasis_contract,
                base_gas: *base_gas,
            },
            TransactStage::Balance(admission) => TransactStage::Balance(*admission),
            TransactStage::IncNonce { admission, gas_cost } => TransactStage::IncNonce {
                admission: *admission,
                gas_cost: *gas_cost,
            },
            TransactStage::Charge { admission, gas_cost } => TransactStage::Charge {
                admission: *admission,
                gas_cost: *gas_cost,
            },
            TransactStage::Code { admission, callee } => TransactStage::Code {
                admission: *admission,
                callee: *callee,
            },
            TransactStage::CodeHash { admission, callee, code } => TransactStage::CodeHash {
                admission: *admission,
                callee: *callee,
                code: *code,
            },
            TransactStage::Creating(run) => TransactStage::Creating(run@),
            TransactStage::Calling(run) => TransactStage::Calling(run@),
            TransactStage::Finalizing(run) => TransactStage::Finalizing(run@),
            TransactStage::Done(result) => TransactStage::Done(outcome_view(*result)),
        }
    }
}

impl View for TransactRun {
    type V = TransactRun<Seq<u8>>;

    open spec fn view(&self) -> TransactRun<Seq<u8>> {
        TransactRun {
            executive: self.executive,
            transaction: self.transaction,
            check_nonce: self.check_nonce,
            output_from_create: self.output_from_create,
            stage: self.stage@,
        }
    }
}

impl SignedTransaction {
    /// The price of the gas that is paid up front.
    pub open spec fn gas_cost(self) -> nat {
        self.gas@ * self.gas_price@
    }

    /// What the sender must be able to pay.
    pub open spec fn total_cost(self) -> nat {
        self.value@ + self.gas_cost()
    }

    /// The balance that is enough for the transaction, held at the largest word.
    pub open spec fn needed_balance(self) -> nat {
        saturating_sum(self.value@, saturating_product(self.gas@, self.gas_price@))
    }
}

impl TransactStage<Seq<u8>> {
    /// Whether the transaction is past its checks and has paid.
    pub open spec fn is_paid(self) -> bool {
        ||| self is Code
        ||| self is CodeHash
        ||| self is Creating
        ||| self is Calling
        ||| self is Finalizing
    }
}

impl TransactRun<Seq<u8>> {
    /// The same transaction, waiting for something else.
    pub open spec fn at(self, stage: TransactStage<Seq<u8>>) -> Self {
        TransactRun { stage, ..self }
    }

    /// The same transaction, over with an error.
    pub open spec fn failed(self, error: ExecutionError) -> Self {
        self.at(TransactStage::Done(Err(error)))
    }

    /// Whether the transaction fits the block.
    pub open spec fn fits_block(self) -> bool {
        self.executive.info.gas_used@ + self.transaction.gas@ <= self.executive.info.gas_limit@
    }

    /// What the stages rely on: the transaction fits the block once it is admitted, its gas can be
    /// paid for once the balance was looked at, and its parts belong to it.
    pub open spec fn wf(self) -> bool {
        let paid = self.transaction.gas_cost() < u256_range() && self.fits_block();
        match self.stage {
            TransactStage::Exists { base_gas, .. } => base_gas@ <= self.transaction.gas@,
            TransactStage::Balance(admission) => {
                &&& self.fits_block()
                &&& admission.init_gas@ <= self.transaction.gas@
            },
            TransactStage::IncNonce { admission, gas_cost } => {
                &&& paid
                &&& admission.init_gas@ <= self.transaction.gas@
                &&& gas_cost@ == self.transaction.gas_cost()
            },
            TransactStage::Charge { admission, gas_cost } => {
                &&& paid
                &&& admission.init_gas@ <= self.transaction.gas@
                &&& gas_cost@ == self.transaction.gas_cost()
            },
            TransactStage::Code { admission, .. } => {
                &&& paid
                &&& admission.init_gas@ <= self.transaction.gas@
            },
            TransactStage::CodeHash { admission, .. } => {
                &&& paid
                &&& admission.init_gas@ <= self.transaction.gas@
            },
            TransactStage::Creating(run) => {
                &&& paid
                &&& run.executive == self.executive
                &&& run.params.gas@ <= self.transaction.gas@
                &&& run.asks() is Some
            },
            TransactStage::Calling(run) => {
                &&& paid
                &&& run.wf()
                &&& run.executive == self.executive
                &&& run.params.gas@ <= self.transaction.gas@
                &&& run.asks() is Some
            },
            TransactStage::Finalizing(run) => {
                &&& paid
                &&& run.wf()
                &&& run.executive == self.executive
                &&& run.transaction == self.transaction
                &&& run.asks() is Some
            },
            _ => true,
        }
    }

    /// Whether the gas of the block is in range where it is looked at: when the nonce is in order.
    pub open spec fn block_gas_in_range(self, nonce: U256) -> bool {
        (self.check_nonce ==> self.transaction.nonce == nonce) ==> self.executive.info.gas_used@
            + self.transaction.gas@ < u256_range()
    }

    /// The start of a transaction.
    pub open spec fn begin(
        executive: Executive,
        transaction: SignedTransaction,
        check_nonce: bool,
        output_from_create: bool,
    ) -> Self {
        TransactRun {
            executive,
            transaction,
            check_nonce,
            output_from_create,
            stage: TransactStage::Nonce,
        }
    }

    /// The start of a virtual transaction.
    pub open spec fn begin_virtual(
        executive: Executive,
        transaction: SignedTransaction,
        check_nonce: bool,
        output_from_create: bool,
    ) -> Self {
        Self::begin(executive, transaction, check_nonce, output_from_create).at(
            TransactStage::VirtualBalance,
        )
    }

    /// A virtual transaction when the balance of the sender is known: the sender gets what is
    /// missing.
    pub open spec fn after_virtual_balance(self, balance: Result<U256, String>) -> Self {
        let needed = self.transaction.needed_balance();
        match balance {
            Err(message) => self.failed(ExecutionError::Internal(message)),
            Ok(balance) => if balance@ < needed {
                self.at(TransactStage::TopUp { amount: u256((needed - balance@) as nat) })
            } else {
                self.at(TransactStage::Nonce)
            },
        }
    }

    /// Whether the sender has to exist.
    pub open spec fn must_exist(self) -> bool {
        &&& !self.transaction.unsigned
        &&& self.check_nonce
        &&& self.executive.machine.schedule.kill_dust != CleanDustMode::Off
    }

    /// The transaction when its base gas is covered and its sender exists where it has to: its
    /// nonce is checked, and whether it fits the block.
    pub open spec fn admitted(
        self,
        nonce: U256,
        oasis_contract: Option<OasisContract>,
        base_gas: U256,
    ) -> Self {
        let info = self.executive.info;
        let gas = self.transaction.gas;
        if self.check_nonce && self.transaction.nonce != nonce {
            self.failed(
                ExecutionError::InvalidNonce { expected: nonce, got: self.transaction.nonce },
            )
        } else if !self.fits_block() {
            self.failed(
                ExecutionError::BlockGasLimitReached {
                    gas_limit: info.gas_limit,
                    gas_used: info.gas_used,
                    gas,
                },
            )
        } else {
            self.at(
                TransactStage::Balance(
                    Admission { nonce, oasis_contract, init_gas: u256((gas@ - base_gas@) as nat) },
                ),
            )
        }
    }

    /// The transaction when its base gas is known.
    pub open spec fn after_gas_required(
        self,
        nonce: U256,
        oasis_contract: Option<OasisContract>,
        base_gas: u64,
    ) -> Self {
        let required = u256(base_gas as nat);
        if self.transaction.gas@ < base_gas {
            self.failed(
                ExecutionError::NotEnoughBaseGas { required, got: self.transaction.gas },
            )
        } else if self.must_exist() {
            self.at(TransactStage::Exists { nonce, oasis_contract, base_gas: required })
        } else {
            self.admitted(nonce, oasis_contract, required)
        }
    }

    /// The transaction when it is known whether its sender exists.
    pub open spec fn after_exists(
        self,
        nonce: U256,
        oasis_contract: Option<OasisContract>,
        base_gas: U256,
        exists: Result<bool, String>,
    ) -> Self {
        match exists {
            Err(message) => self.failed(ExecutionError::Internal(message)),
            Ok(false) => self.failed(ExecutionError::SenderMustExist),
            Ok(true) => self.admitted(nonce, oasis_contract, base_gas),
        }
    }

    /// The transaction when the balance of its sender is known: it is rejected where the sender
    /// cannot pay. From here on it is executed.
    pub open spec fn after_balance(
        self,
        admission: Admission,
        balance: Result<U256, String>,
    ) -> (Self, Seq<Command<Seq<u8>>>) {
        match balance {
            Err(message) => (self.failed(ExecutionError::Internal(message)), seq![]),
            Ok(balance) => if balance@ < self.transaction.total_cost() {
                (
                    self.failed(
                        ExecutionError::NotEnoughCash {
                            required: u512(self.transaction.total_cost()),
                            got: u512(balance@),
                        },
                    ),
                    seq![],
                )
            } else {
                let gas_cost = u256(self.transaction.gas_cost());
                (
                    self.at(
                        if self.transaction.unsigned {
                            TransactStage::Charge { admission, gas_cost }
                        } else {
                            TransactStage::IncNonce { admission, gas_cost }
                        },
                    ),
                    seq![Command::NewSubstate],
                )
            },
        }
    }

    /// The creation of a transaction. The code is that of the data without the header.
    pub open spec fn create_params(self, admission: Admission) -> ActionParams {
        let t = self.transaction;
        let scheme = self.executive.machine.create_address_scheme;
        let new_address = address(
            new_contract_address(scheme, t.sender, admission.nonce, t.data@),
        );
        ActionParams {
            code_address: new_address,
            code_hash: if scheme is FromSenderAndNonce {
                None
            } else {
                Some(h256(keccak256(t.data@)))
            },
            address: new_address,
            sender: t.sender,
            origin: t.sender,
            origin_nonce: admission.nonce,
            gas: admission.init_gas,
            gas_price: t.gas_price,
            value: ActionValue::Transfer(t.value),
            code: match admission.oasis_contract {
                Some(contract) => Some(contract.code),
                None => Some(t.data),
            },
            data: None,
            call_type: CallType::Creation,
            params_type: ParamsType::Embedded,
            oasis_contract: admission.oasis_contract,
            aad: None,
        }
    }

    /// The call of a transaction. The code is that of the account, unless there is a header.
    pub open spec fn call_params(
        self,
        admission: Admission,
        callee: Address,
        code: Option<Arc<Vec<u8>>>,
        code_hash: H256,
    ) -> ActionParams {
        let t = self.transaction;
        ActionParams {
            code_address: callee,
            code_hash: Some(code_hash),
            address: callee,
            sender: t.sender,
            origin: t.sender,
            origin_nonce: admission.nonce,
            gas: admission.init_gas,
            gas_price: t.gas_price,
            value: ActionValue::Transfer(t.value),
            code: match admission.oasis_contract {
                Some(contract) => Some(contract.code),
                None => code,
            },
            data: Some(t.data),
            call_type: CallType::Call,
            params_type: ParamsType::Separate,
            oasis_contract: admission.oasis_contract,
            aad: None,
        }
    }

    /// The record of a creation's output, where one is kept.
    pub open spec fn create_record(self) -> Option<Seq<u8>> {
        if self.output_from_create {
            Some(Seq::empty())
        } else {
            None
        }
    }

    /// The transaction when its gas is paid.
    pub open spec fn after_charge(self, admission: Admission, done: Result<(), String>) -> Self {
        match done {
            Err(message) => self.failed(ExecutionError::Internal(message)),
            Ok(_) => match self.transaction.action {
                Action::Create => self.at(
                    TransactStage::Creating(
                        CreateRun::begin(
                            self.executive,
                            self.create_params(admission),
                            self.create_record(),
                        ),
                    ),
                ),
                Action::Call(callee) => self.at(TransactStage::Code { admission, callee }),
            },
        }
    }

    /// The transaction with its call, which may be over.
    pub open spec fn with_call(self, run: CallRun<Seq<u8>>) -> Self {
        match run.stage {
            CallStage::Done(result) => self.at(
                TransactStage::Finalizing(
                    FinalizeRun::begin(
                        self.executive,
                        self.transaction,
                        result,
                        run.output.content(),
                    ),
                ),
            ),
            _ => self.at(TransactStage::Calling(run)),
        }
    }

    /// The transaction with its creation, which may be over.
    pub open spec fn with_create(self, run: CreateRun<Seq<u8>>) -> Self {
        match run.stage {
            CreateStage::Done(result) => self.at(
                TransactStage::Finalizing(
                    FinalizeRun::begin(
                        self.executive,
                        self.transaction,
                        result,
                        match run.output {
                            Some(output) => output,
                            None => Seq::empty(),
                        },
                    ),
                ),
            ),
            _ => self.at(TransactStage::Creating(run)),
        }
    }

    /// The transaction with its finalization, which may be over.
    pub open spec fn with_finalization(self, run: FinalizeRun<Seq<u8>>) -> Self {
        match run.stage {
            FinalizeStage::Done(result) => self.at(TransactStage::Done(result)),
            _ => self.at(TransactStage::Finalizing(run)),
        }
    }

    /// The transaction when the hash of the called account's code is known: the call starts.
    pub open spec fn after_code_hash(
        self,
        admission: Admission,
        callee: Address,
        code: Option<Arc<Vec<u8>>>,
        code_hash: Result<H256, String>,
    ) -> (Self, Seq<Command<Seq<u8>>>) {
        match code_hash {
            Err(message) => (self.failed(ExecutionError::Internal(message)), seq![]),
            Ok(code_hash) => {
                let (run, commands) = CallRun::begin(
                    self.executive,
                    self.call_params(admission, callee, code, code_hash),
                    BytesRef::Flexible(Seq::empty()),
                );
                (self.with_call(run), commands)
            },
        }
    }

    /// A transaction that has not paid yet after a reply, and what the host has to do.
    #[verifier::opaque]
    pub open spec fn checks_next(self, reply: TransactReply<Seq<u8>>) -> (
        Self,
        Seq<Command<Seq<u8>>>,
    ) {
        match (self.stage, reply) {
            (TransactStage::VirtualBalance, TransactReply::Amount(balance)) => (
                self.after_virtual_balance(balance),
                seq![],
            ),
            (TransactStage::TopUp { .. }, TransactReply::Unit(done)) => (
                match done {
                    Err(message) => self.failed(ExecutionError::Internal(message)),
                    Ok(_) => self.at(TransactStage::Nonce),
                },
                seq![],
            ),
            (TransactStage::Nonce, TransactReply::Amount(nonce)) => (
                match nonce {
                    Err(message) => self.failed(ExecutionError::Internal(message)),
                    Ok(nonce) => self.at(TransactStage::Oasis { nonce }),
                },
                seq![],
            ),
            (TransactStage::Oasis { nonce }, TransactReply::Oasis(contract)) => (
                match contract {
                    Err(message) => self.failed(ExecutionError::TransactionMalformed(message)),
                    Ok(oasis_contract) => self.at(
                        TransactStage::GasRequired { nonce, oasis_contract },
                    ),
                },
                seq![],
            ),
            (
                TransactStage::GasRequired { nonce, oasis_contract },
                TransactReply::Gas(base_gas),
            ) => (self.after_gas_required(nonce, oasis_contract, base_gas), seq![]),
            (
                TransactStage::Exists { nonce, oasis_contract, base_gas },
                TransactReply::Flag(exists),
            ) => (self.after_exists(nonce, oasis_contract, base_gas, exists), seq![]),
            (TransactStage::Balance(admission), TransactReply::Amount(balance)) => {
                self.after_balance(admission, balance)
            },
            (TransactStage::IncNonce { admission, gas_cost }, TransactReply::Unit(done)) => (
                match done {
                    Err(message) => self.failed(ExecutionError::Internal(message)),
                    Ok(_) => self.at(TransactStage::Charge { admission, gas_cost }),
                },
                seq![],
            ),
            (TransactStage::Charge { admission, .. }, TransactReply::Unit(done)) => (
                self.after_charge(admission, done),
                seq![],
            ),
            _ => (self, seq![]),
        }
    }

    /// A transaction that has paid after a reply, and what the host has to do.
    #[verifier::opaque]
    pub open spec fn execution_next(self, reply: TransactReply<Seq<u8>>) -> (
        Self,
        Seq<Command<Seq<u8>>>,
    ) {
        match (self.stage, reply) {
            (TransactStage::Code { admission, callee }, TransactReply::Code(code)) => (
                match code {
                    Err(message) => self.failed(ExecutionError::Internal(message)),
                    Ok(code) => self.at(TransactStage::CodeHash { admission, callee, code }),
                },
                seq![],
            ),
            (TransactStage::CodeHash { admission, callee, code }, TransactReply::Hash(hash)) => {
                self.after_code_hash(admission, callee, code, hash)
            },
            (TransactStage::Creating(run), TransactReply::Act(reply)) => {
                let (later, commands) = run.next(reply);
                (self.with_create(later), commands)
            },
            (TransactStage::Calling(run), TransactReply::Act(reply)) => {
                let (later, commands) = run.next(reply);
                (self.with_call(later), commands)
            },
            (TransactStage::Finalizing(run), reply) => {
                let (later, commands) = run.next(reply);
                (self.with_finalization(later), commands)
            },
            _ => (self, seq![]),
        }
    }
}

impl Run for TransactRun<Seq<u8>> {
    type Ask = TransactAsk<Seq<u8>>;

    type Reply = TransactReply<Seq<u8>>;

    /// What the transaction asks of the host, until it is over.
    open spec fn asks(self) -> Option<TransactAsk<Seq<u8>>> {
        let sender = self.transaction.sender;
        match self.stage {
            TransactStage::VirtualBalance => Some(TransactAsk::Balance(sender)),
            TransactStage::TopUp { amount } => Some(
                TransactAsk::AddBalance { address: sender, value: amount, cleanup: Cleanup::NoEmpty },
            ),
            TransactStage::Nonce => Some(TransactAsk::Nonce(sender)),
            TransactStage::Oasis { .. } => Some(TransactAsk::OasisContract),
            TransactStage::GasRequired { oasis_contract, .. } => Some(
                TransactAsk::GasRequired {
                    confidential: oasis_contract is Some && oasis_contract->0.confidential,
                },
            ),
            TransactStage::Exists { .. } => Some(TransactAsk::Exists(sender)),
            TransactStage::Balance(_) => Some(TransactAsk::Balance(sender)),
            TransactStage::IncNonce { .. } => Some(TransactAsk::IncNonce(sender)),
            TransactStage::Charge { gas_cost, .. } => Some(
                TransactAsk::SubBalance {
                    address: sender,
                    value: gas_cost,
                    cleanup: Cleanup::OfSubstate,
                },
            ),
            TransactStage::Code { callee, .. } => Some(TransactAsk::Code(callee)),
            TransactStage::CodeHash { callee, .. } => Some(TransactAsk::CodeHash(callee)),
            TransactStage::Creating(run) => match run.asks() {
                Some(ask) => Some(TransactAsk::Act(ask)),
                None => None,
            },
            TransactStage::Calling(run) => match run.asks() {
                Some(ask) => Some(TransactAsk::Act(ask)),
                None => None,
            },
            TransactStage::Finalizing(run) => run.asks(),
            TransactStage::Done(_) => None,
        }
    }

    /// The replies that answer what the transaction asks. The gas of the block is in range.
    open spec fn accepts(self, reply: TransactReply<Seq<u8>>) -> bool {
        match (self.stage, reply) {
            (TransactStage::VirtualBalance, TransactReply::Amount(_)) => true,
            (TransactStage::TopUp { .. }, TransactReply::Unit(_)) => true,
            (TransactStage::Nonce, TransactReply::Amount(_)) => true,
            (TransactStage::Oasis { .. }, TransactReply::Oasis(_)) => true,
            (TransactStage::GasRequired { nonce, .. }, TransactReply::Gas(base_gas)) => {
                base_gas <= self.transaction.gas@ && !self.must_exist() ==> self.block_gas_in_range(
                    nonce,
                )
            },
            (TransactStage::Exists { nonce, .. }, TransactReply::Flag(exists)) => {
                exists == Ok::<bool, String>(true) ==> self.block_gas_in_range(nonce)
            },
            (TransactStage::Balance(_), TransactReply::Amount(_)) => true,
            (TransactStage::IncNonce { .. }, TransactReply::Unit(_)) => true,
            (TransactStage::Charge { .. }, TransactReply::Unit(_)) => true,
            (TransactStage::Code { .. }, TransactReply::Code(_)) => true,
            (TransactStage::CodeHash { .. }, TransactReply::Hash(_)) => true,
            (TransactStage::Creating(run), TransactReply::Act(reply)) => run.accepts(reply),
            (TransactStage::Calling(run), TransactReply::Act(reply)) => run.accepts(reply),
            (TransactStage::Finalizing(run), reply) => run.accepts(reply),
            _ => false,
        }
    }

    /// The transaction after a reply, and what the host has to do.
    open spec fn next(self, reply: TransactReply<Seq<u8>>) -> (Self, Seq<Command<Seq<u8>>>) {
        if self.stage.is_paid() {
            self.execution_next(reply)
        } else {
            self.checks_next(reply)
        }
    }
}

/// What the sender must be able to pay fits a wide word.
proof fn lemma_total_cost_fits(transaction: SignedTransaction)
    ensures
        transaction.total_cost() < u512_range(),
{
    let (value, gas, price) = (
        transaction.value@ as int,
        transaction.gas@ as int,
        transaction.gas_price@ as int,
    );
    let range = u256_range() as int;
    assert(value + gas * price < range * range) by (nonlinear_arith)
        requires
            0 <= value < range,
            0 <= gas < range,
            0 <= price < range,
    ;
}

impl Executive {
    /// Whether the sender of a transaction has to exist.
    fn must_exist(&self, transaction: &SignedTransaction, check_nonce: bool) -> (r: bool)
        ensures
            r == TransactRun::begin(*self, *transaction, check_nonce, false).must_exist(),
    {
        !transaction.unsigned && check_nonce && self.machine.schedule.kill_dust
            != CleanDustMode::Off
    }

    /// Checks the nonce of a transaction and whether it fits the block.
    fn check_admission(
        &self,
        transaction: &SignedTransaction,
        check_nonce: bool,
        nonce: U256,
        oasis_contract: Option<OasisContract>,
        base_gas: U256,
    ) -> (r: TransactStage)
        requires
            base_gas@ <= transaction.gas@,
            TransactRun::begin(*self, *transaction, check_nonce, false).block_gas_in_range(nonce),
        ensures
            r@ == TransactRun::begin(*self, *transaction, check_nonce, false).admitted(
                nonce,
                oasis_contract,
                base_gas,
            ).stage,
    {
        if check_nonce && transaction.nonce != nonce {
            return TransactStage::Done(
                Err(ExecutionError::InvalidNonce { expected: nonce, got: transaction.nonce }),
            );
        }
        let gas = transaction.gas;
        if self.info.gas_limit.less_than(&self.info.gas_used.plus(gas)) {
            return TransactStage::Done(
                Err(
                    ExecutionError::BlockGasLimitReached {
                        gas_limit: self.info.gas_limit,
                        gas_used: self.info.gas_used,
                        gas,
                    },
                ),
            );
        }
        TransactStage::Balance(
            Admission { nonce, oasis_contract, init_gas: gas.minus(base_gas) },
        )
    }

    /// The creation of a transaction.
    fn creation(&self, transaction: &SignedTransaction, admission: Admission) -> (r: ActionParams)
        ensures
            r == TransactRun::begin(*self, *transaction, false, false).create_params(admission),
    {
        let (new_address, code_hash) = contract_address(
            self.machine.create_address_scheme,
            &transaction.sender,
            &admission.nonce,
            transaction.data.as_slice(),
        );
        let code = match &admission.oasis_contract {
            Some(contract) => contract.code.clone(),
            None => transaction.data.clone(),
        };
        ActionParams {
            code_address: new_address,
            code_hash,
            address: new_address,
            sender: transaction.sender,
            origin: transaction.sender,
            origin_nonce: admission.nonce,
            gas: admission.init_gas,
            gas_price: transaction.gas_price,
            value: ActionValue::Transfer(transaction.value),
            code: Some(code),
            data: None,
            call_type: CallType::Creation,
            params_type: ParamsType::Embedded,
            oasis_contract: admission.oasis_contract,
            aad: None,
        }
    }

    /// The call of a transaction.
    fn message(
        transaction: &SignedTransaction,
        admission: Admission,
        callee: Address,
        code: Option<Arc<Vec<u8>>>,
        code_hash: H256,
    ) -> (r: ActionParams)
        ensures
            forall|run: TransactRun<Seq<u8>>|
                run.transaction == *transaction ==> r == #[trigger] run.call_params(
                    admission,
                    callee,
                    code,
                    code_hash,
                ),
    {
        let code = match &admission.oasis_contract {
            Some(contract) => Some(contract.code.clone()),
            None => code,
        };
        ActionParams {
            code_address: callee,
            code_hash: Some(code_hash),
            address: callee,
            sender: transaction.sender,
            origin: transaction.sender,
            origin_nonce: admission.nonce,
            gas: admission.init_gas,
            gas_price: transaction.gas_price,
            value: ActionValue::Transfer(transaction.value),
            code,
            data: Some(transaction.data.clone()),
            call_type: CallType::Call,
            params_type: ParamsType::Separate,
            oasis_contract: admission.oasis_contract,
            aad: None,
        }
    }
}

impl TransactStage {
    /// The stage of a transaction with its call, which may be over.
    fn with_call(executive: &Executive, transaction: &SignedTransaction, run: CallRun) -> (r:
        TransactStage)
        requires
            transaction.gas_cost() < u256_range(),
            executive.info.gas_used@ + transaction.gas@ < u256_range(),
        ensures
            r@ == TransactRun::begin(*executive, *transaction, false, false).with_call(run@).stage,
    {
        let CallRun { executive: inner, params, output, stage } = run;
        match stage {
            CallStage::Done(result) => TransactStage::Finalizing(
                executive.finalize(transaction, result, output.into_vec()),
            ),
            stage => TransactStage::Calling(CallRun { executive: inner, params, output, stage }),
        }
    }

    /// The stage of a transaction with its creation, which may be over.
    fn with_create(executive: &Executive, transaction: &SignedTransaction, run: CreateRun) -> (r:
        TransactStage)
        requires
            transaction.gas_cost() < u256_range(),
            executive.info.gas_used@ + transaction.gas@ < u256_range(),
        ensures
            r@ == TransactRun::begin(*executive, *transaction, false, false).with_create(run@).stage,
    {
        let CreateRun { executive: inner, params, output, stage } = run;
        match stage {
            CreateStage::Done(result) => {
                let output = match output {
                    Some(output) => output,
                    None => Vec::new(),
                };
                TransactStage::Finalizing(
                    executive.finalize(transaction, result, output),
                )
            },
            stage => TransactStage::Creating(CreateRun { executive: inner, params, output, stage }),
        }
    }

    /// The stage of a transaction with its finalization, which may be over.
    fn with_finalization(run: FinalizeRun) -> (r: TransactStage)
        ensures
            r@ == (match run@.stage {
                FinalizeStage::Done(result) => TransactStage::Done(result),
                _ => TransactStage::Finalizing(run@),
            }),
    {
        let FinalizeRun { executive, transaction, result, output, stage } = run;
        match stage {
            FinalizeStage::Done(outcome) => TransactStage::Done(outcome),
            stage => TransactStage::Finalizing(
                FinalizeRun { executive, transaction, result, output, stage },
            ),
        }
    }
}

impl TransactRun {
    /// Starts a transaction.
    pub(crate) fn start(
        executive: Executive,
        transaction: SignedTransaction,
        check_nonce: bool,
        output_from_create: bool,
    ) -> (r: TransactRun)
        ensures
            r@ == TransactRun::begin(executive, transaction, check_nonce, output_from_create),
    {
        TransactRun {
            executive,
            transaction,
            check_nonce,
            output_from_create,
            stage: TransactStage::Nonce,
        }
    }

    /// What the transaction asks of the host, until it is over.
    pub fn ask(&self) -> (r: Option<TransactAsk>)
        ensures
            r is Some <==> self@.asks() is Some,
            r matches Some(ask) ==> self@.asks() == Some(ask@),
    {
        let sender = self.transaction.sender;
        match &self.stage {
            TransactStage::VirtualBalance => Some(TransactAsk::Balance(sender)),
            TransactStage::TopUp { amount } => Some(
                TransactAsk::AddBalance {
                    address: sender,
                    value: *amount,
                    cleanup: Cleanup::NoEmpty,
                },
            ),
            TransactStage::Nonce => Some(TransactAsk::Nonce(sender)),
            TransactStage::Oasis { .. } => Some(TransactAsk::OasisContract),
            TransactStage::GasRequired { oasis_contract, .. } => {
                let confidential = match oasis_contract {
                    Some(contract) => contract.confidential,
                    None => false,
                };
                Some(TransactAsk::GasRequired { confidential })
            },
            TransactStage::Exists { .. } => Some(TransactAsk::Exists(sender)),
            TransactStage::Balance(_) => Some(TransactAsk::Balance(sender)),
            TransactStage::IncNonce { .. } => Some(TransactAsk::IncNonce(sender)),
            TransactStage::Charge { gas_cost, .. } => Some(
                TransactAsk::SubBalance {
                    address: sender,
                    value: *gas_cost,
                    cleanup: Cleanup::OfSubstate,
                },
            ),
            TransactStage::Code { callee, .. } => Some(TransactAsk::Code(*callee)),
            TransactStage::CodeHash { callee, .. } => Some(TransactAsk::CodeHash(*callee)),
            TransactStage::Creating(run) => match run.ask() {
                Some(ask) => Some(TransactAsk::Act(ask)),
                None => None,
            },
            TransactStage::Calling(run) => match run.ask() {
                Some(ask) => Some(TransactAsk::Act(ask)),
                None => None,
            },
            TransactStage::Finalizing(run) => run.ask(),
            TransactStage::Done(_) => None,
        }
    }

    /// Whether the gas of the block is in range where it is looked at.
    fn has_block_gas_in_range(&self, nonce: &U256) -> (r: bool)
        ensures
            r == self@.block_gas_in_range(*nonce),
    {
        (self.check_nonce && self.transaction.nonce != *nonce) || self.executive.info.gas_used.sum_fits(
            &self.transaction.gas,
        )
    }

    /// Whether the reply answers what the transaction asks, so that the transaction can be resumed
    /// with it.
    pub fn takes(&self, reply: &TransactReply) -> (r: bool)
        ensures
            r == self@.accepts(reply@),
    {
        match (&self.stage, reply) {
            (TransactStage::VirtualBalance, TransactReply::Amount(_)) => true,
            (TransactStage::TopUp { .. }, TransactReply::Unit(_)) => true,
            (TransactStage::Nonce, TransactReply::Amount(_)) => true,
            (TransactStage::Oasis { .. }, TransactReply::Oasis(_)) => true,
            (TransactStage::GasRequired { nonce, .. }, TransactReply::Gas(base_gas)) => {
                self.transaction.gas.less_than(&U256::from_u64(*base_gas))
                    || self.executive.must_exist(&self.transaction, self.check_nonce)
                    || self.has_block_gas_in_range(nonce)
            },
            (TransactStage::Exists { nonce, .. }, TransactReply::Flag(exists)) => match exists {
                Ok(true) => self.has_block_gas_in_range(nonce),
                _ => true,
            },
            (TransactStage::Balance(_), TransactReply::Amount(_)) => true,
            (TransactStage::IncNonce { .. }, TransactReply::Unit(_)) => true,
            (TransactStage::Charge { .. }, TransactReply::Unit(_)) => true,
            (TransactStage::Code { .. }, TransactReply::Code(_)) => true,
            (TransactStage::CodeHash { .. }, TransactReply::Hash(_)) => true,
            (TransactStage::Creating(run), TransactReply::Act(reply)) => run.takes(reply),
            (TransactStage::Calling(run), TransactReply::Act(reply)) => run.takes(reply),
            (TransactStage::Finalizing(run), reply) => run.takes(reply),
            _ => false,
        }
    }

    /// Whether the transaction is past its checks and has paid.
    fn is_paid(&self) -> (r: bool)
        ensures
            r == self@.stage.is_paid(),
    {
        match &self.stage {
            TransactStage::Code { .. }
            | TransactStage::CodeHash { .. }
            | TransactStage::Creating(_)
            | TransactStage::Calling(_)
            | TransactStage::Finalizing(_) => true,
            _ => false,
        }
    }

    /// Resumes a transaction that has not paid yet.
    #[verifier::rlimit(60)]
    fn resume_checks(self, reply: TransactReply) -> (r: (TransactRun, Vec<Command>))
        requires
            !self@.stage.is_paid(),
            self@.wf(),
            self@.accepts(reply@),
        ensures
            (r.0@, commands_view(r.1)) == self@.next(reply@),
            r.0@.wf(),
    {
        proof {
            reveal(TransactRun::checks_next);
        }
        let TransactRun { executive, transaction, check_nonce, output_from_create, stage } = self;
        let mut commands = no_commands();
        let stage = match (stage, reply) {
            (TransactStage::VirtualBalance, TransactReply::Amount(balance)) => match balance {
                Err(message) => TransactStage::Done(Err(ExecutionError::Internal(message))),
                Ok(balance) => {
                    let cost = transaction.gas.saturating_mul(transaction.gas_price);
                    let needed = transaction.value.saturating_add(cost);
                    if balance.less_than(&needed) {
                        TransactStage::TopUp { amount: needed.minus(balance) }
                    } else {
                        TransactStage::Nonce
                    }
                },
            },
            (TransactStage::TopUp { .. }, TransactReply::Unit(done)) => match done {
                Err(message) => TransactStage::Done(Err(ExecutionError::Internal(message))),
                Ok(_) => TransactStage::Nonce,
            },
            (TransactStage::Nonce, TransactReply::Amount(nonce)) => match nonce {
                Err(message) => TransactStage::Done(Err(ExecutionError::Internal(message))),
                Ok(nonce) => TransactStage::Oasis { nonce },
            },
            (TransactStage::Oasis { nonce }, TransactReply::Oasis(contract)) => match contract {
                Err(message) => TransactStage::Done(
                    Err(ExecutionError::TransactionMalformed(message)),
                ),
                Ok(oasis_contract) => TransactStage::GasRequired { nonce, oasis_contract },
            },
            (
                TransactStage::GasRequired { nonce, oasis_contract },
                TransactReply::Gas(base_gas),
            ) => {
                let required = U256::from_u64(base_gas);
                if transaction.gas.less_than(&required) {
                    TransactStage::Done(
                        Err(ExecutionError::NotEnoughBaseGas { required, got: transaction.gas }),
                    )
                } else if executive.must_exist(&transaction, check_nonce) {
                    TransactStage::Exists { nonce, oasis_contract, base_gas: required }
                } else {
                    executive.check_admission(&transaction, check_nonce, nonce, oasis_contract, required)
                }
            },
            (
                TransactStage::Exists { nonce, oasis_contract, base_gas },
                TransactReply::Flag(exists),
            ) => match exists {
                Err(message) => TransactStage::Done(Err(ExecutionError::Internal(message))),
                Ok(exists) => {
                    if exists {
                        executive.check_admission(&transaction, check_nonce, nonce, oasis_contract, base_gas)
                    } else {
                        TransactStage::Done(Err(ExecutionError::SenderMustExist))
                    }
                },
            },
            (TransactStage::Balance(admission), TransactReply::Amount(balance)) => match balance {
                Err(message) => TransactStage::Done(Err(ExecutionError::Internal(message))),
                Ok(balance) => {
                    proof {
                        lemma_total_cost_fits(transaction);
                    }
                    let cost = transaction.gas.full_mul(transaction.gas_price);
                    let required = transaction.value.widen().plus(cost);
                    let got = balance.widen();
                    if got.less_than(&required) {
                        TransactStage::Done(Err(ExecutionError::NotEnoughCash { required, got }))
                    } else {
                        emit(&mut commands, Command::NewSubstate);
                        let gas_cost = cost.narrow();
                        if transaction.unsigned {
                            TransactStage::Charge { admission, gas_cost }
                        } else {
                            TransactStage::IncNonce { admission, gas_cost }
                        }
                    }
                },
            },
            (TransactStage::IncNonce { admission, gas_cost }, TransactReply::Unit(done)) => {
                match done {
                    Err(message) => TransactStage::Done(Err(ExecutionError::Internal(message))),
                    Ok(_) => TransactStage::Charge { admission, gas_cost },
                }
            },
            (TransactStage::Charge { admission, .. }, TransactReply::Unit(done)) => match done {
                Err(message) => TransactStage::Done(Err(ExecutionError::Internal(message))),
                Ok(_) => match transaction.action {
                    Action::Create => {
                        let params = executive.creation(&transaction, admission);
                        let record = if output_from_create {
                            Some(Vec::new())
                        } else {
                            None
                        };
                        TransactStage::Creating(executive.create(params, record))
                    },
                    Action::Call(callee) => TransactStage::Code { admission, callee },
                },
            },
            (stage, _) => stage,
        };
        (TransactRun { executive, transaction, check_nonce, output_from_create, stage }, commands)
    }

    /// Resumes a transaction that has paid.
    #[verifier::rlimit(60)]
    fn resume_execution(self, reply: TransactReply) -> (r: (TransactRun, Vec<Command>))
        requires
            self@.stage.is_paid(),
            self@.wf(),
            self@.accepts(reply@),
        ensures
            (r.0@, commands_view(r.1)) == self@.next(reply@),
            r.0@.wf(),
    {
        proof {
            reveal(TransactRun::execution_next);
        }
        let TransactRun { executive, transaction, check_nonce, output_from_create, stage } = self;
        let mut commands = no_commands();
        let stage = match (stage, reply) {
            (TransactStage::Code { admission, callee }, TransactReply::Code(code)) => match code {
                Err(message) => TransactStage::Done(Err(ExecutionError::Internal(message))),
                Ok(code) => TransactStage::CodeHash { admission, callee, code },
            },
            (TransactStage::CodeHash { admission, callee, code }, TransactReply::Hash(hash)) => {
                match hash {
                    Err(message) => TransactStage::Done(Err(ExecutionError::Internal(message))),
                    Ok(code_hash) => {
                        let params = Executive::message(
                            &transaction,
                            admission,
                            callee,
                            code,
                            code_hash,
                        );
                        let (run, first) = executive.call(params, BytesRef::Flexible(Vec::new()));
                        commands = first;
                        TransactStage::with_call(&executive, &transaction, run)
                    },
                }
            },
            (TransactStage::Creating(run), TransactReply::Act(reply)) => {
                let (later, emitted) = run.resume(reply);
                commands = emitted;
                TransactStage::with_create(&executive, &transaction, later)
            },
            (TransactStage::Calling(run), TransactReply::Act(reply)) => {
                let (later, emitted) = run.resume(reply);
                commands = emitted;
                TransactStage::with_call(&executive, &transaction, later)
            },
            (TransactStage::Finalizing(run), reply) => {
                let (later, emitted) = run.resume(reply);
                commands = emitted;
                TransactStage::with_finalization(later)
            },
            (stage, _) => stage,
        };
        (TransactRun { executive, transaction, check_nonce, output_from_create, stage }, commands)
    }

    /// Resumes the transaction with what the host answered.
    pub fn resume(self, reply: TransactReply) -> (r: (TransactRun, Vec<Command>))
        requires
            self@.wf(),
            self@.accepts(reply@),
        ensures
            (r.0@, commands_view(r.1)) == self@.next(reply@),
            r.0@.wf(),
    {
        if self.is_paid() {
            self.resume_execution(reply)
        } else {
            self.resume_checks(reply)
        }
    }

    /// The receipt of a transaction that is over, with its traces, or why it was not executed.
    pub fn conclude<T, V>(self, trace: Vec<T>, vm_trace: Option<V>) -> (r: Option<
        Result<Executed<T, V>, ExecutionError>,
    >)
        ensures
            match self.stage {
                TransactStage::Done(Ok(outcome)) => r matches Some(Ok(executed)) && carries(
                    executed,
                    outcome,
                    trace,
                    vm_trace,
                ),
                TransactStage::Done(Err(error)) => r == Some(
                    Err::<Executed<T, V>, ExecutionError>(error),
                ),
                _ => r is None,
            },
    {
        match self.stage {
            TransactStage::Done(Ok(outcome)) => Some(Ok(outcome.with_traces(trace, vm_trace))),
            TransactStage::Done(Err(error)) => Some(Err(error)),
            _ => None,
        }
    }
}

} // verus!
