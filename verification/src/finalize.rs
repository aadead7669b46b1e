//! The run of what follows the action of a transaction: refunds, fees, and the removal of
//! accounts.
use crate::bytes::copy_bytes;
use crate::executive::Executive;
use crate::hash::Address;
use crate::history::Run;
use crate::protocol::{commands_view, emit, no_commands, Cleanup, Command};
use crate::transact_protocol::{TransactAsk, TransactReply};
use crate::transaction::{
    outcome_view, Effects, ExecutionError, Outcome, SignedTransaction, SubstateSummary, TransactResult,
};
use crate::uint::{group_words, u256, u256_range, U256};
use crate::vm::{result_view, ActionResult, CleanDustMode, VmError};
use std::sync::Arc;
use vstd::arithmetic::mul::{lemma_mul_inequality, lemma_mul_upper_bound};
use vstd::arithmetic::power2::lemma2_to64;
use vstd::prelude::*;

verus! {

broadcast use group_words;

/// How the gas of a transaction is settled.
#[derive(Clone, Copy, Debug, PartialEq, Eq)]
pub struct Settlement {
    /// The gas refunded for what was cleared.
    pub refunded: U256,
    /// The gas left, refund included.
    pub gas_left: U256,
    /// The gas used, refund deducted.
    pub gas_used: U256,
    /// What the sender gets back.
    pub refund_value: U256,
    /// What the author is paid.
    pub fees_value: U256,
}

/// The gas refunded: what was earned, but at most half of what was used.
pub open spec fn refund(gas: nat, unused: nat, earned: nat) -> nat {
    if earned <= (gas - unused) / 2 {
        earned
    } else {
        ((gas - unused) / 2) as nat
    }
}

/// The settlement of `gas`, bought at `gas_price`, of which `unused` was left by the action and
/// for which a refund of `earned` was earned.
pub open spec fn settlement(gas: nat, gas_price: nat, unused: nat, earned: nat) -> Settlement {
    let refunded = refund(gas, unused, earned);
    let gas_left = unused + refunded;
    let gas_used = (gas - gas_left) as nat;
    Settlement {
        refunded: u256(refunded),
        gas_left: u256(gas_left),
        gas_used: u256(gas_used),
        refund_value: u256(gas_left * gas_price),
        fees_value: u256(gas_used * gas_price),
    }
}

/// Settles the gas of a transaction.
pub fn settle(gas: U256, gas_price: U256, unused: U256, earned: U256) -> (r: Settlement)
    requires
        unused@ <= gas@,
        gas@ * gas_price@ < u256_range(),
    ensures
        r == settlement(gas@, gas_price@, unused@, earned@),
        r.refunded@ == refund(gas@, unused@, earned@),
        r.gas_left@ == unused@ + r.refunded@,
        r.gas_used@ == gas@ - r.gas_left@,
        r.refund_value@ == r.gas_left@ * gas_price@,
        r.fees_value@ == r.gas_used@ * gas_price@,
{
    proof {
        lemma2_to64();
    }
    let refunded = earned.smaller(gas.minus(unused).shift_right(1));
    let gas_left = unused.plus(refunded);
    let gas_used = gas.minus(gas_left);
    proof {
        lemma_mul_inequality(gas_left@ as int, gas@ as int, gas_price@ as int);
        lemma_mul_inequality(gas_used@ as int, gas@ as int, gas_price@ as int);
    }
    let refund_value = gas_left.times(gas_price);
    let fees_value = gas_used.times(gas_price);
    Settlement { refunded, gas_left, gas_used, refund_value, fees_value }
}

/// The gas that an action left: none where it failed.
pub open spec fn unused_gas<B>(result: ActionResult<B>) -> U256 {
    match result {
        Ok(finished) => finished.gas_left,
        Err(_) => u256(0),
    }
}

/// What finalization waits for.
#[derive(Debug, PartialEq, Eq)]
pub enum FinalizeStage<B = Vec<u8>> {
    /// What the substate holds.
    Substate,
    /// The sender's refund.
    Refund { substate: SubstateSummary, settlement: Settlement },
    /// The author's fees.
    Fees { substate: SubstateSummary, settlement: Settlement },
    /// The accounts that were touched.
    Touched { substate: SubstateSummary, settlement: Settlement, min_balance: Option<U256> },
    /// The removal of empty and dust accounts.
    Garbage {
        substate: SubstateSummary,
        settlement: Settlement,
        min_balance: Option<U256>,
        touched: Arc<Vec<Address>>,
    },
    /// Nothing: the transaction is over.
    Done(TransactResult<B>),
}

/// The finalization of a transaction on its way.
#[derive(Debug, PartialEq, Eq)]
pub struct FinalizeRun<B = Vec<u8>> {
    /// The executive.
    pub executive: Executive,
    /// The transaction.
    pub transaction: SignedTransaction,
    /// How the action ended.
    pub result: ActionResult<B>,
    /// The output of the action.
    pub output: B,
    /// What finalization waits for.
    pub stage: FinalizeStage<B>,
}

impl View for FinalizeStage {
    type V = FinalizeStage<Seq<u8>>;

    open spec fn view(&self) -> FinalizeStage<Seq<u8>> {
        match self {
            FinalizeStage::Substate => FinalizeStage::Substate,
            FinalizeStage::Refund { substate, settlement } => FinalizeStage::Refund {
                substate: *substate,
                settlement: *settlement,
            },
            FinalizeStage::Fees { substate, settlement } => FinalizeStage::Fees {
                substate: *substate,
                settlement: *settlement,
            },
            FinalizeStage::Touched { substate, settlement, min_balance } => FinalizeStage::Touched {
                substate: *substate,
                settlement: *settlement,
                min_balance: *min_balance,
            },
            FinalizeStage::Garbage { substate, settlement, min_balance, touched } => {
                FinalizeStage::Garbage {
                    substate: *substate,
                    settlement: *settlement,
                    min_balance: *min_balance,
                    touched: *touched,
                }
            },
            FinalizeStage::Done(result) => FinalizeStage::Done(outcome_view(*result)),
        }
    }
}

impl View for FinalizeRun {
    type V = FinalizeRun<Seq<u8>>;

    open spec fn view(&self) -> FinalizeRun<Seq<u8>> {
        FinalizeRun {
            executive: self.executive,
            transaction: self.transaction,
            result: result_view(self.result),
            output: self.output@,
            stage: self.stage@,
        }
    }
}

impl FinalizeRun<Seq<u8>> {
    /// The same finalization, waiting for something else.
    pub open spec fn at(self, stage: FinalizeStage<Seq<u8>>) -> Self {
        FinalizeRun { stage, ..self }
    }

    /// The same finalization, over.
    pub open spec fn ended(self, result: TransactResult<Seq<u8>>) -> Self {
        self.at(FinalizeStage::Done(result))
    }

    /// The refund that the substate has earned.
    pub open spec fn earned(self, substate: SubstateSummary) -> nat {
        substate.sstore_clears_refund@ + self.executive.machine.schedule.suicide_refund_gas as nat
            * substate.suicides@.len()
    }

    /// The settlement of the transaction's gas.
    pub open spec fn settlement(self, substate: SubstateSummary) -> Settlement {
        settlement(
            self.transaction.gas@,
            self.transaction.gas_price@,
            unused_gas(self.result)@,
            self.earned(substate),
        )
    }

    /// The gas that the action left and the refund that the substate has earned are in range.
    pub open spec fn can_settle(self, substate: SubstateSummary) -> bool {
        &&& unused_gas(self.result)@ <= self.transaction.gas@
        &&& self.earned(substate) < u256_range()
    }

    /// The amounts of the transaction stay in range: its gas can be paid for, and fits the block.
    /// Its gas is settled once the substate is known.
    pub open spec fn wf(self) -> bool {
        &&& self.transaction.gas@ * self.transaction.gas_price@ < u256_range()
        &&& self.executive.info.gas_used@ + self.transaction.gas@ < u256_range()
        &&& match self.stage {
            FinalizeStage::Substate => true,
            FinalizeStage::Refund { substate, settlement } => {
                &&& self.can_settle(substate)
                &&& settlement == self.settlement(substate)
            },
            FinalizeStage::Fees { substate, settlement } => {
                &&& self.can_settle(substate)
                &&& settlement == self.settlement(substate)
            },
            FinalizeStage::Touched { substate, settlement, min_balance } => {
                &&& self.can_settle(substate)
                &&& settlement == self.settlement(substate)
                &&& min_balance == self.min_balance()
            },
            FinalizeStage::Garbage { substate, settlement, min_balance, .. } => {
                &&& self.can_settle(substate)
                &&& settlement == self.settlement(substate)
                &&& min_balance == self.min_balance()
            },
            FinalizeStage::Done(_) => true,
        }
    }

    /// The balance below which an account is dust, where dust is removed.
    pub open spec fn min_balance(self) -> Option<U256> {
        let schedule = self.executive.machine.schedule;
        if schedule.kill_dust != CleanDustMode::Off {
            Some(u256(schedule.tx_gas as nat * self.transaction.gas_price@))
        } else {
            None
        }
    }

    /// The start of finalization.
    pub open spec fn begin(
        executive: Executive,
        transaction: SignedTransaction,
        result: ActionResult<Seq<u8>>,
        output: Seq<u8>,
    ) -> Self {
        FinalizeRun { executive, transaction, result, output, stage: FinalizeStage::Substate }
    }

    /// The removal of the accounts that destroyed themselves.
    pub open spec fn killings(suicides: Seq<Address>) -> Seq<Command<Seq<u8>>> {
        Seq::new(suicides.len(), |i: int| Command::KillAccount(suicides[i]))
    }

    /// The receipt of the transaction. A failed action uses all gas and leaves nothing behind; a
    /// failure of the host is no receipt.
    pub open spec fn outcome(self, effects: Effects, settlement: Settlement) -> TransactResult<
        Seq<u8>,
    > {
        let gas = self.transaction.gas;
        let block_gas_used = self.executive.info.gas_used@;
        match self.result {
            Err(VmError::Internal(message)) => Err(ExecutionError::Internal(message)),
            Err(exception) => Ok(
                Outcome {
                    exception: Some(exception),
                    gas,
                    gas_used: gas,
                    refunded: u256(0),
                    cumulative_gas_used: u256(block_gas_used + gas@),
                    effects: None,
                    output: self.output,
                },
            ),
            Ok(finished) => Ok(
                Outcome {
                    exception: if finished.apply_state {
                        None
                    } else {
                        Some(VmError::Reverted)
                    },
                    gas,
                    gas_used: settlement.gas_used,
                    refunded: settlement.refunded,
                    cumulative_gas_used: u256(block_gas_used + settlement.gas_used@),
                    effects: Some(effects),
                    output: self.output,
                },
            ),
        }
    }
}

impl Run for FinalizeRun<Seq<u8>> {
    type Ask = TransactAsk<Seq<u8>>;

    type Reply = TransactReply<Seq<u8>>;

    /// What finalization asks of the host, until it is over.
    open spec fn asks(self) -> Option<TransactAsk<Seq<u8>>> {
        let schedule = self.executive.machine.schedule;
        match self.stage {
            FinalizeStage::Substate => Some(TransactAsk::Substate),
            FinalizeStage::Refund { settlement, .. } => Some(
                TransactAsk::AddBalance {
                    address: self.transaction.sender,
                    value: settlement.refund_value,
                    cleanup: Cleanup::NoEmpty,
                },
            ),
            FinalizeStage::Fees { settlement, .. } => Some(
                TransactAsk::AddBalance {
                    address: self.executive.info.author,
                    value: settlement.fees_value,
                    cleanup: Cleanup::OfSubstate,
                },
            ),
            FinalizeStage::Touched { .. } => Some(TransactAsk::Touched),
            FinalizeStage::Garbage { min_balance, touched, .. } => Some(
                TransactAsk::KillGarbage {
                    touched,
                    remove_empty: schedule.kill_empty,
                    min_balance,
                    kill_contracts: schedule.kill_dust == CleanDustMode::WithCodeAndStorage,
                },
            ),
            FinalizeStage::Done(_) => None,
        }
    }

    /// The replies that answer what finalization asks. The action left no more gas than the
    /// transaction had, no account destroyed itself twice or was touched twice, and the refund
    /// earned and the dust limit are in range.
    open spec fn accepts(self, reply: TransactReply<Seq<u8>>) -> bool {
        let schedule = self.executive.machine.schedule;
        match (self.stage, reply) {
            (FinalizeStage::Substate, TransactReply::Substate(substate)) => {
                &&& self.can_settle(substate)
                &&& substate.suicides@.no_duplicates()
            },
            (FinalizeStage::Refund { .. }, TransactReply::Unit(_)) => true,
            (FinalizeStage::Fees { .. }, TransactReply::Unit(done)) => {
                done is Ok && schedule.kill_dust != CleanDustMode::Off ==> schedule.tx_gas as nat
                    * self.transaction.gas_price@ < u256_range()
            },
            (FinalizeStage::Touched { .. }, TransactReply::Touched(touched)) => {
                touched@.no_duplicates()
            },
            (FinalizeStage::Garbage { .. }, TransactReply::Unit(_)) => true,
            _ => false,
        }
    }

    /// Finalization after a reply, and what the host has to do.
    open spec fn next(self, reply: TransactReply<Seq<u8>>) -> (Self, Seq<Command<Seq<u8>>>) {
        match (self.stage, reply) {
            (FinalizeStage::Substate, TransactReply::Substate(substate)) => (
                self.at(
                    FinalizeStage::Refund { substate, settlement: self.settlement(substate) },
                ),
                seq![],
            ),
            (FinalizeStage::Refund { substate, settlement }, TransactReply::Unit(done)) => (
                match done {
                    Err(message) => self.ended(Err(ExecutionError::Internal(message))),
                    Ok(_) => self.at(FinalizeStage::Fees { substate, settlement }),
                },
                seq![],
            ),
            (FinalizeStage::Fees { substate, settlement }, TransactReply::Unit(done)) => match done {
                Err(message) => (self.ended(Err(ExecutionError::Internal(message))), seq![]),
                Ok(_) => (
                    self.at(
                        FinalizeStage::Touched {
                            substate,
                            settlement,
                            min_balance: self.min_balance(),
                        },
                    ),
                    Self::killings(substate.suicides@),
                ),
            },
            (
                FinalizeStage::Touched { substate, settlement, min_balance },
                TransactReply::Touched(touched),
            ) => (
                self.at(FinalizeStage::Garbage { substate, settlement, min_balance, touched }),
                seq![],
            ),
            (FinalizeStage::Garbage { substate, settlement, .. }, TransactReply::Unit(done)) => (
                match done {
                    Err(message) => self.ended(Err(ExecutionError::Internal(message))),
                    Ok(_) => self.ended(self.outcome(substate.effects, settlement)),
                },
                seq![],
            ),
            _ => (self, seq![]),
        }
    }
}

/// The removal of the accounts that destroyed themselves.
fn kill_accounts(suicides: &Vec<Address>) -> (r: Vec<Command>)
    ensures
        commands_view(r) == FinalizeRun::killings(suicides@),
{
    let mut commands = no_commands();
    let mut i: usize = 0;
    while i < suicides.len()
        invariant
            i <= suicides.len(),
            commands_view(commands) =~= FinalizeRun::killings(suicides@.take(i as int)),
        decreases suicides.len() - i,
    {
        emit(&mut commands, Command::KillAccount(suicides[i]));
        i = i + 1;
    }
    assert(suicides@.take(i as int) =~= suicides@);
    commands
}

/// Whether the refund that the substate has earned fits a word.
fn refund_fits(executive: &Executive, substate: &SubstateSummary) -> (r: bool)
    ensures
        r == (substate.sstore_clears_refund@ + executive.machine.schedule.suicide_refund_gas as nat
            * substate.suicides@.len() < u256_range()),
{
    let per_suicide = U256::from_u64(executive.machine.schedule.suicide_refund_gas);
    let suicides = U256::from_u64(substate.suicides.len() as u64);
    proof {
        lemma_mul_upper_bound(per_suicide@ as int, u64::MAX as int, suicides@ as int, u64::MAX as int);
    }
    substate.sstore_clears_refund.sum_fits(&per_suicide.times(suicides))
}

/// Whether no address occurs twice.
fn all_different(addresses: &Vec<Address>) -> (r: bool)
    ensures
        r == addresses@.no_duplicates(),
{
    let mut i: usize = 0;
    while i < addresses.len()
        invariant
            i <= addresses.len(),
            forall|a: int, b: int| 0 <= a < b < i ==> addresses[a] != addresses[b],
        decreases addresses.len() - i,
    {
        let mut j: usize = 0;
        while j < i
            invariant
                j <= i < addresses.len(),
                forall|a: int| 0 <= a < j ==> addresses[a] != addresses[i as int],
            decreases i - j,
        {
            if addresses[j].same(&addresses[i]) {
                assert(addresses@[j as int] == addresses@[i as int]);
                return false;
            }
            j = j + 1;
        }
        i = i + 1;
    }
    true
}

/// The settlement of a transaction's gas.
fn settle_gas(
    executive: &Executive,
    transaction: &SignedTransaction,
    result: &ActionResult<Vec<u8>>,
    substate: &SubstateSummary,
) -> (r: Settlement)
    requires
        transaction.gas@ * transaction.gas_price@ < u256_range(),
        unused_gas(*result)@ <= transaction.gas@,
        substate.sstore_clears_refund@ + executive.machine.schedule.suicide_refund_gas as nat
            * substate.suicides@.len() < u256_range(),
    ensures
        r == settlement(
            transaction.gas@,
            transaction.gas_price@,
            unused_gas(*result)@,
            substate.sstore_clears_refund@ + executive.machine.schedule.suicide_refund_gas as nat
                * substate.suicides@.len(),
        ),
{
    let per_suicide = U256::from_u64(executive.machine.schedule.suicide_refund_gas);
    let suicides = U256::from_u64(substate.suicides.len() as u64);
    let earned = substate.sstore_clears_refund.plus(per_suicide.times(suicides));
    let unused = match result {
        Ok(finished) => finished.gas_left,
        Err(_) => U256::zero(),
    };
    settle(transaction.gas, transaction.gas_price, unused, earned)
}

impl FinalizeRun {
    /// Starts the finalization of a transaction.
    pub(crate) fn start(
        executive: Executive,
        transaction: SignedTransaction,
        result: ActionResult<Vec<u8>>,
        output: Vec<u8>,
    ) -> (r: FinalizeRun)
        ensures
            r@ == FinalizeRun::begin(executive, transaction, result_view(result), output@),
    {
        FinalizeRun { executive, transaction, result, output, stage: FinalizeStage::Substate }
    }

    /// What finalization asks of the host, until it is over.
    pub fn ask(&self) -> (r: Option<TransactAsk>)
        ensures
            r is Some <==> self@.asks() is Some,
            r matches Some(ask) ==> self@.asks() == Some(ask@),
    {
        match &self.stage {
            FinalizeStage::Substate => Some(TransactAsk::Substate),
            FinalizeStage::Refund { settlement, .. } => Some(
                TransactAsk::AddBalance {
                    address: self.transaction.sender,
                    value: settlement.refund_value,
                    cleanup: Cleanup::NoEmpty,
                },
            ),
            FinalizeStage::Fees { settlement, .. } => Some(
                TransactAsk::AddBalance {
                    address: self.executive.info.author,
                    value: settlement.fees_value,
                    cleanup: Cleanup::OfSubstate,
                },
            ),
            FinalizeStage::Touched { .. } => Some(TransactAsk::Touched),
            FinalizeStage::Garbage { min_balance, touched, .. } => Some(
                TransactAsk::KillGarbage {
                    touched: touched.clone(),
                    remove_empty: self.executive.machine.schedule.kill_empty,
                    min_balance: *min_balance,
                    kill_contracts: self.executive.machine.schedule.kill_dust
                        == CleanDustMode::WithCodeAndStorage,
                },
            ),
            FinalizeStage::Done(_) => None,
        }
    }

    /// Whether the reply answers what finalization asks, so that it can be resumed with it.
    pub fn takes(&self, reply: &TransactReply) -> (r: bool)
        ensures
            r == self@.accepts(reply@),
    {
        match (&self.stage, reply) {
            (FinalizeStage::Substate, TransactReply::Substate(substate)) => {
                let covered = match &self.result {
                    Ok(finished) => !self.transaction.gas.less_than(&finished.gas_left),
                    Err(_) => true,
                };
                covered && refund_fits(&self.executive, substate) && all_different(
                    &substate.suicides,
                )
            },
            (FinalizeStage::Refund { .. }, TransactReply::Unit(_)) => true,
            (FinalizeStage::Fees { .. }, TransactReply::Unit(done)) => {
                let schedule = self.executive.machine.schedule;
                done.is_err() || schedule.kill_dust == CleanDustMode::Off || U256::from_u64(
                    schedule.tx_gas,
                ).product_fits(&self.transaction.gas_price)
            },
            (FinalizeStage::Touched { .. }, TransactReply::Touched(touched)) => {
                all_different(touched)
            },
            (FinalizeStage::Garbage { .. }, TransactReply::Unit(_)) => true,
            _ => false,
        }
    }

    /// The receipt of the transaction.
    fn receipt(
        executive: &Executive,
        transaction: &SignedTransaction,
        result: &ActionResult<Vec<u8>>,
        output: &Vec<u8>,
        effects: Effects,
        settlement: &Settlement,
    ) -> (r: TransactResult<Vec<u8>>)
        requires
            executive.info.gas_used@ + transaction.gas@ < u256_range(),
            settlement.gas_used@ <= transaction.gas@,
        ensures
            outcome_view(r) == FinalizeRun::begin(
                *executive,
                *transaction,
                result_view(*result),
                output@,
            ).outcome(effects, *settlement),
    {
        match result {
            Err(VmError::Internal(message)) => Err(ExecutionError::Internal(message.clone())),
            Err(exception) => Ok(
                Outcome {
                    exception: Some(exception.clone()),
                    gas: transaction.gas,
                    gas_used: transaction.gas,
                    refunded: U256::zero(),
                    cumulative_gas_used: executive.info.gas_used.plus(transaction.gas),
                    effects: None,
                    output: copy_bytes(output),
                },
            ),
            Ok(finished) => Ok(
                Outcome {
                    exception: if finished.apply_state {
                        None
                    } else {
                        Some(VmError::Reverted)
                    },
                    gas: transaction.gas,
                    gas_used: settlement.gas_used,
                    refunded: settlement.refunded,
                    cumulative_gas_used: executive.info.gas_used.plus(settlement.gas_used),
                    effects: Some(effects),
                    output: copy_bytes(output),
                },
            ),
        }
    }

    /// Resumes finalization with what the host answered.
    pub fn resume(self, reply: TransactReply) -> (r: (FinalizeRun, Vec<Command>))
        requires
            self@.wf(),
            self@.accepts(reply@),
        ensures
            (r.0@, commands_view(r.1)) == self@.next(reply@),
            r.0@.wf(),
    {
        let FinalizeRun { executive, transaction, result, output, stage } = self;
        let mut commands = no_commands();
        let stage = match (stage, reply) {
            (FinalizeStage::Substate, TransactReply::Substate(substate)) => {
                let settlement = settle_gas(&executive, &transaction, &result, &substate);
                FinalizeStage::Refund { substate, settlement }
            },
            (FinalizeStage::Refund { substate, settlement }, TransactReply::Unit(done)) => {
                match done {
                    Err(message) => FinalizeStage::Done(Err(ExecutionError::Internal(message))),
                    Ok(_) => FinalizeStage::Fees { substate, settlement },
                }
            },
            (FinalizeStage::Fees { substate, settlement }, TransactReply::Unit(done)) => {
                match done {
                    Err(message) => FinalizeStage::Done(Err(ExecutionError::Internal(message))),
                    Ok(_) => {
                        commands = kill_accounts(&substate.suicides);
                        let schedule = executive.machine.schedule;
                        let min_balance = if schedule.kill_dust != CleanDustMode::Off {
                            Some(U256::from_u64(schedule.tx_gas).times(transaction.gas_price))
                        } else {
                            None
                        };
                        FinalizeStage::Touched { substate, settlement, min_balance }
                    },
                }
            },
            (
                FinalizeStage::Touched { substate, settlement, min_balance },
                TransactReply::Touched(touched),
            ) => FinalizeStage::Garbage { substate, settlement, min_balance, touched },
            (FinalizeStage::Garbage { substate, settlement, .. }, TransactReply::Unit(done)) => {
                match done {
                    Err(message) => FinalizeStage::Done(Err(ExecutionError::Internal(message))),
                    Ok(_) => FinalizeStage::Done(
                        Self::receipt(
                            &executive,
                            &transaction,
                            &result,
                            &output,
                            substate.effects,
                            &settlement,
                        ),
                    ),
                }
            },
            (stage, _) => stage,
        };
        (FinalizeRun { executive, transaction, result, output, stage }, commands)
    }
}

} // verus!
