//! Laws that say what finalization does with each answer, and what a receipt says, in terms of the
//! transaction, of how its action ended, and of what was asked and answered.
use crate::executive::Executive;
use crate::finalize::{FinalizeRun, FinalizeStage};
use crate::history::{after, conversation, told, Run};
use crate::protocol::{Cleanup, Command};
use crate::transact_protocol::{TransactAsk, TransactReply};
use crate::transaction::{
    carries, Executed, ExecutionError, Outcome, SignedTransaction, SubstateSummary, TransactResult,
};
use crate::uint::{group_words, u256_range};
use crate::vm::{ActionResult, CleanDustMode, VmError};
use vstd::arithmetic::mul::lemma_mul_inequality;
use vstd::prelude::*;

verus! {

/// Whether the gas can be paid for, and the gas of the block stays in range.
pub open spec fn gas_in_range(executive: Executive, t: SignedTransaction) -> bool {
    &&& t.gas@ * t.gas_price@ < u256_range()
    &&& executive.info.gas_used@ + t.gas@ < u256_range()
}

/// The gas that an action has used: all but what it left, and all where it failed.
pub open spec fn used_by_action(t: SignedTransaction, result: ActionResult<Seq<u8>>) -> int {
    match result {
        Ok(finished) => t.gas@ - finished.gas_left@,
        Err(_) => t.gas@ as int,
    }
}

/// Whether `refunded` is the gas that is refunded: what was earned by clearing storage and by
/// accounts that destroyed themselves, but never more than half of what the action used.
pub open spec fn is_refund(
    executive: Executive,
    t: SignedTransaction,
    result: ActionResult<Seq<u8>>,
    substate: SubstateSummary,
    refunded: int,
) -> bool {
    let earned = substate.sstore_clears_refund@ + executive.machine.schedule.suicide_refund_gas
        * substate.suicides@.len();
    let used = used_by_action(t, result);
    ||| refunded == earned && 2 * earned <= used
    ||| refunded < earned && 2 * refunded <= used < 2 * refunded + 2
}

/// Whether the outcome is the receipt of a transaction whose action ended with the result and the
/// output. Whatever the result, the receipt has the gas of the transaction and the output of the
/// action. A failure of the host is no receipt. An action that failed used all gas and left
/// nothing behind; any other used what its gas says less the refund, left behind what the
/// substate holds, and is marked as reverted where it asked for that.
pub open spec fn is_receipt(
    executive: Executive,
    t: SignedTransaction,
    result: ActionResult<Seq<u8>>,
    output: Seq<u8>,
    substate: SubstateSummary,
    receipt: TransactResult<Seq<u8>>,
) -> bool {
    match result {
        Err(VmError::Internal(message)) => receipt == Err::<Outcome<Seq<u8>>, ExecutionError>(
            ExecutionError::Internal(message),
        ),
        Err(error) => {
            &&& receipt matches Ok(outcome)
            &&& outcome.gas == t.gas
            &&& outcome.output == output
            &&& outcome.exception == Some(error)
            &&& outcome.gas_used == t.gas
            &&& outcome.refunded@ == 0
            &&& outcome.cumulative_gas_used@ == executive.info.gas_used@ + t.gas@
            &&& outcome.effects is None
        },
        Ok(finished) => {
            &&& receipt matches Ok(outcome)
            &&& outcome.gas == t.gas
            &&& outcome.output == output
            &&& finished.apply_state ==> outcome.exception is None
            &&& !finished.apply_state ==> outcome.exception == Some(VmError::Reverted)
            &&& is_refund(executive, t, result, substate, outcome.refunded@ as int)
            &&& outcome.gas_used@ + outcome.refunded@ + finished.gas_left@ == t.gas@
            &&& outcome.cumulative_gas_used@ == executive.info.gas_used@ + outcome.gas_used@
            &&& outcome.effects == Some(substate.effects)
        },
    }
}

/// Whether the amounts are those of a transaction that has paid for its gas up front: the sender
/// gets the price of what was not used, the refund included, and the author that of the rest.
pub open spec fn settles(
    executive: Executive,
    t: SignedTransaction,
    result: ActionResult<Seq<u8>>,
    substate: SubstateSummary,
    refunded: int,
    to_sender: int,
    to_author: int,
) -> bool {
    let used = used_by_action(t, result) - refunded;
    &&& is_refund(executive, t, result, substate, refunded)
    &&& to_sender == (t.gas@ - used) * t.gas_price@
    &&& to_author == used * t.gas_price@
}

/// What holds of a finalization after the replies, whatever it waits for.
spec fn finalization_keeps(
    executive: Executive,
    t: SignedTransaction,
    result: ActionResult<Seq<u8>>,
    output: Seq<u8>,
    run: FinalizeRun<Seq<u8>>,
    replies: Seq<TransactReply<Seq<u8>>>,
) -> bool {
    &&& run.executive == executive
    &&& run.transaction == t
    &&& run.result == result
    &&& run.output == output
    &&& run.wf()
    &&& match run.stage {
        FinalizeStage::Substate => replies.len() == 0,
        FinalizeStage::Refund { substate, .. } => {
            &&& replies.len() == 1
            &&& replies[0] == TransactReply::<Seq<u8>>::Substate(substate)
        },
        FinalizeStage::Fees { substate, .. } => {
            &&& replies.len() == 2
            &&& replies[0] == TransactReply::<Seq<u8>>::Substate(substate)
        },
        FinalizeStage::Touched { substate, .. } => {
            &&& replies.len() == 3
            &&& replies[0] == TransactReply::<Seq<u8>>::Substate(substate)
        },
        FinalizeStage::Garbage { substate, touched, .. } => {
            &&& replies.len() == 4
            &&& replies[0] == TransactReply::<Seq<u8>>::Substate(substate)
            &&& replies[3] == TransactReply::<Seq<u8>>::Touched(touched)
        },
        FinalizeStage::Done(_) => replies.len() > 1,
    }
}

/// It holds after every conversation.
proof fn lemma_finalization_keeps(
    executive: Executive,
    t: SignedTransaction,
    result: ActionResult<Seq<u8>>,
    output: Seq<u8>,
    replies: Seq<TransactReply<Seq<u8>>>,
)
    requires
        gas_in_range(executive, t),
        conversation(FinalizeRun::begin(executive, t, result, output), replies),
    ensures
        finalization_keeps(
            executive,
            t,
            result,
            output,
            after(FinalizeRun::begin(executive, t, result, output), replies),
            replies,
        ),
    decreases replies.len(),
{
    if replies.len() > 0 {
        let before = replies.drop_last();
        lemma_finalization_keeps(executive, t, result, output, before);
        assert(forall|i: int| 0 <= i < before.len() ==> before[i] == replies[i]);
    }
}

/// The words of a settlement have the values that they stand for.
proof fn lemma_settlement_values(
    executive: Executive,
    t: SignedTransaction,
    result: ActionResult<Seq<u8>>,
    output: Seq<u8>,
    substate: SubstateSummary,
)
    requires
        gas_in_range(executive, t),
        FinalizeRun::begin(executive, t, result, output).can_settle(substate),
    ensures
        ({
            let settlement = FinalizeRun::begin(executive, t, result, output).settlement(substate);
            &&& settles(
                executive,
                t,
                result,
                substate,
                settlement.refunded@ as int,
                settlement.refund_value@ as int,
                settlement.fees_value@ as int,
            )
            &&& settlement.gas_used@ + settlement.refunded@ == used_by_action(t, result)
        }),
{
    broadcast use group_words;

    let run = FinalizeRun::begin(executive, t, result, output);
    let settlement = run.settlement(substate);
    let unused = crate::finalize::unused_gas(result)@;
    let refunded = crate::finalize::refund(t.gas@, unused, run.earned(substate));
    let left = unused + refunded;
    let used = (t.gas@ - left) as nat;
    lemma_mul_inequality(left as int, t.gas@ as int, t.gas_price@ as int);
    lemma_mul_inequality(used as int, t.gas@ as int, t.gas_price@ as int);
    assert(settlement.refunded@ == refunded);
    assert(settlement.gas_used@ == used);
    assert(settlement.refund_value@ == left * t.gas_price@);
    assert(settlement.fees_value@ == used * t.gas_price@);
}

/// Finalization asks, in this order, what the substate holds, has the sender credited and the
/// author paid, asks which accounts were touched, and has empty and dust accounts removed among
/// them. What the sender and the author get is settled by what the action and the substate say.
/// What is dust is decided by the schedule and the gas price.
pub proof fn law_finalization_settles(
    executive: Executive,
    t: SignedTransaction,
    result: ActionResult<Seq<u8>>,
    output: Seq<u8>,
    replies: Seq<TransactReply<Seq<u8>>>,
    refunded: int,
    to_sender: int,
    to_author: int,
)
    requires
        gas_in_range(executive, t),
        conversation(FinalizeRun::begin(executive, t, result, output), replies),
        replies.len() > 0 ==> (replies[0] matches TransactReply::Substate(substate) ==> settles(
            executive,
            t,
            result,
            substate,
            refunded,
            to_sender,
            to_author,
        )),
    ensures
        ({
            let run = after(FinalizeRun::begin(executive, t, result, output), replies);
            let schedule = executive.machine.schedule;
            !(run.stage is Done) ==> replies.len() <= 4 && match run.asks() {
                Some(TransactAsk::Substate) => replies.len() == 0,
                Some(TransactAsk::AddBalance { address, value, cleanup }) => {
                    ||| {
                        &&& replies.len() == 1
                        &&& address == t.sender
                        &&& value@ == to_sender
                        &&& cleanup == Cleanup::NoEmpty
                    }
                    ||| {
                        &&& replies.len() == 2
                        &&& address == executive.info.author
                        &&& value@ == to_author
                        &&& cleanup == Cleanup::OfSubstate
                    }
                },
                Some(TransactAsk::Touched) => replies.len() == 3,
                Some(
                    TransactAsk::KillGarbage { touched, remove_empty, min_balance, kill_contracts },
                ) => {
                    &&& replies.len() == 4
                    &&& replies[3] == TransactReply::<Seq<u8>>::Touched(touched)
                    &&& remove_empty == schedule.kill_empty
                    &&& match schedule.kill_dust {
                        CleanDustMode::Off => min_balance is None && !kill_contracts,
                        CleanDustMode::BasicOnly => {
                            &&& !kill_contracts
                            &&& min_balance matches Some(limit)
                            &&& limit@ == schedule.tx_gas * t.gas_price@
                        },
                        CleanDustMode::WithCodeAndStorage => {
                            &&& kill_contracts
                            &&& min_balance matches Some(limit)
                            &&& limit@ == schedule.tx_gas * t.gas_price@
                        },
                    }
                },
                _ => false,
            }
        }),
{
    lemma_finalization_keeps(executive, t, result, output, replies);
    lemma_dust_limit(executive, t, result, output, replies);
    let run = after(FinalizeRun::begin(executive, t, result, output), replies);
    if replies.len() > 0 && !(run.stage is Done) {
        let substate = replies[0]->Substate_0;
        lemma_settlement_values(executive, t, result, output, substate);
        lemma_one_settlement(
            executive,
            t,
            result,
            substate,
            refunded,
            run.settlement(substate).refunded@ as int,
        );
    }
}

/// There is only one refund.
proof fn lemma_one_settlement(
    executive: Executive,
    t: SignedTransaction,
    result: ActionResult<Seq<u8>>,
    substate: SubstateSummary,
    a: int,
    b: int,
)
    requires
        is_refund(executive, t, result, substate, a),
        is_refund(executive, t, result, substate, b),
    ensures
        a == b,
{
}

/// The dust limit is in range once it is known.
proof fn lemma_dust_limit(
    executive: Executive,
    t: SignedTransaction,
    result: ActionResult<Seq<u8>>,
    output: Seq<u8>,
    replies: Seq<TransactReply<Seq<u8>>>,
)
    requires
        gas_in_range(executive, t),
        conversation(FinalizeRun::begin(executive, t, result, output), replies),
    ensures
        ({
            let run = after(FinalizeRun::begin(executive, t, result, output), replies);
            let schedule = executive.machine.schedule;
            let min_balance = match run.stage {
                FinalizeStage::Touched { min_balance, .. } => min_balance,
                FinalizeStage::Garbage { min_balance, .. } => min_balance,
                _ => None,
            };
            &&& min_balance matches Some(limit) ==> limit@ == schedule.tx_gas * t.gas_price@
            &&& run.stage is Touched || run.stage is Garbage ==> (min_balance is Some
                <==> schedule.kill_dust != CleanDustMode::Off)
        }),
    decreases replies.len(),
{
    broadcast use group_words;

    if replies.len() > 0 {
        let before = replies.drop_last();
        lemma_finalization_keeps(executive, t, result, output, before);
        lemma_dust_limit(executive, t, result, output, before);
    }
}

/// What a step of finalization comes to: where the host failed it is over with that failure. When
/// the fees are paid, each account that destroyed itself is removed, in order, and at no other
/// time is there anything to do. When the last answer is in there is a receipt, and not before.
pub proof fn law_finalization_ends_with_a_receipt(
    executive: Executive,
    t: SignedTransaction,
    result: ActionResult<Seq<u8>>,
    output: Seq<u8>,
    replies: Seq<TransactReply<Seq<u8>>>,
)
    requires
        gas_in_range(executive, t),
        conversation(FinalizeRun::begin(executive, t, result, output), replies),
        replies.len() > 0,
    ensures
        ({
            let start = FinalizeRun::begin(executive, t, result, output);
            let run = after(start, replies);
            let commands = told(start, replies);
            &&& replies.len() <= 5
            &&& replies[0] matches TransactReply::Substate(substate)
            &&& match replies.last() {
                TransactReply::Unit(Err(message)) => {
                    &&& run.stage == FinalizeStage::<Seq<u8>>::Done(
                        Err(ExecutionError::Internal(message)),
                    )
                    &&& commands.len() == 0
                },
                TransactReply::Unit(Ok(_)) if replies.len() == 3 => {
                    &&& !(run.stage is Done)
                    &&& commands.len() == substate.suicides@.len()
                    &&& forall|i: int|
                        0 <= i < commands.len() ==> #[trigger] commands[i] == Command::<
                            Seq<u8>,
                        >::KillAccount(substate.suicides@[i])
                },
                TransactReply::Unit(Ok(_)) if replies.len() == 5 => {
                    &&& commands.len() == 0
                    &&& run.asks() is None
                    &&& run.stage matches FinalizeStage::Done(receipt)
                    &&& is_receipt(executive, t, result, output, substate, receipt)
                },
                _ => {
                    &&& !(run.stage is Done)
                    &&& commands.len() == 0
                },
            }
        }),
{
    broadcast use group_words;

    let before = replies.drop_last();
    lemma_finalization_keeps(executive, t, result, output, before);
    lemma_finalization_keeps(executive, t, result, output, replies);
    assert(forall|i: int| 0 <= i < before.len() ==> before[i] == replies[i]);
    let run = after(FinalizeRun::begin(executive, t, result, output), before);
    if let FinalizeStage::Garbage { substate, .. } = run.stage {
        lemma_settlement_values(executive, t, result, output, substate);
    }
}

/// Finalization takes exactly the replies that answer its question: a substate in which no account
/// destroyed itself twice and whose refund fits a word, after an action that left no more gas than
/// the transaction had; any failure; that the balances were added, where the dust limit, if there
/// is one, fits a word; and touched accounts of which none occurs twice.
pub proof fn law_finalization_takes_answers(
    executive: Executive,
    t: SignedTransaction,
    result: ActionResult<Seq<u8>>,
    output: Seq<u8>,
    replies: Seq<TransactReply<Seq<u8>>>,
    reply: TransactReply<Seq<u8>>,
)
    requires
        gas_in_range(executive, t),
        conversation(FinalizeRun::begin(executive, t, result, output), replies),
    ensures
        ({
            let run = after(FinalizeRun::begin(executive, t, result, output), replies);
            let schedule = executive.machine.schedule;
            run.accepts(reply) <==> match run.asks() {
                Some(TransactAsk::Substate) => {
                    &&& reply matches TransactReply::Substate(substate)
                    &&& used_by_action(t, result) >= 0
                    &&& substate.suicides@.no_duplicates()
                    &&& substate.sstore_clears_refund@ + schedule.suicide_refund_gas
                        * substate.suicides@.len() < u256_range()
                },
                Some(TransactAsk::AddBalance { .. }) => {
                    &&& reply matches TransactReply::Unit(done)
                    &&& replies.len() == 2 && done is Ok && schedule.kill_dust
                        != CleanDustMode::Off ==> schedule.tx_gas * t.gas_price@ < u256_range()
                },
                Some(TransactAsk::Touched) => {
                    reply matches TransactReply::Touched(touched) && touched@.no_duplicates()
                },
                Some(TransactAsk::KillGarbage { .. }) => reply is Unit,
                _ => false,
            }
        }),
{
    broadcast use group_words;

    lemma_finalization_keeps(executive, t, result, output, replies);
}

/// The receipt that the caller gets says what was found: every field is that of the outcome, what
/// was left behind is there where the action did not fail and is empty otherwise, and the traces
/// are those of the caller.
pub proof fn law_caller_gets_the_receipt<T, V>(
    executed: Executed<T, V>,
    outcome: Outcome,
    trace: Vec<T>,
    vm_trace: Option<V>,
)
    requires
        carries(executed, outcome, trace, vm_trace),
    ensures
        executed.exception == outcome.exception,
        executed.gas == outcome.gas,
        executed.gas_used == outcome.gas_used,
        executed.refunded == outcome.refunded,
        executed.cumulative_gas_used == outcome.cumulative_gas_used,
        executed.output == outcome.output,
        outcome.effects matches Some(effects) ==> executed.logs == effects.logs
            && executed.contracts_created == effects.contracts_created,
        outcome.effects is None ==> executed.logs@.len() == 0
            && executed.contracts_created@.len() == 0,
        executed.trace == trace,
        executed.vm_trace == vm_trace,
        executed.state_diff is None,
{
}

} // verus!
