//! Laws of transactions.
use crate::call::{CallRun, CallStage};
use crate::create::CreateStage;
use crate::executive::{reverts, Executive};
use crate::finalize::{FinalizeRun, FinalizeStage};
use crate::hash::Address;
use crate::history::{
    after, asked, commanded, conversation, lemma_asked_len, lemma_turn, Run,
};
use crate::laws::calls::{call_tallies, lemma_call_start_tallies, lemma_call_step_tallies};
use crate::laws::creations::{create_tallies, lemma_create_step_tallies};
use crate::laws::settlements::{law_at_most_half_is_refunded, law_gas_is_conserved};
use crate::laws::tally::{closings, count, group_counts, Kind};
use crate::protocol::{Cleanup, Command};
use crate::transact::{TransactRun, TransactStage};
use crate::transact_protocol::{TransactAsk, TransactReply};
use crate::transaction::{Outcome, SignedTransaction};
use crate::uint::group_words;
use crate::vm::ActionResult;
use vstd::prelude::*;

verus! {

/// Whether what is asked changes the state.
pub open spec fn changes_state(ask: TransactAsk<Seq<u8>>) -> bool {
    match ask {
        TransactAsk::AddBalance { .. } => true,
        TransactAsk::SubBalance { .. } => true,
        TransactAsk::IncNonce(_) => true,
        TransactAsk::Act(_) => true,
        TransactAsk::KillGarbage { .. } => true,
        _ => false,
    }
}

/// What the transaction itself takes from accounts. The value moves in its call or creation and
/// is not counted.
pub open spec fn charges(asks: Seq<TransactAsk<Seq<u8>>>) -> nat
    decreases asks.len(),
{
    if asks.len() == 0 {
        0
    } else {
        charges(asks.drop_last()) + match asks.last() {
            TransactAsk::SubBalance { value, .. } => value@,
            _ => 0,
        }
    }
}

/// What the transaction itself gives to accounts.
pub open spec fn credits(asks: Seq<TransactAsk<Seq<u8>>>) -> nat
    decreases asks.len(),
{
    if asks.len() == 0 {
        0
    } else {
        credits(asks.drop_last()) + match asks.last() {
            TransactAsk::AddBalance { value, .. } => value@,
            _ => 0,
        }
    }
}

/// How often a nonce is incremented.
pub open spec fn increments(asks: Seq<TransactAsk<Seq<u8>>>) -> nat
    decreases asks.len(),
{
    if asks.len() == 0 {
        0
    } else {
        increments(asks.drop_last()) + if asks.last() is IncNonce {
            1nat
        } else {
            0
        }
    }
}

/// One more question adds its own part.
proof fn lemma_ledger_push(asks: Seq<TransactAsk<Seq<u8>>>, ask: TransactAsk<Seq<u8>>)
    ensures
        charges(asks.push(ask)) == charges(asks) + match ask {
            TransactAsk::SubBalance { value, .. } => value@,
            _ => 0,
        },
        credits(asks.push(ask)) == credits(asks) + match ask {
            TransactAsk::AddBalance { value, .. } => value@,
            _ => 0,
        },
        increments(asks.push(ask)) == increments(asks) + if ask is IncNonce {
            1nat
        } else {
            0
        },
{
    assert(asks.push(ask).drop_last() =~= asks);
}

/// How often the nonce of the sender has to be incremented.
pub open spec fn due_increments(transaction: SignedTransaction) -> nat {
    if transaction.unsigned {
        0
    } else {
        1
    }
}

/// Whether the commands so far are those of an action that ended with the result: its changes were
/// taken back if and only if the result demands it.
pub open spec fn action_tallies(
    result: ActionResult<Seq<u8>>,
    commands: Seq<Command<Seq<u8>>>,
) -> bool {
    &&& closings(commands) <= count(commands, Kind::Checkpoint) <= 1
    &&& closings(commands) == 1 ==> (count(commands, Kind::Revert) == 1 <==> reverts(result))
    &&& closings(commands) == 0 ==> result is Err
    &&& count(commands, Kind::Accrual) <= count(commands, Kind::Discard)
}

/// Whether the receipt is in order: the gas used is within what was bought and what the block
/// allows, and a transaction without effects has failed and used all its gas.
pub open spec fn receipt_in_order(
    executive: Executive,
    transaction: SignedTransaction,
    receipt: Outcome<Seq<u8>>,
) -> bool {
    &&& receipt.gas == transaction.gas
    &&& receipt.gas_used@ <= receipt.gas@
    &&& receipt.refunded@ <= receipt.gas_used@
    &&& receipt.cumulative_gas_used@ == executive.info.gas_used@ + receipt.gas_used@
    &&& receipt.cumulative_gas_used@ <= executive.info.gas_limit@
    &&& receipt.effects is None ==> {
        &&& receipt.exception is Some
        &&& receipt.gas_used == receipt.gas
        &&& receipt.refunded@ == 0
    }
}

/// Whether commands and questions so far are those of a transaction that is where it is.
pub open spec fn transact_tallies(
    run: TransactRun<Seq<u8>>,
    commands: Seq<Command<Seq<u8>>>,
    asks: Seq<TransactAsk<Seq<u8>>>,
) -> bool {
    let t = run.transaction;
    let started = commands.len() > 0 && commands[0] is NewSubstate;
    let paid = {
        &&& started
        &&& increments(asks) == due_increments(t)
        &&& charges(asks) == t.gas_cost()
    };
    match run.stage {
        TransactStage::VirtualBalance => false,
        TransactStage::TopUp { .. } => false,
        TransactStage::IncNonce { .. } => {
            &&& started && commands.len() == 1
            &&& increments(asks) == 0
            &&& charges(asks) == 0
            &&& credits(asks) == 0
            &&& !t.unsigned
        },
        TransactStage::Charge { .. } => {
            &&& started && commands.len() == 1
            &&& increments(asks) == due_increments(t)
            &&& charges(asks) == 0
            &&& credits(asks) == 0
        },
        TransactStage::Code { .. } => paid && commands.len() == 1 && credits(asks) == 0,
        TransactStage::CodeHash { .. } => paid && commands.len() == 1 && credits(asks) == 0,
        TransactStage::Creating(action) => {
            &&& paid
            &&& credits(asks) == 0
            &&& create_tallies(action, commands.skip(1))
        },
        TransactStage::Calling(action) => {
            &&& paid
            &&& credits(asks) == 0
            &&& call_tallies(action, commands.skip(1))
        },
        TransactStage::Finalizing(last) => {
            &&& paid
            &&& action_tallies(last.result, commands)
            &&& match last.stage {
                FinalizeStage::Fees { settlement, .. } => credits(asks) == settlement.refund_value@,
                FinalizeStage::Touched { settlement, .. } => credits(asks)
                    == settlement.refund_value@ + settlement.fees_value@,
                FinalizeStage::Garbage { settlement, .. } => credits(asks)
                    == settlement.refund_value@ + settlement.fees_value@,
                _ => credits(asks) == 0,
            }
        },
        TransactStage::Done(Ok(receipt)) => {
            &&& paid
            &&& credits(asks) == t.gas_cost()
            &&& receipt_in_order(run.executive, t, receipt)
            &&& closings(commands) <= count(commands, Kind::Checkpoint) <= 1
            &&& receipt.exception is None ==> count(commands, Kind::Discard) == 1 && count(
                commands,
                Kind::Revert,
            ) == 0
            &&& receipt.exception is Some ==> count(commands, Kind::Discard) == 0 && count(
                commands,
                Kind::Accrual,
            ) == 0
        },
        TransactStage::Done(Err(_)) => {
            &&& started || commands.len() == 0
            &&& commands.len() == 0 ==> forall|i: int|
                0 <= i < asks.len() ==> !changes_state(#[trigger] asks[i])
        },
        _ => {
            &&& commands.len() == 0
            &&& increments(asks) == 0
            &&& charges(asks) == 0
            &&& credits(asks) == 0
            &&& forall|i: int| 0 <= i < asks.len() ==> !changes_state(#[trigger] asks[i])
        },
    }
}

/// A step of the checks keeps the tallies.
#[verifier::rlimit(40)]
proof fn lemma_checks_step_tallies(
    run: TransactRun<Seq<u8>>,
    commands: Seq<Command<Seq<u8>>>,
    asks: Seq<TransactAsk<Seq<u8>>>,
    reply: TransactReply<Seq<u8>>,
)
    requires
        !run.stage.is_paid(),
        run.wf(),
        transact_tallies(run, commands, asks),
        run.accepts(reply),
    ensures
        transact_tallies(
            run.next(reply).0,
            commands + run.next(reply).1,
            asks.push(run.asks()->0),
        ),
{
    broadcast use group_words;

    reveal(TransactRun::checks_next);
    lemma_ledger_push(asks, run.asks()->0);
    assert(commands + Seq::<Command<Seq<u8>>>::empty() =~= commands);
    assert(commands.len() == 1 ==> commands.skip(1) =~= Seq::empty());
}

/// The start of a substate counts as nothing.
proof fn lemma_count_after_start(commands: Seq<Command<Seq<u8>>>)
    requires
        commands.len() > 0,
        commands[0] is NewSubstate,
    ensures
        forall|kind: Kind|
            #[trigger] count(commands, kind) == count(commands.skip(1), kind),
{
    broadcast use group_counts;

    assert forall|kind: Kind| #[trigger] count(commands, kind) == count(commands.skip(1), kind) by {
        assert(commands =~= commands.take(1) + commands.skip(1));
        assert(count(commands.take(1) + commands.skip(1), kind) == count(commands.take(1), kind)
            + count(commands.skip(1), kind));
    }
}

/// The removal of accounts counts as nothing else.
proof fn lemma_killings_count(commands: Seq<Command<Seq<u8>>>, suicides: Seq<Address>)
    ensures
        forall|kind: Kind|
            kind != Kind::Removal ==> #[trigger] count(
                commands + FinalizeRun::killings(suicides),
                kind,
            ) == count(commands, kind),
    decreases suicides.len(),
{
    broadcast use group_counts;

    assert forall|kind: Kind| kind != Kind::Removal implies #[trigger] count(
        commands + FinalizeRun::killings(suicides),
        kind,
    ) == count(commands, kind) by {
        let all = FinalizeRun::killings(suicides);
        if suicides.len() > 0 {
            lemma_killings_count(commands, suicides.drop_last());
            assert(all.drop_last() =~= FinalizeRun::killings(suicides.drop_last()));
            assert(count(commands + all.drop_last(), kind) == count(commands, kind));
        }
    }
}

/// A step of a transaction that looks for code keeps the tallies.
proof fn lemma_code_step_tallies(
    run: TransactRun<Seq<u8>>,
    commands: Seq<Command<Seq<u8>>>,
    asks: Seq<TransactAsk<Seq<u8>>>,
    reply: TransactReply<Seq<u8>>,
)
    requires
        run.wf(),
        transact_tallies(run, commands, asks),
        run.accepts(reply),
        run.stage is Code || run.stage is CodeHash,
    ensures
        transact_tallies(
            run.next(reply).0,
            commands + run.next(reply).1,
            asks.push(run.asks()->0),
        ),
{
    reveal(TransactRun::execution_next);
    lemma_ledger_push(asks, run.asks()->0);
    assert(commands + Seq::<Command<Seq<u8>>>::empty() =~= commands);
    if let (
        TransactStage::CodeHash { admission, callee, code },
        TransactReply::Hash(Ok(code_hash)),
    ) = (run.stage, reply) {
        let params = run.call_params(admission, callee, code, code_hash);
        let output = crate::bytes::BytesRef::Flexible(Seq::<u8>::empty());
        lemma_call_start_tallies(run.executive, params, output);
        let first = CallRun::begin(run.executive, params, output).1;
        assert((commands + first).skip(1) =~= first);
        lemma_count_after_start(commands + first);
    }
}

/// A step of a transaction's creation keeps the tallies.
proof fn lemma_creating_step_tallies(
    run: TransactRun<Seq<u8>>,
    commands: Seq<Command<Seq<u8>>>,
    asks: Seq<TransactAsk<Seq<u8>>>,
    reply: TransactReply<Seq<u8>>,
)
    requires
        run.wf(),
        transact_tallies(run, commands, asks),
        run.accepts(reply),
        run.stage is Creating,
    ensures
        transact_tallies(
            run.next(reply).0,
            commands + run.next(reply).1,
            asks.push(run.asks()->0),
        ),
{
    reveal(TransactRun::execution_next);
    lemma_ledger_push(asks, run.asks()->0);
    if let (TransactStage::Creating(action), TransactReply::Act(answer)) = (run.stage, reply) {
        lemma_create_step_tallies(action, commands.skip(1), answer);
        let more = action.next(answer).1;
        assert((commands + more).skip(1) =~= commands.skip(1) + more);
        lemma_count_after_start(commands + more);
    }
}

/// A step of a transaction's call keeps the tallies.
proof fn lemma_calling_step_tallies(
    run: TransactRun<Seq<u8>>,
    commands: Seq<Command<Seq<u8>>>,
    asks: Seq<TransactAsk<Seq<u8>>>,
    reply: TransactReply<Seq<u8>>,
)
    requires
        run.wf(),
        transact_tallies(run, commands, asks),
        run.accepts(reply),
        run.stage is Calling,
    ensures
        transact_tallies(
            run.next(reply).0,
            commands + run.next(reply).1,
            asks.push(run.asks()->0),
        ),
{
    reveal(TransactRun::execution_next);
    lemma_ledger_push(asks, run.asks()->0);
    if let (TransactStage::Calling(action), TransactReply::Act(answer)) = (run.stage, reply) {
        lemma_call_step_tallies(action, commands.skip(1), answer);
        let more = action.next(answer).1;
        assert((commands + more).skip(1) =~= commands.skip(1) + more);
        lemma_count_after_start(commands + more);
    }
}

/// A receipt of a finalization that has settled the gas is in order.
proof fn lemma_receipt_in_order(run: FinalizeRun<Seq<u8>>)
    requires
        run.wf(),
        run.stage is Garbage,
        run.executive.info.gas_used@ + run.transaction.gas@ <= run.executive.info.gas_limit@,
    ensures
        ({
            let substate = run.stage->Garbage_substate;
            let settled = run.stage->Garbage_settlement;
            &&& settled.refund_value@ + settled.fees_value@ == run.transaction.gas_cost()
            &&& run.outcome(substate.effects, settled) matches Ok(receipt) ==> {
                &&& receipt_in_order(run.executive, run.transaction, receipt)
                &&& (receipt.exception is Some <==> reverts(run.result))
            }
        }),
{
    broadcast use group_words;

    let t = run.transaction;
    let substate = run.stage->Garbage_substate;
    let unused = crate::finalize::unused_gas(run.result)@;
    law_gas_is_conserved(t.gas@, t.gas_price@, unused, run.earned(substate));
    law_at_most_half_is_refunded(t.gas@, t.gas_price@, unused, run.earned(substate));
}

/// A step of a transaction's finalization keeps the tallies.
#[verifier::rlimit(40)]
proof fn lemma_finalizing_step_tallies(
    run: TransactRun<Seq<u8>>,
    commands: Seq<Command<Seq<u8>>>,
    asks: Seq<TransactAsk<Seq<u8>>>,
    reply: TransactReply<Seq<u8>>,
)
    requires
        run.wf(),
        transact_tallies(run, commands, asks),
        run.accepts(reply),
        run.stage is Finalizing,
    ensures
        transact_tallies(
            run.next(reply).0,
            commands + run.next(reply).1,
            asks.push(run.asks()->0),
        ),
{
    reveal(TransactRun::execution_next);
    lemma_ledger_push(asks, run.asks()->0);
    assert(commands + Seq::<Command<Seq<u8>>>::empty() =~= commands);
    if let TransactStage::Finalizing(last) = run.stage {
        if let FinalizeStage::Garbage { .. } = last.stage {
            lemma_receipt_in_order(last);
        }
        if let FinalizeStage::Fees { substate, .. } = last.stage {
            lemma_killings_count(commands, substate.suicides@);
        }
    }
}

/// A step of a transaction keeps the tallies.
proof fn lemma_transact_step_tallies(
    run: TransactRun<Seq<u8>>,
    commands: Seq<Command<Seq<u8>>>,
    asks: Seq<TransactAsk<Seq<u8>>>,
    reply: TransactReply<Seq<u8>>,
)
    requires
        run.wf(),
        transact_tallies(run, commands, asks),
        run.accepts(reply),
    ensures
        transact_tallies(
            run.next(reply).0,
            commands + run.next(reply).1,
            asks.push(run.asks()->0),
        ),
{
    match run.stage {
        TransactStage::Code { .. } => lemma_code_step_tallies(run, commands, asks, reply),
        TransactStage::CodeHash { .. } => lemma_code_step_tallies(run, commands, asks, reply),
        TransactStage::Creating(_) => lemma_creating_step_tallies(run, commands, asks, reply),
        TransactStage::Calling(_) => lemma_calling_step_tallies(run, commands, asks, reply),
        TransactStage::Finalizing(_) => lemma_finalizing_step_tallies(run, commands, asks, reply),
        _ => lemma_checks_step_tallies(run, commands, asks, reply),
    }
}

/// A step of the checks keeps what the stages rely on, and the transaction stays the same.
#[verifier::rlimit(40)]
proof fn lemma_checks_step_wf(run: TransactRun<Seq<u8>>, reply: TransactReply<Seq<u8>>)
    requires
        !run.stage.is_paid(),
        run.wf(),
        run.accepts(reply),
    ensures
        run.next(reply).0.wf(),
        run.next(reply).0 == run.at(run.next(reply).0.stage),
{
    broadcast use group_words;

    reveal(TransactRun::checks_next);
}

/// A step of the execution keeps what the stages rely on, and the transaction stays the same.
#[verifier::rlimit(40)]
proof fn lemma_execution_step_wf(run: TransactRun<Seq<u8>>, reply: TransactReply<Seq<u8>>)
    requires
        run.stage.is_paid(),
        run.wf(),
        run.accepts(reply),
    ensures
        run.next(reply).0.wf(),
        run.next(reply).0 == run.at(run.next(reply).0.stage),
{
    reveal(TransactRun::execution_next);
}

/// What holds of a transaction on its way from its start.
#[verifier::opaque]
pub open spec fn transact_invariant(
    start: TransactRun<Seq<u8>>,
    run: TransactRun<Seq<u8>>,
    commands: Seq<Command<Seq<u8>>>,
    asks: Seq<TransactAsk<Seq<u8>>>,
) -> bool {
    &&& run.wf()
    &&& run.executive == start.executive
    &&& run.transaction == start.transaction
    &&& run.check_nonce == start.check_nonce
    &&& run.output_from_create == start.output_from_create
    &&& transact_tallies(run, commands, asks)
}

/// A step keeps what holds of a transaction.
proof fn lemma_transact_step(
    start: TransactRun<Seq<u8>>,
    run: TransactRun<Seq<u8>>,
    commands: Seq<Command<Seq<u8>>>,
    asks: Seq<TransactAsk<Seq<u8>>>,
    reply: TransactReply<Seq<u8>>,
)
    requires
        transact_invariant(start, run, commands, asks),
        run.accepts(reply),
    ensures
        transact_invariant(
            start,
            run.next(reply).0,
            commands + run.next(reply).1,
            asks.push(run.asks()->0),
        ),
{
    reveal(transact_invariant);
    if run.stage.is_paid() {
        lemma_execution_step_wf(run, reply);
    } else {
        lemma_checks_step_wf(run, reply);
    }
    lemma_transact_step_tallies(run, commands, asks, reply);
}

/// What holds of a transaction after any conversation.
proof fn lemma_transact_history(start: TransactRun<Seq<u8>>, replies: Seq<TransactReply<Seq<u8>>>)
    requires
        conversation(start, replies),
        start.stage is Nonce,
    ensures
        transact_invariant(
            start,
            after(start, replies),
            commanded(start, replies),
            asked(start, replies),
        ),
    decreases replies.len(),
{
    if replies.len() > 0 {
        let before = replies.drop_last();
        lemma_transact_history(start, before);
        lemma_transact_step(
            start,
            after(start, before),
            commanded(start, before),
            asked(start, before),
            replies.last(),
        );
    } else {
        reveal(transact_invariant);
    }
}

/// Once a transaction is executed it ends with an error only where the host failed.
#[verifier::rlimit(40)]
proof fn lemma_executed_step_fails_by_host(
    start: TransactRun<Seq<u8>>,
    run: TransactRun<Seq<u8>>,
    commands: Seq<Command<Seq<u8>>>,
    asks: Seq<TransactAsk<Seq<u8>>>,
    reply: TransactReply<Seq<u8>>,
)
    requires
        transact_invariant(start, run, commands, asks),
        run.accepts(reply),
        (commands + run.next(reply).1).len() > 0,
        run.next(reply).0.stage is Done,
        run.next(reply).0.stage->Done_0 is Err,
    ensures
        run.next(reply).0.stage->Done_0->Err_0 is Internal,
{
    reveal(TransactRun::checks_next);
    reveal(TransactRun::execution_next);
    reveal(transact_invariant);
}

/// A transaction that is rejected, and not for a failure of the host, changes nothing: nothing was
/// asked that changes the state, and the host had nothing to do. So from the moment on that
/// something changes, a transaction is no longer invalid.
pub proof fn law_rejected_transaction_changes_nothing(
    start: TransactRun<Seq<u8>>,
    replies: Seq<TransactReply<Seq<u8>>>,
)
    requires
        start.stage is Nonce,
        conversation(start, replies),
        after(start, replies).stage is Done,
        after(start, replies).stage->Done_0 is Err,
        !(after(start, replies).stage->Done_0->Err_0 is Internal),
    ensures
        commanded(start, replies).len() == 0,
        forall|i: int|
            0 <= i < replies.len() ==> !changes_state(#[trigger] asked(start, replies)[i]),
{
    lemma_asked_len(start, replies);
    lemma_transact_history(start, replies);
    if replies.len() > 0 {
        let before = replies.drop_last();
        lemma_transact_history(start, before);
        if commanded(start, replies).len() > 0 {
            lemma_executed_step_fails_by_host(
                start,
                after(start, before),
                commanded(start, before),
                asked(start, before),
                replies.last(),
            );
        }
    }
    reveal(transact_invariant);
}

/// A call or a creation starts only when the gas is paid for and the nonce of a signed sender was
/// incremented.
#[verifier::rlimit(40)]
pub proof fn law_gas_is_paid_first(
    start: TransactRun<Seq<u8>>,
    replies: Seq<TransactReply<Seq<u8>>>,
)
    requires
        start.stage is Nonce,
        conversation(start, replies),
    ensures
        forall|i: int|
            0 <= i < replies.len() && #[trigger] asked(start, replies)[i] is Act ==> {
                &&& charges(asked(start, replies.take(i))) == start.transaction.gas_cost()
                &&& increments(asked(start, replies.take(i))) == due_increments(start.transaction)
            },
{
    assert forall|i: int| 0 <= i < replies.len() && #[trigger] asked(start, replies)[i] is Act implies {
        &&& charges(asked(start, replies.take(i))) == start.transaction.gas_cost()
        &&& increments(asked(start, replies.take(i))) == due_increments(start.transaction)
    } by {
        lemma_turn(start, replies, i);
        lemma_transact_history(start, replies.take(i));
        reveal(transact_invariant);
    }
}

/// The books balance: of a transaction that was executed, what the sender paid for gas is what the
/// sender got back and the author was paid, together.
pub proof fn law_the_books_balance(
    start: TransactRun<Seq<u8>>,
    replies: Seq<TransactReply<Seq<u8>>>,
)
    requires
        start.stage is Nonce,
        conversation(start, replies),
        after(start, replies).stage is Done,
        after(start, replies).stage->Done_0 is Ok,
    ensures
        charges(asked(start, replies)) == start.transaction.gas_cost(),
        credits(asked(start, replies)) == start.transaction.gas_cost(),
{
    lemma_transact_history(start, replies);
    reveal(transact_invariant);
}

/// Whether the question is about the right account: gas is paid by the sender alone, what is given
/// back goes to the sender, and the fees go to the author of the block.
pub open spec fn is_about_sender_or_author(
    executive: Executive,
    transaction: SignedTransaction,
    ask: TransactAsk<Seq<u8>>,
) -> bool {
    match ask {
        TransactAsk::SubBalance { address, value, cleanup } => {
            &&& cleanup == Cleanup::OfSubstate
            &&& address == transaction.sender
            &&& value@ == transaction.gas_cost()
        },
        TransactAsk::AddBalance { address, cleanup, .. } => match cleanup {
            Cleanup::NoEmpty => address == transaction.sender,
            Cleanup::OfSubstate => address == executive.info.author,
        },
        TransactAsk::IncNonce(address) => address == transaction.sender && !transaction.unsigned,
        _ => true,
    }
}

/// A transaction on its way asks about the right account.
#[verifier::rlimit(40)]
proof fn lemma_asks_about_sender_or_author(
    start: TransactRun<Seq<u8>>,
    run: TransactRun<Seq<u8>>,
    commands: Seq<Command<Seq<u8>>>,
    asks: Seq<TransactAsk<Seq<u8>>>,
)
    requires
        transact_invariant(start, run, commands, asks),
        run.asks() is Some,
    ensures
        is_about_sender_or_author(start.executive, start.transaction, run.asks()->0),
{
    reveal(transact_invariant);
}

/// Gas is paid by the sender alone; what is given back goes to the sender, and the fees go to the
/// author of the block. The nonce that is incremented is that of a signed sender.
pub proof fn law_only_sender_and_author_settle(
    start: TransactRun<Seq<u8>>,
    replies: Seq<TransactReply<Seq<u8>>>,
)
    requires
        start.stage is Nonce,
        conversation(start, replies),
    ensures
        forall|i: int|
            0 <= i < replies.len() ==> is_about_sender_or_author(
                start.executive,
                start.transaction,
                #[trigger] asked(start, replies)[i],
            ),
{
    assert forall|i: int| 0 <= i < replies.len() implies is_about_sender_or_author(
        start.executive,
        start.transaction,
        #[trigger] asked(start, replies)[i],
    ) by {
        let early = replies.take(i);
        lemma_turn(start, replies, i);
        lemma_transact_history(start, early);
        lemma_accepting_run_asks(after(start, early), replies[i]);
        lemma_asks_about_sender_or_author(
            start,
            after(start, early),
            commanded(start, early),
            asked(start, early),
        );
    }
}

/// A transaction that takes a reply has asked.
proof fn lemma_accepting_run_asks(run: TransactRun<Seq<u8>>, reply: TransactReply<Seq<u8>>)
    requires
        run.accepts(reply),
    ensures
        run.asks() is Some,
{
}

/// Two turns that follow each other: what is asked and answered first, and what is asked and
/// answered after that.
#[verifier::opaque]
spec fn turns(
    run: TransactRun<Seq<u8>>,
    asks: (TransactAsk<Seq<u8>>, TransactAsk<Seq<u8>>),
    replies: (TransactReply<Seq<u8>>, TransactReply<Seq<u8>>),
) -> bool {
    let later = run.next(replies.0).0;
    &&& run.accepts(replies.0)
    &&& asks.0 == run.asks()->0
    &&& later.accepts(replies.1)
    &&& asks.1 == later.asks()->0
}

/// A conversation has two such turns at every reply but the first.
proof fn lemma_turns(
    start: TransactRun<Seq<u8>>,
    replies: Seq<TransactReply<Seq<u8>>>,
    n: int,
)
    requires
        conversation(start, replies),
        0 < n < replies.len(),
    ensures
        turns(
            after(start, replies.take(n - 1)),
            (asked(start, replies)[n - 1], asked(start, replies)[n]),
            (replies[n - 1], replies[n]),
        ),
{
    lemma_turn(start, replies, n - 1);
    lemma_turn(start, replies, n);
    reveal(turns);
}

/// A transaction asks to remove accounts only where it was just told which were touched.
#[verifier::rlimit(40)]
proof fn lemma_touched_just_answered(
    run: TransactRun<Seq<u8>>,
    asks: (TransactAsk<Seq<u8>>, TransactAsk<Seq<u8>>),
    replies: (TransactReply<Seq<u8>>, TransactReply<Seq<u8>>),
)
    requires
        turns(run, asks, replies),
        asks.1 is KillGarbage,
    ensures
        asks.0 == TransactAsk::<Seq<u8>>::Touched,
        replies.0 == TransactReply::<Seq<u8>>::Touched(asks.1->KillGarbage_touched),
        asks.1->KillGarbage_touched@.no_duplicates(),
{
    reveal(TransactRun::checks_next);
    reveal(TransactRun::execution_next);
    reveal(turns);
}

/// The first question is not one to remove accounts.
proof fn lemma_garbage_not_first(
    start: TransactRun<Seq<u8>>,
    replies: Seq<TransactReply<Seq<u8>>>,
)
    requires
        start.stage is Nonce,
        conversation(start, replies),
        replies.len() > 0,
    ensures
        !(asked(start, replies)[0] is KillGarbage),
{
    lemma_turn(start, replies, 0);
}

/// Whether a question to remove accounts names those that the host has just named as touched.
pub open spec fn names_the_touched(
    asks: Seq<TransactAsk<Seq<u8>>>,
    replies: Seq<TransactReply<Seq<u8>>>,
    i: int,
) -> bool {
    asks[i] matches TransactAsk::KillGarbage { touched, .. } ==> {
        &&& i > 0
        &&& asks[i - 1] == TransactAsk::<Seq<u8>>::Touched
        &&& replies[i - 1] == TransactReply::<Seq<u8>>::Touched(touched)
        &&& touched@.no_duplicates()
    }
}

/// Empty and dust accounts are sought among the accounts that the host names as touched, right
/// after it was asked for them, and these are a set.
pub proof fn law_garbage_is_sought_among_the_touched(
    start: TransactRun<Seq<u8>>,
    replies: Seq<TransactReply<Seq<u8>>>,
)
    requires
        start.stage is Nonce,
        conversation(start, replies),
    ensures
        forall|i: int|
            0 <= i < replies.len() ==> #[trigger] names_the_touched(
                asked(start, replies),
                replies,
                i,
            ),
{
    let asks = asked(start, replies);
    assert forall|i: int| 0 <= i < replies.len() implies #[trigger] names_the_touched(
        asks,
        replies,
        i,
    ) by {
        if i == 0 {
            lemma_garbage_not_first(start, replies);
        } else if asks[i] is KillGarbage {
            lemma_turns(start, replies, i);
            lemma_touched_just_answered(
                after(start, replies.take(i - 1)),
                (asks[i - 1], asks[i]),
                (replies[i - 1], replies[i]),
            );
        }
    }
}

/// Of a transaction that was executed, the nonce of the sender was incremented once where the
/// transaction is signed, and not at all where it is not.
pub proof fn law_nonce_is_incremented_once(
    start: TransactRun<Seq<u8>>,
    replies: Seq<TransactReply<Seq<u8>>>,
)
    requires
        start.stage is Nonce,
        conversation(start, replies),
        after(start, replies).stage is Done,
        after(start, replies).stage->Done_0 is Ok,
    ensures
        increments(asked(start, replies)) == (if start.transaction.unsigned {
            0nat
        } else {
            1
        }),
{
    lemma_transact_history(start, replies);
    reveal(transact_invariant);
}

/// The receipt of a transaction: no more gas is used than was bought, at most half of it is
/// refunded, the block's gas limit is kept, and a failed action uses all gas and leaves nothing
/// behind.
pub proof fn law_receipt_is_in_order(
    start: TransactRun<Seq<u8>>,
    replies: Seq<TransactReply<Seq<u8>>>,
)
    requires
        start.stage is Nonce,
        conversation(start, replies),
        after(start, replies).stage is Done,
        after(start, replies).stage->Done_0 is Ok,
    ensures
        receipt_in_order(
            start.executive,
            start.transaction,
            after(start, replies).stage->Done_0->Ok_0,
        ),
{
    lemma_transact_history(start, replies);
    reveal(transact_invariant);
}

/// A transaction whose receipt shows no exception has kept the changes of its action, once. One
/// whose receipt shows an exception has kept none.
pub proof fn law_exceptions_keep_no_changes(
    start: TransactRun<Seq<u8>>,
    replies: Seq<TransactReply<Seq<u8>>>,
)
    requires
        start.stage is Nonce,
        conversation(start, replies),
        after(start, replies).stage is Done,
        after(start, replies).stage->Done_0 is Ok,
    ensures
        ({
            let commands = commanded(start, replies);
            let receipt = after(start, replies).stage->Done_0->Ok_0;
            &&& receipt.exception is None ==> count(commands, Kind::Discard) == 1 && count(
                commands,
                Kind::Revert,
            ) == 0
            &&& receipt.exception is Some ==> count(commands, Kind::Discard) == 0 && count(
                commands,
                Kind::Accrual,
            ) == 0
        }),
{
    lemma_transact_history(start, replies);
    reveal(transact_invariant);
}

/// The first thing that the host has to do for a transaction is to start its substate.
pub proof fn law_substate_comes_first(
    start: TransactRun<Seq<u8>>,
    replies: Seq<TransactReply<Seq<u8>>>,
)
    requires
        start.stage is Nonce,
        conversation(start, replies),
        commanded(start, replies).len() > 0,
    ensures
        commanded(start, replies)[0] is NewSubstate,
{
    lemma_transact_history(start, replies);
    reveal(transact_invariant);
}

/// How many replies a finalization can still have.
pub open spec fn finalization_replies_left(stage: FinalizeStage<Seq<u8>>) -> nat {
    match stage {
        FinalizeStage::Substate => 5,
        FinalizeStage::Refund { .. } => 4,
        FinalizeStage::Fees { .. } => 3,
        FinalizeStage::Touched { .. } => 2,
        FinalizeStage::Garbage { .. } => 1,
        FinalizeStage::Done(_) => 0,
    }
}

/// How many replies a call can still have.
pub open spec fn call_replies_left(stage: CallStage<Seq<u8>>) -> nat {
    match stage {
        CallStage::Expiry => 5,
        CallStage::Transfer => 4,
        CallStage::Builtin => 3,
        CallStage::BuiltinCost => 2,
        CallStage::BuiltinRun { .. } => 1,
        CallStage::Vm => 1,
        CallStage::Done(_) => 0,
    }
}

/// How many replies a creation can still have.
pub open spec fn creation_replies_left(stage: CreateStage<Seq<u8>>) -> nat {
    match stage {
        CreateStage::Occupied => 4,
        CreateStage::Balance { .. } => 3,
        CreateStage::Fund { .. } => 2,
        CreateStage::Vm => 1,
        CreateStage::Done(_) => 0,
    }
}

/// How many replies a transaction can still have.
pub open spec fn replies_left(stage: TransactStage<Seq<u8>>) -> nat {
    match stage {
        TransactStage::VirtualBalance => 21,
        TransactStage::TopUp { .. } => 20,
        TransactStage::Nonce => 19,
        TransactStage::Oasis { .. } => 18,
        TransactStage::GasRequired { .. } => 17,
        TransactStage::Exists { .. } => 16,
        TransactStage::Balance(_) => 15,
        TransactStage::IncNonce { .. } => 14,
        TransactStage::Charge { .. } => 13,
        TransactStage::Code { .. } => 12,
        TransactStage::CodeHash { .. } => 11,
        TransactStage::Creating(run) => 5 + creation_replies_left(run.stage),
        TransactStage::Calling(run) => 5 + call_replies_left(run.stage),
        TransactStage::Finalizing(run) => finalization_replies_left(run.stage),
        TransactStage::Done(_) => 0,
    }
}

/// A reply brings the checks nearer to their end.
proof fn lemma_checks_make_progress(run: TransactRun<Seq<u8>>, reply: TransactReply<Seq<u8>>)
    requires
        !run.stage.is_paid(),
        run.accepts(reply),
    ensures
        replies_left(run.next(reply).0.stage) < replies_left(run.stage),
{
    reveal(TransactRun::checks_next);
}

/// A reply brings the execution nearer to its end.
proof fn lemma_execution_makes_progress(run: TransactRun<Seq<u8>>, reply: TransactReply<Seq<u8>>)
    requires
        run.stage.is_paid(),
        run.accepts(reply),
    ensures
        replies_left(run.next(reply).0.stage) < replies_left(run.stage),
{
    reveal(TransactRun::execution_next);
}

/// Every reply brings a transaction nearer to its end.
pub proof fn law_every_reply_makes_progress(
    run: TransactRun<Seq<u8>>,
    reply: TransactReply<Seq<u8>>,
)
    requires
        run.accepts(reply),
    ensures
        replies_left(run.next(reply).0.stage) < replies_left(run.stage),
{
    if run.stage.is_paid() {
        lemma_execution_makes_progress(run, reply);
    } else {
        lemma_checks_make_progress(run, reply);
    }
}

/// A transaction ends after nineteen replies at most, and a virtual one after twenty-one.
pub proof fn law_transaction_ends(
    start: TransactRun<Seq<u8>>,
    replies: Seq<TransactReply<Seq<u8>>>,
)
    requires
        conversation(start, replies),
    ensures
        replies.len() + replies_left(after(start, replies).stage) <= replies_left(start.stage),
        start.stage is Nonce ==> replies.len() <= 19,
        start.stage is VirtualBalance ==> replies.len() <= 21,
    decreases replies.len(),
{
    if replies.len() > 0 {
        let before = replies.drop_last();
        law_transaction_ends(start, before);
        law_every_reply_makes_progress(after(start, before), replies.last());
    }
}

} // verus!
