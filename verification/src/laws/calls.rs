//! Laws of calls.
use crate::bytes::BytesRef;
use crate::call::{CallRun, CallStage};
use crate::executive::{reverts, Executive};
use crate::history::{after, asked, commanded, conversation, lemma_turn, Run};
use crate::laws::tally::{closings, count, group_counts, Kind};
use crate::protocol::{Ask, Cleanup, Command, OutputCopy, OutputPolicy, Reply};
use crate::uint::{group_words, U256};
use crate::vm::{ActionParams, ActionValue, CallType, FinalizationResult, VmError};
use vstd::prelude::*;

verus! {

/// The call as it starts.
pub open spec fn call_start(
    executive: Executive,
    params: ActionParams,
    output: BytesRef<Seq<u8>>,
) -> CallRun<Seq<u8>> {
    CallRun::begin(executive, params, output).0
}

/// All that the host had to do for a call, from its start on.
pub open spec fn call_commands(
    executive: Executive,
    params: ActionParams,
    output: BytesRef<Seq<u8>>,
    replies: Seq<Reply<Seq<u8>>>,
) -> Seq<Command<Seq<u8>>> {
    CallRun::begin(executive, params, output).1 + commanded(
        call_start(executive, params, output),
        replies,
    )
}

/// Whether the commands so far are those of a call that is where it is: its checkpoint is open
/// while it is on its way, and closed as the result demands when it is over. It stays open where
/// the value could not be moved.
pub open spec fn call_tallies(run: CallRun<Seq<u8>>, commands: Seq<Command<Seq<u8>>>) -> bool {
    &&& count(commands, Kind::Contract) == 0
    &&& count(commands, Kind::Removal) == 0
    &&& match run.stage {
        CallStage::Expiry => {
            &&& count(commands, Kind::Checkpoint) == 0
            &&& closings(commands) == 0
            &&& count(commands, Kind::Accrual) == 0
            &&& count(commands, Kind::Trace) == 0
        },
        CallStage::Done(result) => {
            &&& count(commands, Kind::Checkpoint) <= 1
            &&& closings(commands) <= count(commands, Kind::Checkpoint)
            &&& closings(commands) == 1 ==> (count(commands, Kind::Revert) == 1 <==> reverts(
                result,
            ))
            &&& closings(commands) == 0 ==> result is Err
            &&& count(commands, Kind::Accrual) <= count(commands, Kind::Discard)
            &&& count(commands, Kind::Trace) <= 1
            &&& result is Ok && run.executive.depth == 0 ==> count(commands, Kind::Trace) == 1
        },
        _ => {
            &&& count(commands, Kind::Checkpoint) == 1
            &&& closings(commands) == 0
            &&& count(commands, Kind::Accrual) == 0
            &&& count(commands, Kind::Trace) == 0
        },
    }
}

/// The step after the code has run keeps the tallies.
proof fn lemma_code_step_tallies(
    run: CallRun<Seq<u8>>,
    commands: Seq<Command<Seq<u8>>>,
    reply: Reply<Seq<u8>>,
)
    requires
        run.stage is Vm,
        call_tallies(run, commands),
        run.accepts(reply),
    ensures
        call_tallies(run.next(reply).0, commands + run.next(reply).1),
{
    broadcast use {group_counts, group_words};

}

/// A step of a built-in contract keeps the tallies.
proof fn lemma_builtin_step_tallies(
    run: CallRun<Seq<u8>>,
    commands: Seq<Command<Seq<u8>>>,
    reply: Reply<Seq<u8>>,
)
    requires
        run.stage is BuiltinCost || run.stage is BuiltinRun,
        call_tallies(run, commands),
        run.accepts(reply),
    ensures
        call_tallies(run.next(reply).0, commands + run.next(reply).1),
{
    broadcast use {group_counts, group_words};

}

/// A step before anything runs keeps the tallies.
proof fn lemma_early_step_tallies(
    run: CallRun<Seq<u8>>,
    commands: Seq<Command<Seq<u8>>>,
    reply: Reply<Seq<u8>>,
)
    requires
        run.stage is Expiry || run.stage is Transfer || run.stage is Builtin,
        call_tallies(run, commands),
        run.accepts(reply),
    ensures
        call_tallies(run.next(reply).0, commands + run.next(reply).1),
{
    broadcast use {group_counts, group_words};

}

/// A step of a call keeps its tallies.
pub proof fn lemma_call_step_tallies(
    run: CallRun<Seq<u8>>,
    commands: Seq<Command<Seq<u8>>>,
    reply: Reply<Seq<u8>>,
)
    requires
        call_tallies(run, commands),
        run.accepts(reply),
    ensures
        call_tallies(run.next(reply).0, commands + run.next(reply).1),
{
    match run.stage {
        CallStage::Vm => lemma_code_step_tallies(run, commands, reply),
        CallStage::BuiltinCost => lemma_builtin_step_tallies(run, commands, reply),
        CallStage::BuiltinRun { .. } => lemma_builtin_step_tallies(run, commands, reply),
        _ => lemma_early_step_tallies(run, commands, reply),
    }
}

/// A call starts with its tallies in order.
pub proof fn lemma_call_start_tallies(
    executive: Executive,
    params: ActionParams,
    output: BytesRef<Seq<u8>>,
)
    ensures
        call_tallies(
            call_start(executive, params, output),
            CallRun::begin(executive, params, output).1,
        ),
{
    broadcast use {group_counts, group_words};

}

/// A step after which the call is over with its checkpoint open is a failure to move the value.
#[verifier::rlimit(40)]
proof fn lemma_call_step_leaks(
    run: CallRun<Seq<u8>>,
    commands: Seq<Command<Seq<u8>>>,
    reply: Reply<Seq<u8>>,
)
    requires
        call_tallies(run, commands),
        run.accepts(reply),
        run.next(reply).0.stage is Done,
        closings(commands + run.next(reply).1) < count(
            commands + run.next(reply).1,
            Kind::Checkpoint,
        ),
    ensures
        reply is Unit,
        reply->Unit_0 is Err,
        run.next(reply).0.stage->Done_0 == Err::<FinalizationResult<Seq<u8>>, VmError>(
            reply->Unit_0->Err_0,
        ),
{
    broadcast use {group_counts, group_words};

}

/// The place of a stage in the order of stages.
pub open spec fn call_stage_rank(stage: CallStage<Seq<u8>>) -> nat {
    match stage {
        CallStage::Expiry => 0,
        CallStage::Transfer => 1,
        CallStage::Builtin => 2,
        CallStage::BuiltinCost => 3,
        CallStage::BuiltinRun { .. } => 4,
        CallStage::Vm => 5,
        CallStage::Done(_) => 6,
    }
}

/// The place of a question in the order in which a call asks.
pub open spec fn call_ask_rank(ask: Ask<Seq<u8>>) -> nat {
    match ask {
        Ask::StorageExpiry(_) => 0,
        Ask::TransferBalance { .. } => 1,
        Ask::Builtin { .. } => 2,
        Ask::BuiltinCost { .. } => 3,
        Ask::BuiltinExecute { .. } => 4,
        Ask::ExecVm(_) => 5,
        _ => 6,
    }
}

/// How many replies a call can have had when it is where it is.
pub open spec fn call_reply_bound(stage: CallStage<Seq<u8>>) -> nat {
    match stage {
        CallStage::Expiry => 0,
        CallStage::Transfer => 1,
        CallStage::Builtin => 2,
        CallStage::BuiltinCost => 3,
        CallStage::BuiltinRun { .. } => 4,
        CallStage::Vm => 3,
        CallStage::Done(_) => 5,
    }
}

/// Whether the value of the call has moved by the replies.
pub open spec fn value_moved(
    params: ActionParams,
    questions: Seq<Ask<Seq<u8>>>,
    replies: Seq<Reply<Seq<u8>>>,
) -> bool {
    exists|j: int|
        0 <= j < questions.len() && j < replies.len() && #[trigger] questions[j]
            == Ask::<Seq<u8>>::TransferBalance {
            from: params.sender,
            to: params.address,
            value: params.value.amount(),
            cleanup: Cleanup::OfSubstate,
        } && (replies[j] matches Reply::Unit(Ok(_)))
}

/// What holds of a call after any conversation.
#[verifier::rlimit(40)]
proof fn lemma_call_history(
    executive: Executive,
    params: ActionParams,
    output: BytesRef<Seq<u8>>,
    replies: Seq<Reply<Seq<u8>>>,
)
    requires
        conversation(call_start(executive, params, output), replies),
    ensures
        ({
            let start = call_start(executive, params, output);
            let run = after(start, replies);
            let questions = asked(start, replies);
            &&& run.executive == executive
            &&& run.params == params
            &&& run.wf()
            &&& output.same_shape(run.output)
            &&& call_tallies(run, call_commands(executive, params, output, replies))
            &&& questions.len() == replies.len()
            &&& replies.len() <= call_reply_bound(run.stage)
            &&& forall|i: int|
                0 <= i < questions.len() ==> call_ask_rank(#[trigger] questions[i])
                    < call_stage_rank(run.stage)
            &&& run.stage is Transfer ==> params.value is Transfer
            &&& params.value is Transfer && 2 <= call_stage_rank(run.stage) <= 5 ==> value_moved(
                params,
                questions,
                replies,
            )
            &&& run.stage matches CallStage::Done(Ok(finished)) ==> (finished.apply_state
                ==> finished.gas_left@ <= params.gas@)
        }),
    decreases replies.len(),
{
    broadcast use group_words;

    let start = call_start(executive, params, output);
    let first = CallRun::begin(executive, params, output).1;
    if replies.len() == 0 {
        lemma_call_start_tallies(executive, params, output);
        assert(first + commanded(start, replies) =~= first);
    } else {
        let before = replies.drop_last();
        lemma_call_history(executive, params, output, before);
        let run = after(start, before);
        let reply = replies.last();
        lemma_call_step_tallies(run, first + commanded(start, before), reply);
        assert(first + (commanded(start, before) + run.next(reply).1) =~= (first + commanded(
            start,
            before,
        )) + run.next(reply).1);
        let questions = asked(start, replies);
        assert(forall|i: int|
            0 <= i < before.len() ==> #[trigger] questions[i] == asked(start, before)[i]);
        let later = run.next(reply).0;
        if params.value is Transfer && 2 <= call_stage_rank(later.stage) <= 5 {
            if run.stage is Transfer {
                assert(questions[before.len() as int] == run.asks()->0);
                assert(replies[before.len() as int] == reply);
            } else {
                assert(run.stage !is Expiry);
                let j = choose|j: int|
                    0 <= j < asked(start, before).len() && j < before.len() && #[trigger] asked(
                        start,
                        before,
                    )[j] == Ask::<Seq<u8>>::TransferBalance {
                        from: params.sender,
                        to: params.address,
                        value: params.value.amount(),
                        cleanup: Cleanup::OfSubstate,
                    } && (before[j] matches Reply::Unit(Ok(_)));
                assert(questions[j] == asked(start, before)[j]);
                assert(replies[j] == before[j]);
            }
        }
    }
}

/// A call takes at most one checkpoint and closes it at most once. When it is over, the changes
/// were taken back if and only if the result demands it, and a part of the substate was merged
/// only where the changes were kept. A checkpoint stays open only where moving the value failed,
/// and that failure is then the result.
pub proof fn law_call_closes_its_checkpoint(
    executive: Executive,
    params: ActionParams,
    output: BytesRef<Seq<u8>>,
    replies: Seq<Reply<Seq<u8>>>,
)
    requires
        conversation(call_start(executive, params, output), replies),
    ensures
        ({
            let run = after(call_start(executive, params, output), replies);
            let commands = call_commands(executive, params, output, replies);
            &&& closings(commands) <= count(commands, Kind::Checkpoint) <= 1
            &&& run.stage matches CallStage::Done(result) ==> {
                &&& closings(commands) == 1 ==> (count(commands, Kind::Revert) == 1 <==> reverts(
                    result,
                ))
                &&& count(commands, Kind::Accrual) <= count(commands, Kind::Discard)
                &&& closings(commands) < count(commands, Kind::Checkpoint) ==> {
                    &&& replies.len() > 0
                    &&& replies.last() matches Reply::Unit(Err(error))
                    &&& result == Err::<FinalizationResult<Seq<u8>>, VmError>(error)
                }
            }
        }),
{
    lemma_call_history(executive, params, output, replies);
    if replies.len() > 0 {
        let start = call_start(executive, params, output);
        let first = CallRun::begin(executive, params, output).1;
        let before = replies.drop_last();
        lemma_call_history(executive, params, output, before);
        let run = after(start, before);
        assert(first + (commanded(start, before) + run.next(replies.last()).1) =~= (first
            + commanded(start, before)) + run.next(replies.last()).1);
        let commands = call_commands(executive, params, output, replies);
        if run.next(replies.last()).0.stage is Done && closings(commands) < count(
            commands,
            Kind::Checkpoint,
        ) {
            lemma_call_step_leaks(run, first + commanded(start, before), replies.last());
        }
    }
}

/// A call that ended well has closed its checkpoint by keeping the changes, or by taking them back
/// where the code asked for it.
pub proof fn law_call_that_succeeds_is_closed(
    executive: Executive,
    params: ActionParams,
    output: BytesRef<Seq<u8>>,
    replies: Seq<Reply<Seq<u8>>>,
)
    requires
        conversation(call_start(executive, params, output), replies),
    ensures
        ({
            let run = after(call_start(executive, params, output), replies);
            let commands = call_commands(executive, params, output, replies);
            run.stage matches CallStage::Done(Ok(finished)) ==> {
                &&& count(commands, Kind::Checkpoint) == 1
                &&& count(commands, Kind::Discard) == (if finished.apply_state {
                    1nat
                } else {
                    0
                })
                &&& count(commands, Kind::Revert) == (if finished.apply_state {
                    0nat
                } else {
                    1
                })
            }
        }),
{
    lemma_call_history(executive, params, output, replies);
}

/// Where the state must stay as it is, a call that would move value fails at once: nothing is
/// asked and nothing is done.
pub proof fn law_static_call_moves_no_value(
    executive: Executive,
    params: ActionParams,
    output: BytesRef<Seq<u8>>,
    replies: Seq<Reply<Seq<u8>>>,
)
    requires
        conversation(call_start(executive, params, output), replies),
        params.call_type == CallType::StaticCall || (params.call_type == CallType::Call
            && executive.static_flag),
        params.value.amount()@ > 0,
    ensures
        replies.len() == 0,
        call_start(executive, params, output).stage == CallStage::<Seq<u8>>::Done(
            Err(VmError::MutableCallInStaticContext),
        ),
        call_commands(executive, params, output, replies).len() == 0,
{
    lemma_call_history(executive, params, output, replies);
    if replies.len() > 0 {
        lemma_turn(call_start(executive, params, output), replies, 0);
    }
}

/// Code runs only while the storage of its contract has not expired: the expiry is the first thing
/// that is asked, and where it has passed, or cannot be known, the call is over. Nothing has
/// changed then.
pub proof fn law_expired_code_does_not_run(
    executive: Executive,
    params: ActionParams,
    output: BytesRef<Seq<u8>>,
    replies: Seq<Reply<Seq<u8>>>,
)
    requires
        conversation(call_start(executive, params, output), replies),
        params.code is Some && params.code->0@.len() > 0,
        replies.len() > 0,
    ensures
        asked(call_start(executive, params, output), replies)[0] == Ask::<Seq<u8>>::StorageExpiry(
            params.code_address,
        ),
        replies.len() > 1 ==> (replies[0] matches Reply::Time(Ok(expiry)) && executive.info.timestamp
            <= expiry),
        replies[0] matches Reply::Time(Ok(expiry)) ==> (expiry < executive.info.timestamp ==> {
            &&& after(call_start(executive, params, output), replies).stage
                == CallStage::<Seq<u8>>::Done(Err(VmError::ContractExpired))
            &&& count(
                call_commands(executive, params, output, replies),
                Kind::Checkpoint,
            ) == 0
        }),
{
    broadcast use group_counts;

    let start = call_start(executive, params, output);
    let first = CallRun::begin(executive, params, output).1;
    lemma_call_history(executive, params, output, replies);
    lemma_turn(start, replies, 0);
    if executive.refuses_call(params) {
        law_static_call_moves_no_value(executive, params, output, replies);
    }
    if replies.len() > 1 {
        lemma_turn(start, replies, 1);
    } else {
        assert(replies =~= replies.take(1));
        assert(commanded(start, replies.take(0)) =~= Seq::empty());
        assert(first + commanded(start, replies) =~= start.next(replies[0]).1);
    }
}

/// A call does not finalize the transaction: it removes no account, and makes no contract itself.
pub proof fn law_call_does_not_finalize(
    executive: Executive,
    params: ActionParams,
    output: BytesRef<Seq<u8>>,
    replies: Seq<Reply<Seq<u8>>>,
)
    requires
        conversation(call_start(executive, params, output), replies),
    ensures
        count(call_commands(executive, params, output, replies), Kind::Removal) == 0,
        count(call_commands(executive, params, output, replies), Kind::Contract) == 0,
{
    lemma_call_history(executive, params, output, replies);
}

/// A call that succeeds leaves no more gas than it was given.
pub proof fn law_call_makes_no_gas(
    executive: Executive,
    params: ActionParams,
    output: BytesRef<Seq<u8>>,
    replies: Seq<Reply<Seq<u8>>>,
)
    requires
        conversation(call_start(executive, params, output), replies),
    ensures
        after(call_start(executive, params, output), replies).stage matches CallStage::Done(
            Ok(finished),
        ) ==> (finished.apply_state ==> finished.gas_left@ <= params.gas@),
{
    lemma_call_history(executive, params, output, replies);
}

/// The output of a call stays of its kind, and of its length where the length is fixed.
pub proof fn law_call_keeps_the_shape_of_its_output(
    executive: Executive,
    params: ActionParams,
    output: BytesRef<Seq<u8>>,
    replies: Seq<Reply<Seq<u8>>>,
)
    requires
        conversation(call_start(executive, params, output), replies),
    ensures
        output.same_shape(after(call_start(executive, params, output), replies).output),
{
    lemma_call_history(executive, params, output, replies);
}

/// A call asks in a fixed order and nothing twice, so it is over after five replies at most.
pub proof fn law_call_asks_in_order(
    executive: Executive,
    params: ActionParams,
    output: BytesRef<Seq<u8>>,
    replies: Seq<Reply<Seq<u8>>>,
)
    requires
        conversation(call_start(executive, params, output), replies),
    ensures
        replies.len() <= 5,
        asked(call_start(executive, params, output), replies).len() == replies.len(),
        forall|i: int, j: int|
            0 <= i < j < replies.len() ==> call_ask_rank(
                #[trigger] asked(call_start(executive, params, output), replies)[i],
            ) < call_ask_rank(#[trigger] asked(call_start(executive, params, output), replies)[j]),
    decreases replies.len(),
{
    lemma_call_history(executive, params, output, replies);
    if replies.len() > 0 {
        let before = replies.drop_last();
        let start = call_start(executive, params, output);
        law_call_asks_in_order(executive, params, output, before);
        lemma_call_history(executive, params, output, before);
        assert(forall|i: int|
            0 <= i < before.len() ==> #[trigger] asked(start, replies)[i] == asked(
                start,
                before,
            )[i]);
    }
}

/// A call moves the value that it was given, from its sender to its receiver, and no other; and it
/// looks for code only when the value has moved.
pub proof fn law_call_moves_its_value_first(
    executive: Executive,
    params: ActionParams,
    output: BytesRef<Seq<u8>>,
    replies: Seq<Reply<Seq<u8>>>,
)
    requires
        conversation(call_start(executive, params, output), replies),
    ensures
        forall|i: int|
            0 <= i < replies.len() ==> (#[trigger] asked(
                call_start(executive, params, output),
                replies,
            )[i] matches Ask::TransferBalance { from, to, value, cleanup } ==> from == params.sender && to
                == params.address && params.value == ActionValue::Transfer(value) && cleanup
                == Cleanup::OfSubstate),
        params.value is Transfer ==> forall|i: int|
            0 <= i < replies.len() && call_ask_rank(
                #[trigger] asked(call_start(executive, params, output), replies)[i],
            ) >= 2 ==> value_moved(
                params,
                asked(call_start(executive, params, output), replies),
                replies,
            ),
    decreases replies.len(),
{
    lemma_call_history(executive, params, output, replies);
    if replies.len() > 0 {
        let before = replies.drop_last();
        let start = call_start(executive, params, output);
        let (early, all) = (asked(start, before), asked(start, replies));
        law_call_moves_its_value_first(executive, params, output, before);
        lemma_call_history(executive, params, output, before);
        assert(forall|i: int| 0 <= i < before.len() ==> #[trigger] all[i] == early[i]);
        if params.value is Transfer && value_moved(params, early, before) {
            let j = choose|j: int|
                0 <= j < early.len() && j < before.len() && #[trigger] early[j]
                    == Ask::<Seq<u8>>::TransferBalance {
                    from: params.sender,
                    to: params.address,
                    value: params.value.amount(),
                    cleanup: Cleanup::OfSubstate,
                } && (before[j] matches Reply::Unit(Ok(_)));
            assert(all[j] == early[j]);
            assert(replies[j] == before[j]);
        }
    }
}

/// Code runs in the block, under the rules and at the depth of its executive, and statically where
/// the executive is static or the call is: what a static call starts is static. What it returns
/// goes to a buffer like the one given, and is copied to the prepared output of the trace.
pub proof fn law_call_code_inherits_static(
    executive: Executive,
    params: ActionParams,
    output: BytesRef<Seq<u8>>,
    replies: Seq<Reply<Seq<u8>>>,
)
    requires
        conversation(call_start(executive, params, output), replies),
    ensures
        forall|i: int|
            0 <= i < replies.len() ==> (#[trigger] asked(
                call_start(executive, params, output),
                replies,
            )[i] matches Ask::ExecVm(call) ==> {
                &&& call.info == executive.info
                &&& call.machine == executive.machine
                &&& call.params == params
                &&& call.depth == executive.depth
                &&& call.output matches OutputPolicy::Return(buffer, OutputCopy::Prepared)
                &&& output.same_shape(buffer)
                &&& call.static_flag == (executive.static_flag || params.call_type
                    == CallType::StaticCall)
            }),
    decreases replies.len(),
{
    lemma_call_history(executive, params, output, replies);
    if replies.len() > 0 {
        let before = replies.drop_last();
        let start = call_start(executive, params, output);
        law_call_code_inherits_static(executive, params, output, before);
        lemma_call_history(executive, params, output, before);
        assert(forall|i: int|
            0 <= i < before.len() ==> #[trigger] asked(start, replies)[i] == asked(
                start,
                before,
            )[i]);
    }
}

/// Value moves and code runs only while the checkpoint of the call is open, so that a failure can
/// take back whatever they changed.
pub proof fn law_call_changes_are_under_a_checkpoint(
    executive: Executive,
    params: ActionParams,
    output: BytesRef<Seq<u8>>,
    replies: Seq<Reply<Seq<u8>>>,
)
    requires
        conversation(call_start(executive, params, output), replies),
    ensures
        forall|i: int|
            0 <= i < replies.len() && !(#[trigger] asked(
                call_start(executive, params, output),
                replies,
            )[i] is StorageExpiry) ==> {
                let commands = call_commands(executive, params, output, replies.take(i));
                &&& count(commands, Kind::Checkpoint) == 1
                &&& closings(commands) == 0
            },
{
    let start = call_start(executive, params, output);
    assert forall|i: int|
        0 <= i < replies.len() && !(#[trigger] asked(start, replies)[i] is StorageExpiry) implies {
        let commands = call_commands(executive, params, output, replies.take(i));
        &&& count(commands, Kind::Checkpoint) == 1
        &&& closings(commands) == 0
    } by {
        lemma_turn(start, replies, i);
        lemma_call_history(executive, params, output, replies.take(i));
    }
}

/// A call that is not over takes some reply.
pub proof fn law_call_is_never_stuck(run: CallRun<Seq<u8>>)
    requires
        run.asks() is Some,
    ensures
        exists|reply: Reply<Seq<u8>>| run.accepts(reply),
{
    match run.stage {
        CallStage::Expiry => {
            assert(run.accepts(Reply::Time(Ok(0u64))));
        },
        CallStage::Transfer => {
            assert(run.accepts(Reply::Unit(Ok(()))));
        },
        CallStage::Builtin => {
            assert(run.accepts(Reply::Builtin(None)));
        },
        CallStage::BuiltinCost => {
            assert(run.accepts(Reply::Cost(run.params.gas)));
        },
        CallStage::BuiltinRun { .. } => {
            assert(run.accepts(Reply::BuiltinOutput(Ok(Seq::empty()))));
        },
        CallStage::Vm => {
            assert(run.accepts(
                Reply::Vm {
                    result: Err(VmError::OutOfGas),
                    output: OutputPolicy::Return(run.output, OutputCopy::Prepared),
                },
            ));
        },
        CallStage::Done(_) => {},
    }
}

/// A built-in contract that ran is traced at the top and where value moved, and nowhere else.
pub proof fn law_builtin_traces(run: CallRun<Seq<u8>>, cost: U256, data: Seq<u8>)
    requires
        run.stage == (CallStage::<Seq<u8>>::BuiltinRun { cost }),
    ensures
        count(run.next(Reply::BuiltinOutput(Ok(data))).1, Kind::Trace) == (if run.executive.depth
            == 0 || run.params.value.moves_value() {
            1nat
        } else {
            0
        }),
{
    broadcast use group_counts;

}

/// At the top, a call that ended well is traced once; no call is traced twice.
pub proof fn law_call_is_traced_once(
    executive: Executive,
    params: ActionParams,
    output: BytesRef<Seq<u8>>,
    replies: Seq<Reply<Seq<u8>>>,
)
    requires
        conversation(call_start(executive, params, output), replies),
    ensures
        ({
            let run = after(call_start(executive, params, output), replies);
            let traces = count(call_commands(executive, params, output, replies), Kind::Trace);
            &&& traces <= 1
            &&& executive.depth == 0 && (run.stage matches CallStage::Done(Ok(_))) ==> traces == 1
        }),
{
    lemma_call_history(executive, params, output, replies);
}

} // verus!
