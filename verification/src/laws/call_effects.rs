//! Laws that say what a call does with each answer, in terms of its parameters and of what was
//! asked and answered.
use crate::bytes::BytesRef;
use crate::call::{CallRun, CallStage};
use crate::executive::{enactment, Executive};
use crate::history::{after, asked, conversation, told, Run};
use crate::laws::calls::call_start;
use crate::protocol::{
    Ask, Cleanup, Command, OutputCopy, OutputPolicy, Reply, Subtraces, TraceOutput, VmCall,
};
use crate::uint::group_words;
use crate::vm::{ActionParams, ActionResult, ActionValue, CallType, VmError};
use vstd::prelude::*;

verus! {

/// The amount of a value, whether it moves or not.
pub open spec fn worth(value: ActionValue) -> nat {
    match value {
        ActionValue::Transfer(amount) => amount@,
        ActionValue::Apparent(amount) => amount@,
    }
}

/// Whether `ended` is the buffer `given` after the bytes `data` were written to its start: a
/// flexible buffer holds these bytes and nothing else, and of a fixed one as many bytes as there
/// are in `data` are replaced, as far as it reaches.
pub open spec fn holds_written(
    given: BytesRef<Seq<u8>>,
    data: Seq<u8>,
    ended: BytesRef<Seq<u8>>,
) -> bool {
    match (given, ended) {
        (BytesRef::Flexible(_), BytesRef::Flexible(now)) => now == data,
        (BytesRef::Fixed(before), BytesRef::Fixed(now)) => {
            &&& now.len() == before.len()
            &&& forall|i: int| 0 <= i < now.len() && i < data.len() ==> now[i] == data[i]
            &&& forall|i: int| data.len() <= i < now.len() ==> now[i] == before[i]
        },
        _ => false,
    }
}

/// The bytes of a buffer.
pub open spec fn bytes_of(buffer: BytesRef<Seq<u8>>) -> Seq<u8> {
    match buffer {
        BytesRef::Flexible(bytes) => bytes,
        BytesRef::Fixed(bytes) => bytes,
    }
}

/// Whether the call is over with the result, and its output is still what it was given.
pub open spec fn over_without_output(
    run: CallRun<Seq<u8>>,
    result: ActionResult<Seq<u8>>,
    output: BytesRef<Seq<u8>>,
) -> bool {
    &&& run.stage == CallStage::Done(result)
    &&& run.asks() is None
    &&& run.output == output
}

/// Whether the call goes on behind its checkpoint: the whole value, where it moves, goes from the
/// sender to the called account, and otherwise the built-in contract is looked for at once.
pub open spec fn goes_on_behind_checkpoint(
    executive: Executive,
    params: ActionParams,
    run: CallRun<Seq<u8>>,
    commands: Seq<Command<Seq<u8>>>,
) -> bool {
    &&& commands.len() == 1
    &&& commands[0] is Checkpoint
    &&& match params.value {
        ActionValue::Transfer(amount) => run.asks() == Some(
            Ask::<Seq<u8>>::TransferBalance {
                from: params.sender,
                to: params.address,
                value: amount,
                cleanup: Cleanup::OfSubstate,
            },
        ),
        ActionValue::Apparent(_) => looks_for_builtin(executive, params, run),
    }
}

/// Whether the call asks for the built-in contract at the address of its code in this block.
pub open spec fn looks_for_builtin(
    executive: Executive,
    params: ActionParams,
    run: CallRun<Seq<u8>>,
) -> bool {
    run.asks() == Some(
        Ask::<Seq<u8>>::Builtin { address: params.code_address, number: executive.info.number },
    )
}

/// Whether the data is the input of the action, and empty where there is none.
pub open spec fn is_input(params: ActionParams, data: Seq<u8>) -> bool {
    match params.data {
        Some(input) => data == input@,
        None => data.len() == 0,
    }
}

/// Whether `call` executes the code of `params` on behalf of `executive`: in its block, by its
/// machine, at its depth, and statically where the executive or the action is static.
pub open spec fn executes(
    executive: Executive,
    params: ActionParams,
    call: VmCall<Seq<u8>>,
) -> bool {
    &&& call.info == executive.info
    &&& call.machine == executive.machine
    &&& call.params == params
    &&& call.depth == executive.depth
    &&& call.static_flag <==> executive.static_flag || params.call_type == CallType::StaticCall
}

/// Whether the commands close the checkpoint as the result demands: the changes are kept, and the
/// part of the substate merged, where code ended well without asking for the opposite and where
/// the host failed; in all other cases they are taken back.
pub open spec fn closed_as_demanded(
    result: ActionResult<Seq<u8>>,
    commands: Seq<Command<Seq<u8>>>,
) -> bool {
    let kept = match result {
        Ok(finished) => finished.apply_state,
        Err(VmError::Internal(_)) => true,
        Err(_) => false,
    };
    if kept {
        &&& commands.len() == 2
        &&& commands[0] is DiscardCheckpoint
        &&& commands[1] is AccrueSubstate
    } else {
        &&& commands.len() == 1
        &&& commands[0] is RevertToCheckpoint
    }
}

/// What holds of a call after the replies, whatever it waits for.
spec fn call_keeps(
    executive: Executive,
    params: ActionParams,
    output: BytesRef<Seq<u8>>,
    run: CallRun<Seq<u8>>,
    replies: Seq<Reply<Seq<u8>>>,
) -> bool {
    &&& run.executive == executive
    &&& run.params == params
    &&& !(run.stage is Done) ==> run.output == output
    &&& run.stage is Vm ==> params.code is Some
    &&& run.stage matches CallStage::BuiltinRun { cost } ==> {
        &&& replies.len() > 0
        &&& replies.last() == Reply::<Seq<u8>>::Cost(cost)
        &&& cost@ <= params.gas@
    }
}

/// It holds after every conversation.
proof fn lemma_call_keeps(
    executive: Executive,
    params: ActionParams,
    output: BytesRef<Seq<u8>>,
    replies: Seq<Reply<Seq<u8>>>,
)
    requires
        conversation(call_start(executive, params, output), replies),
    ensures
        call_keeps(
            executive,
            params,
            output,
            after(call_start(executive, params, output), replies),
            replies,
        ),
    decreases replies.len(),
{
    if replies.len() > 0 {
        lemma_call_keeps(executive, params, output, replies.drop_last());
    }
}

/// A call begins in one of three ways. Where the state must not change and the call carries value
/// it fails at once and nothing happens. A call of code first asks when the storage of the code
/// expires. Any other call takes its checkpoint and goes on.
pub proof fn law_call_begins(
    executive: Executive,
    params: ActionParams,
    output: BytesRef<Seq<u8>>,
)
    ensures
        ({
            let (run, commands) = CallRun::begin(executive, params, output);
            let fixed_state = params.call_type == CallType::StaticCall || (params.call_type
                == CallType::Call && executive.static_flag);
            let has_code = params.code matches Some(code) && code@.len() > 0;
            if fixed_state && worth(params.value) > 0 {
                &&& over_without_output(run, Err(VmError::MutableCallInStaticContext), output)
                &&& commands.len() == 0
            } else if has_code {
                &&& run.asks() == Some(Ask::<Seq<u8>>::StorageExpiry(params.code_address))
                &&& commands.len() == 0
            } else {
                goes_on_behind_checkpoint(executive, params, run, commands)
            }
        }),
{
}

/// Code whose storage has expired before the time of the block does not run: the call fails with
/// `ContractExpired`, is traced so, and does nothing else. Other code goes on behind a checkpoint.
pub proof fn law_expiry_decides(
    executive: Executive,
    params: ActionParams,
    output: BytesRef<Seq<u8>>,
    replies: Seq<Reply<Seq<u8>>>,
)
    requires
        conversation(call_start(executive, params, output), replies),
        replies.len() > 0,
        asked(call_start(executive, params, output), replies).last() is StorageExpiry,
    ensures
        ({
            let start = call_start(executive, params, output);
            let run = after(start, replies);
            let commands = told(start, replies);
            match replies.last() {
                Reply::Time(Err(error)) => {
                    &&& over_without_output(run, Err(error), output)
                    &&& commands.len() == 0
                },
                Reply::Time(Ok(expiry)) => if expiry < executive.info.timestamp {
                    &&& over_without_output(run, Err(VmError::ContractExpired), output)
                    &&& commands.len() == 2
                    &&& commands[0] == Command::<Seq<u8>>::PrepareTraceCall(params)
                    &&& commands[1] == (Command::<Seq<u8>>::TraceFailedCall {
                        error: VmError::ContractExpired,
                        traces: Subtraces::Nothing,
                    })
                } else {
                    goes_on_behind_checkpoint(executive, params, run, commands)
                },
                _ => false,
            }
        }),
{
    lemma_call_keeps(executive, params, output, replies.drop_last());
}

/// When the value has moved, the built-in contract is looked for. Where it could not be moved, the
/// call is over with that failure.
pub proof fn law_moved_value_leads_on(
    executive: Executive,
    params: ActionParams,
    output: BytesRef<Seq<u8>>,
    replies: Seq<Reply<Seq<u8>>>,
)
    requires
        conversation(call_start(executive, params, output), replies),
        replies.len() > 0,
        asked(call_start(executive, params, output), replies).last() is TransferBalance,
    ensures
        ({
            let start = call_start(executive, params, output);
            let run = after(start, replies);
            &&& told(start, replies).len() == 0
            &&& match replies.last() {
                Reply::Unit(Err(error)) => over_without_output(run, Err(error), output),
                Reply::Unit(Ok(_)) => looks_for_builtin(executive, params, run),
                _ => false,
            }
        }),
{
    lemma_call_keeps(executive, params, output, replies.drop_last());
}

/// A built-in contract is asked for its cost on the whole input. Without one, the code runs: with
/// the parameters of the call, and with the buffer of the call for its output. Without any code
/// the call has succeeded: it keeps its changes and all of its gas, returns nothing, and leaves
/// its output alone.
pub proof fn law_code_is_found(
    executive: Executive,
    params: ActionParams,
    output: BytesRef<Seq<u8>>,
    replies: Seq<Reply<Seq<u8>>>,
)
    requires
        conversation(call_start(executive, params, output), replies),
        replies.len() > 0,
        asked(call_start(executive, params, output), replies).last() is Builtin,
    ensures
        ({
            let start = call_start(executive, params, output);
            let run = after(start, replies);
            let commands = told(start, replies);
            &&& commands.len() > 0
            &&& commands[0] == Command::<Seq<u8>>::PrepareTraceCall(params)
            &&& match replies.last() {
                Reply::Builtin(Some(active)) => {
                    &&& active
                    &&& commands.len() == 1
                    &&& run.asks() matches Some(Ask::BuiltinCost { data })
                    &&& is_input(params, data)
                },
                Reply::Builtin(None) => {
                    &&& commands.len() > 2
                    &&& commands[1] is PrepareTraceOutput
                    &&& commands[2] is Subtracer
                    &&& match params.code {
                        Some(code) => {
                            &&& commands.len() == 6
                            &&& commands[3] is NewUnconfirmedSubstate
                            &&& commands[4] == Command::<Seq<u8>>::PrepareSubtrace(code)
                            &&& commands[5] == Command::<Seq<u8>>::ExtSubtracer(params.address)
                            &&& run.asks() matches Some(Ask::ExecVm(call))
                            &&& executes(executive, params, call)
                            &&& call.output == OutputPolicy::Return(
                                output,
                                OutputCopy::<Seq<u8>>::Prepared,
                            )
                        },
                        None => {
                            &&& commands.len() == 5
                            &&& commands[3] is DiscardCheckpoint
                            &&& commands[4] matches Command::TraceCall {
                                gas_used,
                                output: TraceOutput::Prepared,
                                traces: Subtraces::Nothing,
                            }
                            &&& gas_used@ == 0
                            &&& run.asks() is None
                            &&& run.output == output
                            &&& run.stage matches CallStage::Done(Ok(finished))
                            &&& finished.gas_left == params.gas
                            &&& finished.apply_state
                            &&& finished.return_data.mem.len() == 0
                            &&& finished.return_data.offset == 0
                            &&& finished.return_data.size == 0
                        },
                    }
                },
                _ => false,
            }
        }),
{
    broadcast use group_words;

    lemma_call_keeps(executive, params, output, replies.drop_last());
}

/// A built-in contract that costs no more than the gas of the call is executed on the whole input.
/// One that costs more is not: the call runs out of gas, and its changes are taken back.
pub proof fn law_builtin_has_to_be_paid(
    executive: Executive,
    params: ActionParams,
    output: BytesRef<Seq<u8>>,
    replies: Seq<Reply<Seq<u8>>>,
)
    requires
        conversation(call_start(executive, params, output), replies),
        replies.len() > 0,
        asked(call_start(executive, params, output), replies).last() is BuiltinCost,
    ensures
        ({
            let start = call_start(executive, params, output);
            let run = after(start, replies);
            let commands = told(start, replies);
            match replies.last() {
                Reply::Cost(cost) => if cost@ <= params.gas@ {
                    &&& commands.len() == 0
                    &&& run.asks() matches Some(Ask::BuiltinExecute { data })
                    &&& is_input(params, data)
                } else {
                    &&& over_without_output(run, Err(VmError::OutOfGas), output)
                    &&& commands.len() == 2
                    &&& commands[0] is RevertToCheckpoint
                    &&& commands[1] == (Command::<Seq<u8>>::TraceFailedCall {
                        error: VmError::OutOfGas,
                        traces: Subtraces::Nothing,
                    })
                },
                _ => false,
            }
        }),
{
    lemma_call_keeps(executive, params, output, replies.drop_last());
}

/// What a built-in contract gave reaches the caller, at every depth and with every value, traced
/// or not: it is written to the start of the buffer of the call, and returned as a whole. The call
/// succeeds, costs what the contract costs, and keeps its changes. It is traced where it is not
/// inside another or moves some value, and not otherwise. A built-in contract that failed has the
/// changes taken back, and its message is the failure of the call.
pub proof fn law_builtin_output_reaches_the_caller(
    executive: Executive,
    params: ActionParams,
    output: BytesRef<Seq<u8>>,
    replies: Seq<Reply<Seq<u8>>>,
)
    requires
        conversation(call_start(executive, params, output), replies),
        replies.len() > 0,
        asked(call_start(executive, params, output), replies).last() is BuiltinExecute,
    ensures
        ({
            let start = call_start(executive, params, output);
            let run = after(start, replies);
            let commands = told(start, replies);
            &&& replies.len() > 1
            &&& replies[replies.len() - 2] matches Reply::Cost(cost)
            &&& match replies.last() {
                Reply::BuiltinOutput(Ok(data)) => {
                    &&& run.asks() is None
                    &&& holds_written(output, data, run.output)
                    &&& run.stage matches CallStage::Done(Ok(finished))
                    &&& finished.gas_left@ + cost@ == params.gas@
                    &&& finished.apply_state
                    &&& finished.return_data.mem == data
                    &&& finished.return_data.offset == 0
                    &&& data.len() <= usize::MAX ==> finished.return_data.size == data.len()
                    &&& commands.len() > 0
                    &&& commands[0] is DiscardCheckpoint
                    &&& if executive.depth == 0 || (params.value matches ActionValue::Transfer(
                        amount,
                    ) && amount@ > 0) {
                        &&& commands.len() == 3
                        &&& commands[1] is PrepareTraceOutput
                        &&& commands[2] == (Command::TraceCall {
                            gas_used: cost,
                            output: TraceOutput::Bytes(bytes_of(run.output)),
                            traces: Subtraces::Nothing,
                        })
                    } else {
                        commands.len() == 1
                    }
                },
                Reply::BuiltinOutput(Err(message)) => {
                    &&& over_without_output(run, Err(VmError::BuiltIn(message)), output)
                    &&& commands.len() == 2
                    &&& commands[0] is RevertToCheckpoint
                    &&& commands[1] == (Command::<Seq<u8>>::TraceFailedCall {
                        error: VmError::BuiltIn(message),
                        traces: Subtraces::Nothing,
                    })
                },
                _ => false,
            }
        }),
{
    broadcast use group_words;

    let before = replies.drop_last();
    lemma_call_keeps(executive, params, output, before);
    assert(before.len() > 0 ==> before.last() == replies[replies.len() - 2]);
    if let Reply::BuiltinOutput(Ok(data)) = replies.last() {
        let run = after(call_start(executive, params, output), replies);
        assert(run.output is Flexible ==> bytes_of(run.output) =~= data);
    }
}

/// How code ended is how the call ends: with its result and its output, whatever they are. The
/// call is traced with the gas that is gone, as reverted where the code asked for it, or with its
/// failure; and its checkpoint is closed as the result demands.
pub proof fn law_code_decides_the_call(
    executive: Executive,
    params: ActionParams,
    output: BytesRef<Seq<u8>>,
    replies: Seq<Reply<Seq<u8>>>,
)
    requires
        conversation(call_start(executive, params, output), replies),
        replies.len() > 0,
        asked(call_start(executive, params, output), replies).last() is ExecVm,
    ensures
        ({
            let start = call_start(executive, params, output);
            let run = after(start, replies);
            let commands = told(start, replies);
            match replies.last() {
                Reply::Vm { result, output: OutputPolicy::Return(written, _) } => {
                    &&& run.stage == CallStage::Done(result)
                    &&& run.asks() is None
                    &&& run.output == written
                    &&& commands.len() > 2
                    &&& commands[0] is DoneSubtrace
                    &&& match result {
                        Ok(finished) => if finished.apply_state {
                            &&& commands[1] matches Command::TraceCall {
                                gas_used,
                                output: TraceOutput::Prepared,
                                traces: Subtraces::Drained,
                            }
                            &&& gas_used@ + finished.gas_left@ == params.gas@
                        } else {
                            commands[1] == (Command::<Seq<u8>>::TraceFailedCall {
                                error: VmError::Reverted,
                                traces: Subtraces::Drained,
                            })
                        },
                        Err(error) => commands[1] == (Command::<Seq<u8>>::TraceFailedCall {
                            error,
                            traces: Subtraces::Drained,
                        }),
                    }
                    &&& closed_as_demanded(result, commands.skip(2))
                },
                _ => false,
            }
        }),
{
    broadcast use group_words;

    lemma_call_keeps(executive, params, output, replies.drop_last());
}

/// A call takes exactly the replies that answer its question: any time, any end of a transfer, any
/// cost, any end of a built-in contract; that there is no built-in contract or an active one; and
/// any end of code that leaves the output in its buffer, of the same kind and of the same length
/// where the length is fixed, and that, where it keeps its changes, leaves no more gas than it
/// got.
pub proof fn law_call_takes_answers(
    executive: Executive,
    params: ActionParams,
    output: BytesRef<Seq<u8>>,
    replies: Seq<Reply<Seq<u8>>>,
    reply: Reply<Seq<u8>>,
)
    requires
        conversation(call_start(executive, params, output), replies),
    ensures
        ({
            let run = after(call_start(executive, params, output), replies);
            run.accepts(reply) <==> match run.asks() {
                Some(Ask::StorageExpiry(_)) => reply is Time,
                Some(Ask::TransferBalance { .. }) => reply is Unit,
                Some(Ask::Builtin { .. }) => {
                    reply matches Reply::Builtin(found) && (found matches Some(active) ==> active)
                },
                Some(Ask::BuiltinCost { .. }) => reply is Cost,
                Some(Ask::BuiltinExecute { .. }) => reply is BuiltinOutput,
                Some(Ask::ExecVm(_)) => {
                    &&& reply matches Reply::Vm {
                        result,
                        output: OutputPolicy::Return(written, copy),
                    }
                    &&& copy is Prepared
                    &&& match (output, written) {
                        (BytesRef::Flexible(_), BytesRef::Flexible(_)) => true,
                        (BytesRef::Fixed(before), BytesRef::Fixed(now)) => before.len()
                            == now.len(),
                        _ => false,
                    }
                    &&& result matches Ok(finished) ==> (finished.apply_state
                        ==> finished.gas_left@ <= params.gas@)
                },
                _ => false,
            }
        }),
{
    lemma_call_keeps(executive, params, output, replies);
}

/// Whatever the result of an action, what is done about it closes the checkpoint as the result
/// demands.
pub proof fn law_results_are_enacted(result: ActionResult<Seq<u8>>)
    ensures
        closed_as_demanded(result, enactment(result)),
{
}

/// Code is executed on behalf of the executive, with the parameters and with the output as they
/// are.
pub proof fn law_code_is_executed_as_asked(
    executive: Executive,
    params: ActionParams,
    output: OutputPolicy<Seq<u8>>,
)
    ensures
        executes(executive, params, executive.vm_call(params, output)),
        executive.vm_call(params, output).output == output,
{
}

/// The amount of a value is the same whether it moves or not; some of it moves where it is not
/// zero and is to move.
pub proof fn law_amount_of_a_value(value: ActionValue)
    ensures
        value.amount()@ == worth(value),
        value.moves_value() <==> value is Transfer && worth(value) > 0,
{
}

/// What is written to a buffer stands where it was written. A flexible buffer ends with it, and
/// what was missing before it is zero; of a fixed one, nothing else changes.
pub proof fn law_written_bytes_stand(buffer: BytesRef<Seq<u8>>, offset: nat, input: Seq<u8>)
    ensures
        ({
            let (before, later) = (bytes_of(buffer), bytes_of(buffer.written(offset, input)));
            &&& buffer.written(offset, input) is Flexible <==> buffer is Flexible
            &&& buffer is Flexible ==> later.len() == offset + input.len()
            &&& buffer is Fixed ==> later.len() == before.len()
            &&& forall|i: int|
                offset <= i < offset + input.len() && i < later.len() ==> #[trigger] later[i]
                    == input[i - offset]
            &&& forall|i: int|
                0 <= i < offset && i < later.len() && i < before.len() ==> #[trigger] later[i]
                    == before[i]
            &&& forall|i: int|
                before.len() <= i < offset && i < later.len() ==> #[trigger] later[i] == 0
            &&& forall|i: int|
                offset + input.len() <= i < later.len() ==> #[trigger] later[i] == before[i]
        }),
        buffer.content() == bytes_of(buffer),
{
}

/// A buffer can become one of its own kind, of any length where it is flexible and of its own
/// length where it is fixed.
pub proof fn law_buffers_keep_their_kind(buffer: BytesRef<Seq<u8>>, later: BytesRef<Seq<u8>>)
    ensures
        buffer.same_shape(later) <==> {
            ||| buffer is Flexible && later is Flexible
            ||| buffer is Fixed && later is Fixed && bytes_of(buffer).len() == bytes_of(later).len()
        },
{
}

} // verus!
