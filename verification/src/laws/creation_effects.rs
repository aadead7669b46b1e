//! Laws that say what a creation does with each answer, in terms of its parameters and of what was
//! asked and answered.
use crate::create::{CreateRun, CreateStage};
use crate::executive::Executive;
use crate::history::{after, asked, conversation, told, Run};
use crate::laws::call_effects::{closed_as_demanded, executes};
use crate::protocol::{
    Ask, Cleanup, Command, OutputCopy, OutputPolicy, Reply, Subtraces, TraceOutput,
};
use crate::uint::{group_words, u256_range};
use crate::vm::{ActionParams, ActionResult, ActionValue, CallType, VmError};
use vstd::prelude::*;

verus! {

/// Whether the storage of a new contract expires at `expiry`: where the header of the contract
/// names a time, at that time; without a header, or where it names none, the default duration
/// after the time of the block.
pub open spec fn expires_at(executive: Executive, params: ActionParams, expiry: int) -> bool {
    if params.oasis_contract is Some && params.oasis_contract->0.expiry is Some {
        expiry == params.oasis_contract->0.expiry->0
    } else {
        expiry == executive.info.timestamp + executive.machine.schedule.default_storage_duration
    }
}

/// Whether the creation is over with the result, and its record is still what it was given.
pub open spec fn over_without_record(
    run: CreateRun<Seq<u8>>,
    result: ActionResult<Seq<u8>>,
    record: Option<Seq<u8>>,
) -> bool {
    &&& run.stage == CreateStage::Done(result)
    &&& run.asks() is None
    &&& run.output == record
}

/// Whether the commands trace a creation that failed before its code ran.
pub open spec fn traces_refusal(
    params: ActionParams,
    error: VmError,
    commands: Seq<Command<Seq<u8>>>,
) -> bool {
    &&& commands.len() == 2
    &&& commands[0] == Command::<Seq<u8>>::PrepareTraceCreate(params)
    &&& commands[1] == (Command::<Seq<u8>>::TraceFailedCreate {
        error,
        traces: Subtraces::Nothing,
    })
}

/// Whether the contract is made with the balance, and its code executed: at the address of the
/// creation, with nonce one where new contracts are never empty and zero otherwise, and with the
/// expiry that the header or else the schedule gives. Returned code is copied to the record where
/// there is one.
pub open spec fn makes_contract(
    executive: Executive,
    params: ActionParams,
    record: Option<Seq<u8>>,
    balance: nat,
    run: CreateRun<Seq<u8>>,
    commands: Seq<Command<Seq<u8>>>,
) -> bool {
    &&& commands.len() == 6
    &&& commands[0] matches Command::NewContract {
        address,
        balance: given,
        nonce_offset,
        storage_expiry,
    }
    &&& address == params.address
    &&& given@ == balance
    &&& nonce_offset@ == (if executive.machine.schedule.no_empty {
        1nat
    } else {
        0nat
    })
    &&& expires_at(executive, params, storage_expiry as int)
    &&& commands[1] == Command::<Seq<u8>>::PrepareTraceCreate(params)
    &&& commands[2] is PrepareTraceOutput
    &&& commands[3] is Subtracer
    &&& params.code matches Some(code)
    &&& commands[4] == Command::<Seq<u8>>::PrepareSubtrace(code)
    &&& commands[5] == Command::<Seq<u8>>::ExtSubtracer(params.address)
    &&& run.asks() matches Some(Ask::ExecVm(call))
    &&& executes(executive, params, call)
    &&& call.output matches OutputPolicy::InitContract(copy)
    &&& match record {
        Some(bytes) => copy == OutputCopy::Record(bytes),
        None => copy is Prepared,
    }
}

/// What holds of a creation after the replies, whatever it waits for.
spec fn creation_keeps(
    executive: Executive,
    params: ActionParams,
    record: Option<Seq<u8>>,
    run: CreateRun<Seq<u8>>,
    replies: Seq<Reply<Seq<u8>>>,
) -> bool {
    &&& run.executive == executive
    &&& run.params == params
    &&& !(run.stage is Done) ==> run.output == record
    &&& run.stage matches CreateStage::Balance { storage_expiry } ==> expires_at(
        executive,
        params,
        storage_expiry as int,
    )
    &&& run.stage matches CreateStage::Fund { storage_expiry, previous } ==> {
        &&& expires_at(executive, params, storage_expiry as int)
        &&& params.value is Transfer
        &&& replies.len() > 0
        &&& replies.last() == Reply::<Seq<u8>>::Amount(Ok(previous))
    }
}

/// It holds after every conversation.
proof fn lemma_creation_keeps(
    executive: Executive,
    params: ActionParams,
    record: Option<Seq<u8>>,
    replies: Seq<Reply<Seq<u8>>>,
)
    requires
        conversation(CreateRun::begin(executive, params, record), replies),
    ensures
        creation_keeps(
            executive,
            params,
            record,
            after(CreateRun::begin(executive, params, record), replies),
            replies,
        ),
    decreases replies.len(),
{
    if replies.len() > 0 {
        lemma_creation_keeps(executive, params, record, replies.drop_last());
    }
}

/// A creation first asks whether its address is taken.
pub proof fn law_creation_begins(
    executive: Executive,
    params: ActionParams,
    record: Option<Seq<u8>>,
)
    ensures
        CreateRun::begin(executive, params, record).asks() == Some(
            Ask::<Seq<u8>>::ExistsAndHasCodeOrNonce(params.address),
        ),
        CreateRun::begin(executive, params, record).output == record,
{
}

/// At a taken address a creation runs out of gas, and nothing else happens. At a free one it fails
/// where the state must not change; it fails with `ContractExpired` where its expiry is before the
/// time of the block; otherwise it takes its checkpoint and asks for the balance that its address
/// already has.
pub proof fn law_free_address_is_needed(
    executive: Executive,
    params: ActionParams,
    record: Option<Seq<u8>>,
    replies: Seq<Reply<Seq<u8>>>,
    expiry: int,
)
    requires
        conversation(CreateRun::begin(executive, params, record), replies),
        replies.len() > 0,
        asked(
            CreateRun::begin(executive, params, record),
            replies,
        ).last() is ExistsAndHasCodeOrNonce,
        expires_at(executive, params, expiry),
    ensures
        ({
            let start = CreateRun::begin(executive, params, record);
            let run = after(start, replies);
            let commands = told(start, replies);
            match replies.last() {
                Reply::Flag(Err(error)) => {
                    &&& over_without_record(run, Err(error), record)
                    &&& commands.len() == 0
                },
                Reply::Flag(Ok(true)) => {
                    &&& over_without_record(run, Err(VmError::OutOfGas), record)
                    &&& commands.len() == 0
                },
                Reply::Flag(Ok(false)) => if executive.static_flag || params.call_type
                    == CallType::StaticCall {
                    &&& over_without_record(
                        run,
                        Err(VmError::MutableCallInStaticContext),
                        record,
                    )
                    &&& traces_refusal(params, VmError::MutableCallInStaticContext, commands)
                } else {
                    &&& commands.len() >= 2
                    &&& commands[0] is Checkpoint
                    &&& commands[1] is NewUnconfirmedSubstate
                    &&& if expiry < executive.info.timestamp {
                        &&& over_without_record(run, Err(VmError::ContractExpired), record)
                        &&& traces_refusal(params, VmError::ContractExpired, commands.skip(2))
                    } else {
                        &&& commands.len() == 2
                        &&& run.asks() == Some(Ask::<Seq<u8>>::Balance(params.address))
                    }
                },
                _ => false,
            }
        }),
{
    lemma_creation_keeps(executive, params, record, replies.drop_last());
}

/// A value that moves is taken from the sender; with one that does not, the contract is made with
/// the balance that its address already had.
pub proof fn law_known_balance_leads_on(
    executive: Executive,
    params: ActionParams,
    record: Option<Seq<u8>>,
    replies: Seq<Reply<Seq<u8>>>,
)
    requires
        conversation(CreateRun::begin(executive, params, record), replies),
        replies.len() > 0,
        asked(CreateRun::begin(executive, params, record), replies).last() is Balance,
    ensures
        ({
            let start = CreateRun::begin(executive, params, record);
            let run = after(start, replies);
            let commands = told(start, replies);
            match (replies.last(), params.value) {
                (Reply::Amount(Err(error)), _) => {
                    &&& over_without_record(run, Err(error), record)
                    &&& commands.len() == 0
                },
                (Reply::Amount(Ok(_)), ActionValue::Transfer(amount)) => {
                    &&& commands.len() == 0
                    &&& run.asks() == Some(
                        Ask::<Seq<u8>>::SubBalance {
                            address: params.sender,
                            value: amount,
                            cleanup: Cleanup::OfSubstate,
                        },
                    )
                },
                (Reply::Amount(Ok(previous)), ActionValue::Apparent(_)) => makes_contract(
                    executive,
                    params,
                    record,
                    previous@,
                    run,
                    commands,
                ),
                _ => false,
            }
        }),
{
    broadcast use group_words;

    lemma_creation_keeps(executive, params, record, replies.drop_last());
}

/// When the sender has paid, the contract is made with the value on top of the balance that its
/// address already had.
pub proof fn law_paid_value_is_added(
    executive: Executive,
    params: ActionParams,
    record: Option<Seq<u8>>,
    replies: Seq<Reply<Seq<u8>>>,
)
    requires
        conversation(CreateRun::begin(executive, params, record), replies),
        replies.len() > 0,
        asked(CreateRun::begin(executive, params, record), replies).last() is SubBalance,
    ensures
        ({
            let start = CreateRun::begin(executive, params, record);
            let run = after(start, replies);
            let commands = told(start, replies);
            &&& replies.len() > 1
            &&& replies[replies.len() - 2] matches Reply::Amount(Ok(previous))
            &&& params.value matches ActionValue::Transfer(amount)
            &&& match replies.last() {
                Reply::Unit(Err(error)) => {
                    &&& over_without_record(run, Err(error), record)
                    &&& commands.len() == 0
                },
                Reply::Unit(Ok(_)) => makes_contract(
                    executive,
                    params,
                    record,
                    amount@ + previous@,
                    run,
                    commands,
                ),
                _ => false,
            }
        }),
{
    broadcast use group_words;

    let before = replies.drop_last();
    lemma_creation_keeps(executive, params, record, before);
    assert(before.len() > 0 ==> before.last() == replies[replies.len() - 2]);
}

/// How the code ended is how the creation ends: with its result, and with its record where one is
/// kept. The creation is traced with the gas that is gone and the code that was recorded, as
/// reverted where the code asked for it, or with its failure; and its checkpoint is closed as the
/// result demands.
pub proof fn law_code_decides_the_creation(
    executive: Executive,
    params: ActionParams,
    record: Option<Seq<u8>>,
    replies: Seq<Reply<Seq<u8>>>,
)
    requires
        conversation(CreateRun::begin(executive, params, record), replies),
        replies.len() > 0,
        asked(CreateRun::begin(executive, params, record), replies).last() is ExecVm,
    ensures
        ({
            let start = CreateRun::begin(executive, params, record);
            let run = after(start, replies);
            let commands = told(start, replies);
            match replies.last() {
                Reply::Vm { result, output: OutputPolicy::InitContract(copy) } => {
                    &&& run.stage == CreateStage::Done(result)
                    &&& run.asks() is None
                    &&& match copy {
                        OutputCopy::Record(bytes) => record is Some && run.output == Some(bytes),
                        OutputCopy::Prepared => record is None && run.output is None,
                    }
                    &&& commands.len() > 2
                    &&& commands[0] is DoneSubtrace
                    &&& match result {
                        Ok(finished) => if finished.apply_state {
                            &&& commands[1] matches Command::TraceCreate {
                                gas_used,
                                output: shown,
                                address,
                                traces: Subtraces::Drained,
                            }
                            &&& gas_used@ + finished.gas_left@ == params.gas@
                            &&& address == params.address
                            &&& match copy {
                                OutputCopy::Record(bytes) => shown == TraceOutput::Bytes(bytes),
                                OutputCopy::Prepared => shown is Prepared,
                            }
                        } else {
                            commands[1] == (Command::<Seq<u8>>::TraceFailedCreate {
                                error: VmError::Reverted,
                                traces: Subtraces::Drained,
                            })
                        },
                        Err(error) => commands[1] == (Command::<Seq<u8>>::TraceFailedCreate {
                            error,
                            traces: Subtraces::Drained,
                        }),
                    }
                    &&& closed_as_demanded(result, commands.skip(2))
                },
                _ => false,
            }
        }),
{
    broadcast use group_words;

    lemma_creation_keeps(executive, params, record, replies.drop_last());
}

/// A creation takes exactly the replies that answer its question: any failure; that the address is
/// taken; that it is free, where the default expiry fits the clock or does not matter because the
/// state must not change; any balance and any payment that leave the balance of the contract in
/// range, where there is code to run; and any end of code that has its record, where one is kept,
/// and that, where it keeps its changes, leaves no more gas than it got.
pub proof fn law_creation_takes_answers(
    executive: Executive,
    params: ActionParams,
    record: Option<Seq<u8>>,
    replies: Seq<Reply<Seq<u8>>>,
    reply: Reply<Seq<u8>>,
)
    requires
        conversation(CreateRun::begin(executive, params, record), replies),
    ensures
        ({
            let run = after(CreateRun::begin(executive, params, record), replies);
            let unchangeable = executive.static_flag || params.call_type == CallType::StaticCall;
            run.accepts(reply) <==> match run.asks() {
                Some(Ask::ExistsAndHasCodeOrNonce(_)) => {
                    &&& reply matches Reply::Flag(occupied)
                    &&& (occupied matches Ok(taken) && !taken && !unchangeable)
                        ==> executive.info.timestamp
                        + executive.machine.schedule.default_storage_duration <= u64::MAX
                },
                Some(Ask::Balance(_)) => {
                    &&& reply matches Reply::Amount(balance)
                    &&& balance is Ok && params.value is Apparent ==> params.code is Some
                },
                Some(Ask::SubBalance { .. }) => {
                    &&& reply matches Reply::Unit(done)
                    &&& done is Ok ==> {
                        &&& params.code is Some
                        &&& params.value matches ActionValue::Transfer(amount)
                        &&& replies.last() matches Reply::Amount(Ok(previous))
                        &&& amount@ + previous@ < u256_range()
                    }
                },
                Some(Ask::ExecVm(_)) => {
                    &&& reply matches Reply::Vm { result, output: OutputPolicy::InitContract(copy) }
                    &&& copy is Record <==> record is Some
                    &&& result matches Ok(finished) ==> (finished.apply_state
                        ==> finished.gas_left@ <= params.gas@)
                },
                _ => false,
            }
        }),
{
    lemma_creation_keeps(executive, params, record, replies);
}

/// The header of a contract is heeded, whatever else it says: where it names an expiry, the
/// contract that is made has that expiry; without a header, or where the header names none, the
/// contract lives for the default duration from the time of the block on.
pub proof fn law_requested_expiry_is_kept(
    executive: Executive,
    params: ActionParams,
    record: Option<Seq<u8>>,
    replies: Seq<Reply<Seq<u8>>>,
)
    requires
        conversation(CreateRun::begin(executive, params, record), replies),
        replies.len() > 0,
    ensures
        forall|i: int|
            0 <= i < told(CreateRun::begin(executive, params, record), replies).len() ==> (
            #[trigger] told(CreateRun::begin(executive, params, record), replies)[i] matches
                Command::NewContract { storage_expiry, .. } ==> match params.oasis_contract {
                Some(header) => match header.expiry {
                    Some(requested) => storage_expiry == requested,
                    None => storage_expiry == executive.info.timestamp
                        + executive.machine.schedule.default_storage_duration,
                },
                None => storage_expiry == executive.info.timestamp
                    + executive.machine.schedule.default_storage_duration,
            }),
{
    lemma_creation_keeps(executive, params, record, replies.drop_last());
}

/// A contract whose header names an expiry before the time of the block is never made, whatever
/// else the header says: at a free address, and where the state may change, its creation fails
/// with `ContractExpired`. One whose header names a later expiry does not fail so before its code
/// runs.
pub proof fn law_passed_expiry_fails(
    executive: Executive,
    params: ActionParams,
    record: Option<Seq<u8>>,
    requested: u64,
    reply: Reply<Seq<u8>>,
)
    requires
        params.oasis_contract is Some,
        params.oasis_contract->0.expiry == Some(requested),
        !executive.static_flag,
        params.call_type != CallType::StaticCall,
        CreateRun::begin(executive, params, record).accepts(reply),
        reply == Reply::<Seq<u8>>::Flag(Ok(false)),
    ensures
        CreateRun::begin(executive, params, record).next(reply).0.stage == CreateStage::<
            Seq<u8>,
        >::Done(Err(VmError::ContractExpired)) <==> requested < executive.info.timestamp,
{
}

} // verus!
