//! Laws of creations.
use crate::create::{CreateRun, CreateStage};
use crate::executive::{reverts, Executive};
use crate::history::{after, asked, commanded, conversation, lemma_turn, Run};
use crate::laws::tally::{closings, count, group_counts, Kind};
use crate::protocol::{Ask, Cleanup, Command, OutputCopy, OutputPolicy, Reply};
use crate::uint::{group_words, U256};
use crate::vm::{ActionParams, ActionValue, CallType, FinalizationResult, VmError};
use vstd::prelude::*;

verus! {

/// Whether the commands so far are those of a creation that is where it is: its checkpoint is open
/// from the moment that the address was found free, the contract is made right before its code
/// runs, and when the code has run the checkpoint is closed as the result demands.
pub open spec fn create_tallies(run: CreateRun<Seq<u8>>, commands: Seq<Command<Seq<u8>>>) -> bool {
    &&& count(commands, Kind::Removal) == 0
    &&& match run.stage {
        CreateStage::Occupied => commands.len() == 0,
        CreateStage::Done(result) => {
            &&& count(commands, Kind::Checkpoint) <= 1
            &&& closings(commands) <= count(commands, Kind::Checkpoint)
            &&& closings(commands) == 1 ==> (count(commands, Kind::Revert) == 1 <==> reverts(
                result,
            ))
            &&& closings(commands) == 0 ==> result is Err
            &&& closings(commands) == count(commands, Kind::Contract)
            &&& count(commands, Kind::Accrual) == count(commands, Kind::Discard)
            &&& count(commands, Kind::Trace) <= 1
            &&& result is Ok ==> count(commands, Kind::Trace) == 1
        },
        _ => {
            &&& count(commands, Kind::Checkpoint) == 1
            &&& closings(commands) == 0
            &&& count(commands, Kind::Accrual) == 0
            &&& count(commands, Kind::Trace) == 0
            &&& count(commands, Kind::Contract) == (if run.stage is Vm {
                1nat
            } else {
                0
            })
        },
    }
}

/// The first step of a creation keeps its tallies.
proof fn lemma_occupied_step_tallies(
    run: CreateRun<Seq<u8>>,
    commands: Seq<Command<Seq<u8>>>,
    reply: Reply<Seq<u8>>,
)
    requires
        run.stage is Occupied,
        create_tallies(run, commands),
        run.accepts(reply),
    ensures
        create_tallies(run.next(reply).0, commands + run.next(reply).1),
{
    broadcast use {group_counts, group_words};

    assert(commands + run.next(reply).1 =~= run.next(reply).1);
}

/// A step before the code runs keeps the tallies.
proof fn lemma_launch_step_tallies(
    run: CreateRun<Seq<u8>>,
    commands: Seq<Command<Seq<u8>>>,
    reply: Reply<Seq<u8>>,
)
    requires
        run.stage is Balance || run.stage is Fund,
        create_tallies(run, commands),
        run.accepts(reply),
    ensures
        create_tallies(run.next(reply).0, commands + run.next(reply).1),
{
    broadcast use {group_counts, group_words};

}

/// The step after the code has run keeps the tallies.
proof fn lemma_init_code_step_tallies(
    run: CreateRun<Seq<u8>>,
    commands: Seq<Command<Seq<u8>>>,
    reply: Reply<Seq<u8>>,
)
    requires
        run.stage is Vm,
        create_tallies(run, commands),
        run.accepts(reply),
    ensures
        create_tallies(run.next(reply).0, commands + run.next(reply).1),
{
    broadcast use {group_counts, group_words};

}

/// A step of a creation keeps its tallies.
pub proof fn lemma_create_step_tallies(
    run: CreateRun<Seq<u8>>,
    commands: Seq<Command<Seq<u8>>>,
    reply: Reply<Seq<u8>>,
)
    requires
        create_tallies(run, commands),
        run.accepts(reply),
    ensures
        create_tallies(run.next(reply).0, commands + run.next(reply).1),
{
    match run.stage {
        CreateStage::Occupied => lemma_occupied_step_tallies(run, commands, reply),
        CreateStage::Vm => lemma_init_code_step_tallies(run, commands, reply),
        _ => lemma_launch_step_tallies(run, commands, reply),
    }
}

/// A step after which the creation is over with its checkpoint open is a failure of the host, or
/// found that the requested expiry has passed.
#[verifier::rlimit(40)]
proof fn lemma_create_step_leaks(
    run: CreateRun<Seq<u8>>,
    commands: Seq<Command<Seq<u8>>>,
    reply: Reply<Seq<u8>>,
)
    requires
        create_tallies(run, commands),
        run.accepts(reply),
        run.next(reply).0.stage is Done,
        closings(commands + run.next(reply).1) < count(
            commands + run.next(reply).1,
            Kind::Checkpoint,
        ),
    ensures
        ({
            let result = run.next(reply).0.stage->Done_0;
            ||| reply matches Reply::Amount(Err(error)) && result == Err::<
                FinalizationResult<Seq<u8>>,
                VmError,
            >(error)
            ||| reply matches Reply::Unit(Err(error)) && result == Err::<
                FinalizationResult<Seq<u8>>,
                VmError,
            >(error)
            ||| result == Err::<FinalizationResult<Seq<u8>>, VmError>(VmError::ContractExpired)
                && run.executive.requested_expiry(run.params) < run.executive.info.timestamp
        }),
{
    broadcast use {group_counts, group_words};

    assert(run.stage is Occupied ==> commands + run.next(reply).1 =~= run.next(reply).1);
}

/// The place of a stage in the order of stages.
pub open spec fn create_stage_rank(stage: CreateStage<Seq<u8>>) -> nat {
    match stage {
        CreateStage::Occupied => 0,
        CreateStage::Balance { .. } => 1,
        CreateStage::Fund { .. } => 2,
        CreateStage::Vm => 3,
        CreateStage::Done(_) => 4,
    }
}

/// The place of a question in the order in which a creation asks.
pub open spec fn create_ask_rank(ask: Ask<Seq<u8>>) -> nat {
    match ask {
        Ask::ExistsAndHasCodeOrNonce(_) => 0,
        Ask::Balance(_) => 1,
        Ask::SubBalance { .. } => 2,
        Ask::ExecVm(_) => 3,
        _ => 4,
    }
}

/// The balance of a new contract: what its address already had, and the value where it moves.
pub open spec fn contract_balance(params: ActionParams, previous: U256) -> nat {
    previous@ + match params.value {
        ActionValue::Transfer(value) => value@,
        ActionValue::Apparent(_) => 0,
    }
}

/// Whether the command makes the contract that the creation is for, on top of the balance that the
/// host named.
pub open spec fn makes_the_contract(
    executive: Executive,
    params: ActionParams,
    replies: Seq<Reply<Seq<u8>>>,
    command: Command<Seq<u8>>,
) -> bool {
    command matches Command::NewContract { address, balance, nonce_offset, storage_expiry } ==> {
        &&& address == params.address
        &&& storage_expiry == executive.requested_expiry(params)
        &&& executive.info.timestamp <= storage_expiry
        &&& nonce_offset@ == (if executive.machine.schedule.no_empty {
            1nat
        } else {
            0
        })
        &&& replies.len() > 1
        &&& replies[1] matches Reply::Amount(Ok(previous))
        &&& balance@ == contract_balance(params, previous)
    }
}

/// What holds of a creation after any conversation.
#[verifier::rlimit(40)]
proof fn lemma_create_history(
    executive: Executive,
    params: ActionParams,
    output: Option<Seq<u8>>,
    replies: Seq<Reply<Seq<u8>>>,
)
    requires
        conversation(CreateRun::begin(executive, params, output), replies),
    ensures
        ({
            let run = after(CreateRun::begin(executive, params, output), replies);
            &&& run.executive == executive
            &&& run.params == params
            &&& output is Some <==> run.output is Some
            &&& create_tallies(
                run,
                commanded(CreateRun::begin(executive, params, output), replies),
            )
            &&& replies.len() <= create_stage_rank(run.stage)
            &&& (run.stage is Occupied <==> replies.len() == 0)
            &&& run.stage matches CreateStage::Balance { storage_expiry } ==> {
                &&& replies.len() == 1
                &&& storage_expiry == executive.requested_expiry(params)
                &&& executive.info.timestamp <= storage_expiry
                &&& !executive.refuses_create(params)
            }
            &&& run.stage matches CreateStage::Fund { storage_expiry, previous } ==> {
                &&& replies.len() == 2
                &&& storage_expiry == executive.requested_expiry(params)
                &&& executive.info.timestamp <= storage_expiry
                &&& params.value is Transfer
                &&& replies[1] == Reply::<Seq<u8>>::Amount(Ok(previous))
                &&& !executive.refuses_create(params)
            }
            &&& run.stage is Vm ==> {
                &&& params.code is Some
                &&& !executive.refuses_create(params)
                &&& params.value is Transfer ==> (replies.len() == 3 && replies[2] matches Reply::Unit(
                    Ok(_),
                ))
            }
            &&& run.stage matches CreateStage::Done(Ok(finished)) ==> {
                &&& finished.apply_state ==> finished.gas_left@ <= params.gas@
                &&& !executive.refuses_create(params)
            }
        }),
    decreases replies.len(),
{
    if replies.len() > 0 {
        let start = CreateRun::begin(executive, params, output);
        let before = replies.drop_last();
        lemma_create_history(executive, params, output, before);
        let run = after(start, before);
        lemma_create_step_tallies(run, commanded(start, before), replies.last());
        assert(forall|i: int| 0 <= i < before.len() ==> replies[i] == before[i]);
    }
}

/// Every contract that a creation makes is the one it is for.
proof fn lemma_create_makes_the_contract(
    executive: Executive,
    params: ActionParams,
    output: Option<Seq<u8>>,
    replies: Seq<Reply<Seq<u8>>>,
)
    requires
        conversation(CreateRun::begin(executive, params, output), replies),
    ensures
        forall|i: int|
            0 <= i < commanded(CreateRun::begin(executive, params, output), replies).len()
                ==> makes_the_contract(
                executive,
                params,
                replies,
                #[trigger] commanded(CreateRun::begin(executive, params, output), replies)[i],
            ),
    decreases replies.len(),
{
    broadcast use group_words;

    if replies.len() > 0 {
        let start = CreateRun::begin(executive, params, output);
        let before = replies.drop_last();
        lemma_create_makes_the_contract(executive, params, output, before);
        lemma_create_history(executive, params, output, before);
        let run = after(start, before);
        let (early, more) = (commanded(start, before), run.next(replies.last()).1);
        assert(forall|i: int| 0 <= i < before.len() ==> replies[i] == before[i]);
        assert forall|i: int| 0 <= i < (early + more).len() implies makes_the_contract(
            executive,
            params,
            replies,
            #[trigger] (early + more)[i],
        ) by {
            if i < early.len() {
                assert((early + more)[i] == early[i]);
            } else {
                assert((early + more)[i] == more[i - early.len()]);
            }
        }
    }
}

/// A creation takes at most one checkpoint and closes it at most once. When it is over, the changes
/// were taken back if and only if the result demands it, and a part of the substate was merged
/// exactly where the changes were kept. A checkpoint stays open only where the host failed, and
/// that failure is then the result, or where the requested expiry has passed.
pub proof fn law_creation_closes_its_checkpoint(
    executive: Executive,
    params: ActionParams,
    output: Option<Seq<u8>>,
    replies: Seq<Reply<Seq<u8>>>,
)
    requires
        conversation(CreateRun::begin(executive, params, output), replies),
    ensures
        ({
            let run = after(CreateRun::begin(executive, params, output), replies);
            let commands = commanded(CreateRun::begin(executive, params, output), replies);
            &&& closings(commands) <= count(commands, Kind::Checkpoint) <= 1
            &&& run.stage matches CreateStage::Done(result) ==> {
                &&& closings(commands) == 1 ==> (count(commands, Kind::Revert) == 1 <==> reverts(
                    result,
                ))
                &&& count(commands, Kind::Accrual) == count(commands, Kind::Discard)
                &&& closings(commands) < count(commands, Kind::Checkpoint) ==> {
                    ||| replies.last() matches Reply::Amount(Err(error)) && result == Err::<
                        FinalizationResult<Seq<u8>>,
                        VmError,
                    >(error)
                    ||| replies.last() matches Reply::Unit(Err(error)) && result == Err::<
                        FinalizationResult<Seq<u8>>,
                        VmError,
                    >(error)
                    ||| result == Err::<FinalizationResult<Seq<u8>>, VmError>(
                        VmError::ContractExpired,
                    ) && executive.requested_expiry(params) < executive.info.timestamp
                }
            }
        }),
{
    lemma_create_history(executive, params, output, replies);
    if replies.len() > 0 {
        let start = CreateRun::begin(executive, params, output);
        let before = replies.drop_last();
        lemma_create_history(executive, params, output, before);
        let run = after(start, before);
        let commands = commanded(start, replies);
        if run.next(replies.last()).0.stage is Done && closings(commands) < count(
            commands,
            Kind::Checkpoint,
        ) {
            lemma_create_step_leaks(run, commanded(start, before), replies.last());
        }
    } else {
        lemma_nothing_commanded(CreateRun::begin(executive, params, output), replies);
    }
}

/// Without replies there is nothing to do.
proof fn lemma_nothing_commanded(run: CreateRun<Seq<u8>>, replies: Seq<Reply<Seq<u8>>>)
    requires
        replies.len() == 0,
    ensures
        commanded(run, replies).len() == 0,
        forall|kind: Kind| #[trigger] count(commanded(run, replies), kind) == 0,
{
}

/// A creation that ended well has made one contract and is traced once. It has closed its
/// checkpoint by keeping the changes, or by taking them back where the code asked for it.
pub proof fn law_creation_that_succeeds_is_closed(
    executive: Executive,
    params: ActionParams,
    output: Option<Seq<u8>>,
    replies: Seq<Reply<Seq<u8>>>,
)
    requires
        conversation(CreateRun::begin(executive, params, output), replies),
    ensures
        ({
            let run = after(CreateRun::begin(executive, params, output), replies);
            let commands = commanded(CreateRun::begin(executive, params, output), replies);
            run.stage matches CreateStage::Done(Ok(finished)) ==> {
                &&& count(commands, Kind::Contract) == 1
                &&& count(commands, Kind::Trace) == 1
                &&& count(commands, Kind::Checkpoint) == 1
                &&& count(commands, Kind::Discard) == (if finished.apply_state {
                    1nat
                } else {
                    0
                })
                &&& count(commands, Kind::Revert) == (if finished.apply_state {
                    0nat
                } else {
                    1
                })
            }
        }),
{
    lemma_create_history(executive, params, output, replies);
}

/// Where the address already has code or a nonce, a creation fails as if its code started with an
/// invalid instruction. Nothing is done.
pub proof fn law_taken_address_fails(
    executive: Executive,
    params: ActionParams,
    output: Option<Seq<u8>>,
    replies: Seq<Reply<Seq<u8>>>,
)
    requires
        conversation(CreateRun::begin(executive, params, output), replies),
        replies.len() > 0,
        replies[0] == Reply::<Seq<u8>>::Flag(Ok(true)),
    ensures
        replies.len() == 1,
        after(CreateRun::begin(executive, params, output), replies).stage == CreateStage::<
            Seq<u8>,
        >::Done(Err(VmError::OutOfGas)),
        commanded(CreateRun::begin(executive, params, output), replies).len() == 0,
{
    let start = CreateRun::begin(executive, params, output);
    lemma_turn(start, replies, 0);
    if replies.len() > 1 {
        lemma_turn(start, replies, 1);
    }
    assert(replies =~= replies.take(1));
}

/// Where the state must stay as it is, nothing is created: at most it is asked whether the address
/// is taken, and no checkpoint is taken and no contract is made.
pub proof fn law_static_creation_changes_nothing(
    executive: Executive,
    params: ActionParams,
    output: Option<Seq<u8>>,
    replies: Seq<Reply<Seq<u8>>>,
)
    requires
        conversation(CreateRun::begin(executive, params, output), replies),
        params.call_type == CallType::StaticCall || executive.static_flag,
    ensures
        replies.len() <= 1,
        count(
            commanded(CreateRun::begin(executive, params, output), replies),
            Kind::Checkpoint,
        ) == 0,
        count(
            commanded(CreateRun::begin(executive, params, output), replies),
            Kind::Contract,
        ) == 0,
        replies.len() == 1 && replies[0] == Reply::<Seq<u8>>::Flag(Ok(false)) ==> after(
            CreateRun::begin(executive, params, output),
            replies,
        ).stage == CreateStage::<Seq<u8>>::Done(Err(VmError::MutableCallInStaticContext)),
{
    broadcast use group_counts;

    let start = CreateRun::begin(executive, params, output);
    lemma_create_history(executive, params, output, replies);
    if replies.len() == 0 {
        lemma_nothing_commanded(start, replies);
    } else {
        lemma_turn(start, replies, 0);
        if replies.len() > 1 {
            lemma_turn(start, replies, 1);
        }
        assert(replies =~= replies.take(1));
        assert(commanded(start, replies.take(0)) + start.next(replies[0]).1 =~= start.next(
            replies[0],
        ).1);
    }
}

/// A creation makes at most one contract, at its address, which starts with what the address
/// already had and the value where it moves, and whose storage has not expired. Code runs only
/// when the contract is made.
pub proof fn law_creation_makes_its_contract(
    executive: Executive,
    params: ActionParams,
    output: Option<Seq<u8>>,
    replies: Seq<Reply<Seq<u8>>>,
)
    requires
        conversation(CreateRun::begin(executive, params, output), replies),
    ensures
        ({
            let run = after(CreateRun::begin(executive, params, output), replies);
            let commands = commanded(CreateRun::begin(executive, params, output), replies);
            &&& count(commands, Kind::Contract) <= 1
            &&& run.stage is Vm ==> count(commands, Kind::Contract) == 1
            &&& forall|i: int|
                0 <= i < commands.len() ==> makes_the_contract(
                    executive,
                    params,
                    replies,
                    #[trigger] commands[i],
                )
        }),
{
    lemma_create_history(executive, params, output, replies);
    lemma_create_makes_the_contract(executive, params, output, replies);
    if replies.len() == 0 {
        lemma_nothing_commanded(CreateRun::begin(executive, params, output), replies);
    }
}

/// A creation asks in a fixed order and nothing twice, so it is over after four replies at most.
pub proof fn law_creation_asks_in_order(
    executive: Executive,
    params: ActionParams,
    output: Option<Seq<u8>>,
    replies: Seq<Reply<Seq<u8>>>,
)
    requires
        conversation(CreateRun::begin(executive, params, output), replies),
    ensures
        replies.len() <= 4,
        asked(CreateRun::begin(executive, params, output), replies).len() == replies.len(),
        forall|i: int, j: int|
            0 <= i < j < replies.len() ==> create_ask_rank(
                #[trigger] asked(CreateRun::begin(executive, params, output), replies)[i],
            ) < create_ask_rank(
                #[trigger] asked(CreateRun::begin(executive, params, output), replies)[j],
            ),
    decreases replies.len(),
{
    let start = CreateRun::begin(executive, params, output);
    lemma_create_history(executive, params, output, replies);
    if replies.len() > 0 {
        let before = replies.drop_last();
        law_creation_asks_in_order(executive, params, output, before);
        lemma_create_asks_below(executive, params, output, before);
        assert(forall|i: int|
            0 <= i < before.len() ==> #[trigger] asked(start, replies)[i] == asked(
                start,
                before,
            )[i]);
    }
}

/// What a creation has asked comes before what it asks.
proof fn lemma_create_asks_below(
    executive: Executive,
    params: ActionParams,
    output: Option<Seq<u8>>,
    replies: Seq<Reply<Seq<u8>>>,
)
    requires
        conversation(CreateRun::begin(executive, params, output), replies),
    ensures
        asked(CreateRun::begin(executive, params, output), replies).len() == replies.len(),
        forall|i: int|
            0 <= i < replies.len() ==> create_ask_rank(
                #[trigger] asked(CreateRun::begin(executive, params, output), replies)[i],
            ) < create_stage_rank(
                after(CreateRun::begin(executive, params, output), replies).stage,
            ),
    decreases replies.len(),
{
    let start = CreateRun::begin(executive, params, output);
    if replies.len() > 0 {
        let before = replies.drop_last();
        lemma_create_asks_below(executive, params, output, before);
        assert(forall|i: int|
            0 <= i < before.len() ==> #[trigger] asked(start, replies)[i] == asked(
                start,
                before,
            )[i]);
    }
}

/// A creation takes the value that moves from its sender, and nothing else from anyone; where
/// value moves, code runs only when it was taken.
pub proof fn law_creation_withdraws_its_value(
    executive: Executive,
    params: ActionParams,
    output: Option<Seq<u8>>,
    replies: Seq<Reply<Seq<u8>>>,
)
    requires
        conversation(CreateRun::begin(executive, params, output), replies),
    ensures
        forall|i: int|
            0 <= i < replies.len() ==> (#[trigger] asked(
                CreateRun::begin(executive, params, output),
                replies,
            )[i] matches Ask::SubBalance { address, value, cleanup } ==> address
                == params.sender && params.value == ActionValue::Transfer(value) && cleanup
                == Cleanup::OfSubstate),
        forall|i: int|
            0 <= i < replies.len() ==> (#[trigger] asked(
                CreateRun::begin(executive, params, output),
                replies,
            )[i] is ExecVm && params.value is Transfer ==> i == 3 && replies[2] matches Reply::Unit(
                Ok(_),
            )),
{
    let start = CreateRun::begin(executive, params, output);
    assert forall|i: int| 0 <= i < replies.len() implies {
        &&& #[trigger] asked(start, replies)[i] matches Ask::SubBalance { address, value, cleanup }
            ==> address == params.sender && params.value == ActionValue::Transfer(value) && cleanup
            == Cleanup::OfSubstate
        &&& asked(start, replies)[i] is ExecVm && params.value is Transfer ==> i == 3
            && replies[2] matches Reply::Unit(Ok(_))
    } by {
        lemma_turn(start, replies, i);
        lemma_create_history(executive, params, output, replies.take(i));
    }
}

/// A creation does not finalize the transaction: it removes no account.
pub proof fn law_creation_does_not_finalize(
    executive: Executive,
    params: ActionParams,
    output: Option<Seq<u8>>,
    replies: Seq<Reply<Seq<u8>>>,
)
    requires
        conversation(CreateRun::begin(executive, params, output), replies),
    ensures
        count(
            commanded(CreateRun::begin(executive, params, output), replies),
            Kind::Removal,
        ) == 0,
{
    lemma_create_history(executive, params, output, replies);
}

/// A creation that succeeds leaves no more gas than it was given.
pub proof fn law_creation_makes_no_gas(
    executive: Executive,
    params: ActionParams,
    output: Option<Seq<u8>>,
    replies: Seq<Reply<Seq<u8>>>,
)
    requires
        conversation(CreateRun::begin(executive, params, output), replies),
    ensures
        after(CreateRun::begin(executive, params, output), replies).stage matches CreateStage::Done(
            Ok(finished),
        ) ==> (finished.apply_state ==> finished.gas_left@ <= params.gas@),
{
    lemma_create_history(executive, params, output, replies);
}

/// The code of a creation runs in the block, under the rules and at the depth of its executive, and
/// only where the state may change. What it returns is copied to the record where one is kept, and
/// to the prepared output of the trace where none is.
pub proof fn law_creation_code_is_not_static(
    executive: Executive,
    params: ActionParams,
    output: Option<Seq<u8>>,
    replies: Seq<Reply<Seq<u8>>>,
)
    requires
        conversation(CreateRun::begin(executive, params, output), replies),
    ensures
        forall|i: int|
            0 <= i < replies.len() ==> (#[trigger] asked(
                CreateRun::begin(executive, params, output),
                replies,
            )[i] matches Ask::ExecVm(call) ==> {
                &&& call.info == executive.info
                &&& call.machine == executive.machine
                &&& call.params == params
                &&& call.depth == executive.depth
                &&& !call.static_flag
                &&& call.output matches OutputPolicy::InitContract(copy)
                &&& (copy is Record <==> output is Some)
            }),
{
    let start = CreateRun::begin(executive, params, output);
    assert forall|i: int| 0 <= i < replies.len() implies (#[trigger] asked(
        start,
        replies,
    )[i] matches Ask::ExecVm(call) ==> {
        &&& call.info == executive.info
        &&& call.machine == executive.machine
        &&& call.params == params
        &&& call.depth == executive.depth
        &&& !call.static_flag
        &&& call.output matches OutputPolicy::InitContract(copy)
        &&& (copy is Record <==> output is Some)
    }) by {
        lemma_turn(start, replies, i);
        lemma_create_history(executive, params, output, replies.take(i));
    }
}

/// Once the address was found free, all that a creation asks happens while its checkpoint is open,
/// so that a failure can take back whatever changed.
pub proof fn law_creation_changes_are_under_a_checkpoint(
    executive: Executive,
    params: ActionParams,
    output: Option<Seq<u8>>,
    replies: Seq<Reply<Seq<u8>>>,
)
    requires
        conversation(CreateRun::begin(executive, params, output), replies),
    ensures
        forall|i: int|
            0 <= i < replies.len() && !(#[trigger] asked(
                CreateRun::begin(executive, params, output),
                replies,
            )[i] is ExistsAndHasCodeOrNonce) ==> {
                let commands = commanded(
                    CreateRun::begin(executive, params, output),
                    replies.take(i),
                );
                &&& count(commands, Kind::Checkpoint) == 1
                &&& closings(commands) == 0
            },
{
    let start = CreateRun::begin(executive, params, output);
    assert forall|i: int|
        0 <= i < replies.len() && !(#[trigger] asked(
            start,
            replies,
        )[i] is ExistsAndHasCodeOrNonce) implies {
        let commands = commanded(start, replies.take(i));
        &&& count(commands, Kind::Checkpoint) == 1
        &&& closings(commands) == 0
    } by {
        lemma_turn(start, replies, i);
        lemma_create_history(executive, params, output, replies.take(i));
    }
}

/// A creation that is not over takes some reply.
pub proof fn law_creation_is_never_stuck(run: CreateRun<Seq<u8>>)
    requires
        run.asks() is Some,
    ensures
        exists|reply: Reply<Seq<u8>>| run.accepts(reply),
{
    match run.stage {
        CreateStage::Occupied => {
            assert(run.accepts(Reply::Flag(Ok(true))));
        },
        CreateStage::Balance { .. } => {
            assert(run.accepts(Reply::Amount(Err(VmError::OutOfBounds))));
        },
        CreateStage::Fund { .. } => {
            assert(run.accepts(Reply::Unit(Err(VmError::OutOfBounds))));
        },
        CreateStage::Vm => {
            assert(run.accepts(
                Reply::Vm {
                    result: Err(VmError::OutOfGas),
                    output: OutputPolicy::InitContract(OutputCopy::of_record(run.output)),
                },
            ));
        },
        CreateStage::Done(_) => {},
    }
}

} // verus!
