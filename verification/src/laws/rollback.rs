//! What becomes of the state: a failed call or creation leaves it as it was.
use crate::bytes::BytesRef;
use crate::call::{CallRun, CallStage};
use crate::create::{CreateRun, CreateStage};
use crate::executive::{reverts, Executive};
use crate::history::{after, conversation, Run};
use crate::laws::calls::call_start;
use crate::protocol::{Command, Reply};
use crate::vm::ActionParams;
use vstd::prelude::*;

verus! {

/// A state with the checkpoints that were taken of it, the last one at the end.
pub struct Checkpointed<S> {
    /// The state.
    pub state: S,
    /// What the state was at the checkpoints that are open.
    pub saved: Seq<S>,
}

/// The state after a command. Checkpoints are taken, returned to and forgotten; a contract is made
/// in whatever way `make` says; nothing else that an action commands changes the state.
pub open spec fn obeyed<S>(
    host: Checkpointed<S>,
    command: Command<Seq<u8>>,
    make: spec_fn(S, Command<Seq<u8>>) -> S,
) -> Checkpointed<S> {
    match command {
        Command::Checkpoint => Checkpointed {
            state: host.state,
            saved: host.saved.push(host.state),
        },
        Command::RevertToCheckpoint => Checkpointed {
            state: host.saved.last(),
            saved: host.saved.drop_last(),
        },
        Command::DiscardCheckpoint => Checkpointed {
            state: host.state,
            saved: host.saved.drop_last(),
        },
        Command::NewContract { .. } => Checkpointed {
            state: make(host.state, command),
            saved: host.saved,
        },
        _ => host,
    }
}

/// The state after some commands.
pub open spec fn all_obeyed<S>(
    host: Checkpointed<S>,
    commands: Seq<Command<Seq<u8>>>,
    make: spec_fn(S, Command<Seq<u8>>) -> S,
) -> Checkpointed<S>
    decreases commands.len(),
{
    if commands.len() == 0 {
        host
    } else {
        obeyed(all_obeyed(host, commands.drop_last(), make), commands.last(), make)
    }
}

/// The state after a conversation. When the host has answered the question at a turn, the state is
/// what `answered` says; whatever ran for the answer has closed its own checkpoints.
pub open spec fn state_after<R: Run, S>(
    host: Checkpointed<S>,
    run: R,
    replies: Seq<R::Reply>,
    answered: spec_fn(int) -> S,
    make: spec_fn(S, Command<Seq<u8>>) -> S,
) -> Checkpointed<S>
    decreases replies.len(),
{
    if replies.len() == 0 {
        host
    } else {
        let before = replies.drop_last();
        let earlier = state_after(host, run, before, answered, make);
        all_obeyed(
            Checkpointed { state: answered(before.len() as int), saved: earlier.saved },
            after(run, before).next(replies.last()).1,
            make,
        )
    }
}

/// Where the state has to be when a call is where it is.
pub open spec fn call_state_in_order<S>(
    first: Checkpointed<S>,
    run: CallRun<Seq<u8>>,
    host: Checkpointed<S>,
) -> bool {
    match run.stage {
        CallStage::Expiry => host == first,
        CallStage::Done(result) => {
            ||| host == first
            ||| host.saved == first.saved && !reverts(result)
            ||| host.saved == first.saved.push(first.state) && result is Err
        },
        _ => host.saved == first.saved.push(first.state),
    }
}

/// A step of a call keeps the state in order. Only the question of the expiry is answered before
/// the checkpoint, and it changes nothing.
proof fn lemma_call_state_step<S>(
    first: Checkpointed<S>,
    run: CallRun<Seq<u8>>,
    host: Checkpointed<S>,
    reply: Reply<Seq<u8>>,
    state: S,
    make: spec_fn(S, Command<Seq<u8>>) -> S,
)
    requires
        call_state_in_order(first, run, host),
        run.accepts(reply),
        run.stage is Expiry ==> state == host.state,
    ensures
        call_state_in_order(
            first,
            run.next(reply).0,
            all_obeyed(
                Checkpointed { state, saved: host.saved },
                run.next(reply).1,
                make,
            ),
        ),
{
    reveal_with_fuel(all_obeyed, 7);
    assert(first.saved.push(first.state).drop_last() =~= first.saved);
}

/// Whether the host failed to do what was asked last.
pub open spec fn host_failed(replies: Seq<Reply<Seq<u8>>>) -> bool {
    replies.len() > 0 && match replies.last() {
        Reply::Unit(Err(_)) => true,
        Reply::Amount(Err(_)) => true,
        _ => false,
    }
}

/// The last step of a call closes its checkpoint, unless moving the value failed.
proof fn lemma_call_state_last_step<S>(
    first: Checkpointed<S>,
    run: CallRun<Seq<u8>>,
    host: Checkpointed<S>,
    reply: Reply<Seq<u8>>,
    state: S,
    make: spec_fn(S, Command<Seq<u8>>) -> S,
)
    requires
        call_state_in_order(first, run, host),
        run.accepts(reply),
        run.stage is Expiry ==> state == host.state,
        run.next(reply).0.stage is Done,
        !(reply matches Reply::Unit(Err(_))),
    ensures
        all_obeyed(
            Checkpointed { state, saved: host.saved },
            run.next(reply).1,
            make,
        ).saved == first.saved,
{
    reveal_with_fuel(all_obeyed, 7);
    assert(first.saved.push(first.state).drop_last() =~= first.saved);
}

/// The start of a call keeps the state in order.
proof fn lemma_call_state_start<S>(
    host: Checkpointed<S>,
    executive: Executive,
    params: ActionParams,
    output: BytesRef<Seq<u8>>,
    make: spec_fn(S, Command<Seq<u8>>) -> S,
)
    ensures
        call_state_in_order(
            host,
            call_start(executive, params, output),
            all_obeyed(host, CallRun::begin(executive, params, output).1, make),
        ),
        call_start(executive, params, output).stage is Done ==> all_obeyed(
            host,
            CallRun::begin(executive, params, output).1,
            make,
        ) == host,
        call_start(executive, params, output).stage is Expiry ==> all_obeyed(
            host,
            CallRun::begin(executive, params, output).1,
            make,
        ) == host,
{
    reveal_with_fuel(all_obeyed, 2);
}

/// The state stays in order over a conversation with a call.
proof fn lemma_call_state<S>(
    host: Checkpointed<S>,
    executive: Executive,
    params: ActionParams,
    output: BytesRef<Seq<u8>>,
    replies: Seq<Reply<Seq<u8>>>,
    answered: spec_fn(int) -> S,
    make: spec_fn(S, Command<Seq<u8>>) -> S,
)
    requires
        conversation(call_start(executive, params, output), replies),
        call_start(executive, params, output).stage is Expiry ==> answered(0) == host.state,
    ensures
        ({
            let start = call_start(executive, params, output);
            let started = all_obeyed(host, CallRun::begin(executive, params, output).1, make);
            let end = state_after(started, start, replies, answered, make);
            &&& call_state_in_order(host, after(start, replies), end)
            &&& after(start, replies).stage is Done && !host_failed(replies) ==> end.saved
                == host.saved
            &&& after(start, replies).stage is Expiry ==> replies.len() == 0
        }),
    decreases replies.len(),
{
    let start = call_start(executive, params, output);
    let started = all_obeyed(host, CallRun::begin(executive, params, output).1, make);
    lemma_call_state_start(host, executive, params, output, make);
    if replies.len() > 0 {
        let before = replies.drop_last();
        lemma_call_state(host, executive, params, output, before, answered, make);
        let run = after(start, before);
        let earlier = state_after(started, start, before, answered, make);
        let state = answered(before.len() as int);
        lemma_call_state_step(host, run, earlier, replies.last(), state, make);
        if run.next(replies.last()).0.stage is Done && !host_failed(replies) {
            lemma_call_state_last_step(host, run, earlier, replies.last(), state, make);
        }
    }
}

/// A call that failed, or whose code asked for it, leaves the state as it was, whatever its code
/// has done to it. Every call that is over has closed its checkpoint. Both hold unless the host
/// failed to move the value. To ask for the expiry does not change the state.
pub proof fn law_failed_call_leaves_the_state<S>(
    host: Checkpointed<S>,
    executive: Executive,
    params: ActionParams,
    output: BytesRef<Seq<u8>>,
    replies: Seq<Reply<Seq<u8>>>,
    answered: spec_fn(int) -> S,
    make: spec_fn(S, Command<Seq<u8>>) -> S,
)
    requires
        conversation(call_start(executive, params, output), replies),
        params.code is Some && params.code->0@.len() > 0 ==> answered(0) == host.state,
        !host_failed(replies),
    ensures
        ({
            let start = call_start(executive, params, output);
            let started = all_obeyed(host, CallRun::begin(executive, params, output).1, make);
            let end = state_after(started, start, replies, answered, make);
            after(start, replies).stage matches CallStage::Done(result) ==> {
                &&& end.saved == host.saved
                &&& reverts(result) ==> end.state == host.state
            }
        }),
{
    lemma_call_state(host, executive, params, output, replies, answered, make);
    assert(host.saved.push(host.state).len() != host.saved.len());
}

/// Where the state has to be when a creation is where it is.
pub open spec fn create_state_in_order<S>(
    first: Checkpointed<S>,
    run: CreateRun<Seq<u8>>,
    host: Checkpointed<S>,
) -> bool {
    match run.stage {
        CreateStage::Occupied => host == first,
        CreateStage::Done(result) => {
            ||| host == first
            ||| host.saved == first.saved && !reverts(result)
            ||| host.saved == first.saved.push(first.state) && result is Err
        },
        _ => host.saved == first.saved.push(first.state),
    }
}

/// Whether a creation that gets the reply to its first question finds that the requested expiry
/// has passed: the address is free and the state may change.
pub open spec fn finds_expiry_passed(
    executive: Executive,
    params: ActionParams,
    reply: Reply<Seq<u8>>,
) -> bool {
    &&& reply == Reply::<Seq<u8>>::Flag(Ok(false))
    &&& !executive.refuses_create(params)
    &&& executive.requested_expiry(params) < executive.info.timestamp
}

/// A step of a creation keeps the state in order. Only the question whether the address is taken
/// is answered before the checkpoint, and it changes nothing.
proof fn lemma_create_state_step<S>(
    first: Checkpointed<S>,
    run: CreateRun<Seq<u8>>,
    host: Checkpointed<S>,
    reply: Reply<Seq<u8>>,
    state: S,
    make: spec_fn(S, Command<Seq<u8>>) -> S,
)
    requires
        create_state_in_order(first, run, host),
        run.accepts(reply),
        run.stage is Occupied ==> state == host.state,
    ensures
        ({
            let end = all_obeyed(
                Checkpointed { state, saved: host.saved },
                run.next(reply).1,
                make,
            );
            &&& create_state_in_order(first, run.next(reply).0, end)
            &&& {
                &&& run.next(reply).0.stage is Done
                &&& !(reply matches Reply::Unit(Err(_)))
                &&& !(reply matches Reply::Amount(Err(_)))
            } ==> if run.stage is Occupied && finds_expiry_passed(
                run.executive,
                run.params,
                reply,
            ) {
                end == Checkpointed { state: first.state, saved: first.saved.push(first.state) }
            } else {
                end.saved == first.saved
            }
            &&& run.stage is Occupied && !(run.next(reply).0.stage is Done)
                ==> run.executive.requested_expiry(run.params) >= run.executive.info.timestamp
        }),
{
    reveal_with_fuel(all_obeyed, 7);
    assert(first.saved.push(first.state).drop_last() =~= first.saved);
}

/// The state stays in order over a conversation with a creation.
proof fn lemma_create_state<S>(
    host: Checkpointed<S>,
    executive: Executive,
    params: ActionParams,
    output: Option<Seq<u8>>,
    replies: Seq<Reply<Seq<u8>>>,
    answered: spec_fn(int) -> S,
    make: spec_fn(S, Command<Seq<u8>>) -> S,
)
    requires
        conversation(CreateRun::begin(executive, params, output), replies),
        answered(0) == host.state,
    ensures
        ({
            let start = CreateRun::begin(executive, params, output);
            let run = after(start, replies);
            let end = state_after(host, start, replies, answered, make);
            &&& run.executive == executive && run.params == params
            &&& create_state_in_order(host, run, end)
            &&& run.stage is Occupied ==> replies.len() == 0
            &&& !(run.stage is Occupied) && !(run.stage is Done) ==> executive.requested_expiry(
                params,
            ) >= executive.info.timestamp
            &&& run.stage is Done && !host_failed(replies) ==> if finds_expiry_passed(
                executive,
                params,
                replies[0],
            ) {
                end == Checkpointed { state: host.state, saved: host.saved.push(host.state) }
            } else {
                end.saved == host.saved
            }
        }),
    decreases replies.len(),
{
    let start = CreateRun::begin(executive, params, output);
    if replies.len() > 0 {
        let before = replies.drop_last();
        lemma_create_state(host, executive, params, output, before, answered, make);
        lemma_create_state_step(
            host,
            after(start, before),
            state_after(host, start, before, answered, make),
            replies.last(),
            answered(before.len() as int),
            make,
        );
    }
}

/// A creation that failed, or whose code asked for it, leaves the state as it was, whatever its
/// code has done to it; the contract is gone. A creation that is over has closed its checkpoint,
/// but for one that found the requested expiry passed, whose checkpoint stays open. Both hold
/// unless the host failed. To ask whether the address is taken does not change the state.
pub proof fn law_failed_creation_leaves_the_state<S>(
    host: Checkpointed<S>,
    executive: Executive,
    params: ActionParams,
    output: Option<Seq<u8>>,
    replies: Seq<Reply<Seq<u8>>>,
    answered: spec_fn(int) -> S,
    make: spec_fn(S, Command<Seq<u8>>) -> S,
)
    requires
        conversation(CreateRun::begin(executive, params, output), replies),
        answered(0) == host.state,
        !host_failed(replies),
    ensures
        ({
            let start = CreateRun::begin(executive, params, output);
            let end = state_after(host, start, replies, answered, make);
            after(start, replies).stage matches CreateStage::Done(result) ==> {
                &&& end.saved == (if finds_expiry_passed(executive, params, replies[0]) {
                    host.saved.push(host.state)
                } else {
                    host.saved
                })
                &&& reverts(result) ==> end.state == host.state
            }
        }),
{
    lemma_create_state(host, executive, params, output, replies, answered, make);
    assert(host.saved.push(host.state).len() != host.saved.len());
}

} // verus!
