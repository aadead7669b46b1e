//! What is known of a transaction from the answers that it got: which action it asks for, which of
//! the answers belong to its action and which to its finalization, and how its action ended.
use crate::bytes::BytesRef;
use crate::call::{CallRun, CallStage};
use crate::contract_address::new_contract_address;
use crate::create::{CreateRun, CreateStage};
use crate::finalize::FinalizeRun;
use crate::hash::{address, h256, keccak256};
use crate::history::{after, conversation, told, Run};
use crate::laws::call_effects::bytes_of;
use crate::laws::receipts::gas_in_range;
use crate::protocol::Reply;
use crate::transact::{Admission, TransactRun, TransactStage};
use crate::transact_protocol::TransactReply;
use crate::transaction::{Action, ExecutionError};
use crate::uint::{group_words, u256};
use crate::vm::{
    ActionParams, ActionResult, ActionValue, CallType, CleanDustMode, ParamsType,
};
use vstd::prelude::*;

verus! {

/// The base gas, as it was answered.
pub open spec fn base_gas_of(replies: Seq<TransactReply<Seq<u8>>>) -> u64 {
    replies[2]->Gas_0
}

/// How many replies the existence of the sender takes: it is asked for a signed transaction whose
/// nonce is checked, where dust is removed.
pub open spec fn existence_turns(start: TransactRun<Seq<u8>>) -> int {
    if !start.transaction.unsigned && start.check_nonce
        && start.executive.machine.schedule.kill_dust != CleanDustMode::Off {
        1
    } else {
        0
    }
}

/// How many replies there are when the gas is paid: one more where the existence of the sender was
/// asked for, and one more where the nonce of the sender was incremented.
pub open spec fn paid_turn(start: TransactRun<Seq<u8>>) -> int {
    5 + existence_turns(start) + if start.transaction.unsigned {
        0int
    } else {
        1int
    }
}

/// What a transaction that creates a contract asks to be created, when its checks were answered:
/// by its sender, at the address that belongs to the nonce that the sender had, with its value,
/// and with its gas less the base gas. The code is its data, or what the header leaves of it.
pub open spec fn creation_asked_for(
    start: TransactRun<Seq<u8>>,
    replies: Seq<TransactReply<Seq<u8>>>,
) -> ActionParams {
    let t = start.transaction;
    let scheme = start.executive.machine.create_address_scheme;
    let nonce = replies[0]->Amount_0->Ok_0;
    let header = replies[1]->Oasis_0->Ok_0;
    let place = address(new_contract_address(scheme, t.sender, nonce, t.data@));
    ActionParams {
        code_address: place,
        code_hash: if scheme is FromSenderAndNonce {
            None
        } else {
            Some(h256(keccak256(t.data@)))
        },
        address: place,
        sender: t.sender,
        origin: t.sender,
        origin_nonce: nonce,
        gas: u256((t.gas@ - base_gas_of(replies)) as nat),
        gas_price: t.gas_price,
        value: ActionValue::Transfer(t.value),
        code: Some(
            if header is Some {
                header->0.code
            } else {
                t.data
            },
        ),
        data: None,
        call_type: CallType::Creation,
        params_type: ParamsType::Embedded,
        oasis_contract: header,
        aad: None,
    }
}

/// What a transaction that calls an account asks to be called, when its checks, the code of the
/// account and the hash of the code were answered: by its sender, the account that it names, with
/// its value, its data, and its gas less the base gas. The code is that of the account, or what
/// the header leaves of it.
pub open spec fn call_asked_for(
    start: TransactRun<Seq<u8>>,
    replies: Seq<TransactReply<Seq<u8>>>,
) -> ActionParams {
    let t = start.transaction;
    let header = replies[1]->Oasis_0->Ok_0;
    ActionParams {
        code_address: t.action->Call_0,
        code_hash: Some(replies[paid_turn(start) + 1]->Hash_0->Ok_0),
        address: t.action->Call_0,
        sender: t.sender,
        origin: t.sender,
        origin_nonce: replies[0]->Amount_0->Ok_0,
        gas: u256((t.gas@ - base_gas_of(replies)) as nat),
        gas_price: t.gas_price,
        value: ActionValue::Transfer(t.value),
        code: if header is Some {
            Some(header->0.code)
        } else {
            replies[paid_turn(start)]->Code_0->Ok_0
        },
        data: Some(t.data),
        call_type: CallType::Call,
        params_type: ParamsType::Separate,
        oasis_contract: header,
        aad: None,
    }
}

/// The creation of a transaction as it starts: with an empty record of its output where the output
/// of creations is saved, and with none otherwise.
pub open spec fn creation_within(
    start: TransactRun<Seq<u8>>,
    replies: Seq<TransactReply<Seq<u8>>>,
) -> CreateRun<Seq<u8>> {
    CreateRun::begin(
        start.executive,
        creation_asked_for(start, replies),
        if start.output_from_create {
            Some(Seq::empty())
        } else {
            None
        },
    )
}

/// The call of a transaction as it starts, with an empty buffer for its output.
pub open spec fn call_within(
    start: TransactRun<Seq<u8>>,
    replies: Seq<TransactReply<Seq<u8>>>,
) -> CallRun<Seq<u8>> {
    CallRun::begin(
        start.executive,
        call_asked_for(start, replies),
        BytesRef::Flexible(Seq::empty()),
    ).0
}

/// The replies that answered the call or the creation of a transaction.
pub open spec fn acts(replies: Seq<TransactReply<Seq<u8>>>) -> Seq<Reply<Seq<u8>>>
    decreases replies.len(),
{
    if replies.len() == 0 {
        Seq::empty()
    } else {
        match replies.last() {
            TransactReply::Act(reply) => acts(replies.drop_last()).push(reply),
            _ => acts(replies.drop_last()),
        }
    }
}

/// The replies that answered the finalization of a transaction: those from the substate on.
pub open spec fn closing(replies: Seq<TransactReply<Seq<u8>>>) -> Seq<TransactReply<Seq<u8>>>
    decreases replies.len(),
{
    if replies.len() == 0 {
        Seq::empty()
    } else if replies.last() is Substate || closing(replies.drop_last()).len() > 0 {
        closing(replies.drop_last()).push(replies.last())
    } else {
        Seq::empty()
    }
}

/// Whether the action of the transaction is over with the result and the output: for a call, what
/// its buffer holds; for a creation, its record, or nothing where none is kept.
pub open spec fn action_ended(
    start: TransactRun<Seq<u8>>,
    replies: Seq<TransactReply<Seq<u8>>>,
    result: ActionResult<Seq<u8>>,
    output: Seq<u8>,
) -> bool {
    match start.transaction.action {
        Action::Create => {
            let creation = after(creation_within(start, replies), acts(replies));
            &&& conversation(creation_within(start, replies), acts(replies))
            &&& creation.stage == CreateStage::Done(result)
            &&& match creation.output {
                Some(record) => output == record,
                None => output.len() == 0,
            }
        },
        Action::Call(_) => {
            let call = after(call_within(start, replies), acts(replies));
            &&& conversation(call_within(start, replies), acts(replies))
            &&& call.stage == CallStage::Done(result)
            &&& output == bytes_of(call.output)
        },
    }
}

/// Whether the transaction is over with the error.
pub open spec fn ends_with(run: TransactRun<Seq<u8>>, error: ExecutionError) -> bool {
    &&& run.stage == TransactStage::<Seq<u8>>::Done(Err(error))
    &&& run.asks() is None
}

/// Whether the admission is what the first three replies say.
pub open spec fn admits(
    start: TransactRun<Seq<u8>>,
    replies: Seq<TransactReply<Seq<u8>>>,
    admission: Admission,
) -> bool {
    &&& replies.len() >= 3
    &&& replies[0] == TransactReply::<Seq<u8>>::Amount(Ok(admission.nonce))
    &&& replies[1] == TransactReply::<Seq<u8>>::Oasis(Ok(admission.oasis_contract))
    &&& replies[2] matches TransactReply::Gas(base_gas)
    &&& admission.init_gas@ + base_gas == start.transaction.gas@
    &&& start.executive.info.gas_used@ + start.transaction.gas@ <= start.executive.info.gas_limit@
}

/// Whether the first three replies are the answers of the checks, and the gas is paid.
pub open spec fn is_paid_for(
    start: TransactRun<Seq<u8>>,
    replies: Seq<TransactReply<Seq<u8>>>,
) -> bool {
    &&& replies.len() >= paid_turn(start)
    &&& replies[0] matches TransactReply::Amount(Ok(_))
    &&& replies[1] matches TransactReply::Oasis(Ok(_))
    &&& replies[2] matches TransactReply::Gas(base_gas)
    &&& base_gas <= start.transaction.gas@
    &&& gas_in_range(start.executive, start.transaction)
}

/// Whether the creation is where the replies that are for it have brought it.
#[verifier::opaque]
pub open spec fn creates_as_asked(
    start: TransactRun<Seq<u8>>,
    replies: Seq<TransactReply<Seq<u8>>>,
    creation: CreateRun<Seq<u8>>,
) -> bool {
    &&& start.transaction.action is Create
    &&& is_paid_for(start, replies)
    &&& conversation(creation_within(start, replies), acts(replies))
    &&& creation == after(creation_within(start, replies), acts(replies))
    &&& !(creation.stage is Done)
}

/// Whether the call is where the replies that are for it have brought it.
#[verifier::opaque]
pub open spec fn calls_as_asked(
    start: TransactRun<Seq<u8>>,
    replies: Seq<TransactReply<Seq<u8>>>,
    call: CallRun<Seq<u8>>,
) -> bool {
    &&& start.transaction.action is Call
    &&& is_paid_for(start, replies)
    &&& replies.len() >= paid_turn(start) + 2
    &&& replies[paid_turn(start)] matches TransactReply::Code(Ok(_))
    &&& replies[paid_turn(start) + 1] matches TransactReply::Hash(Ok(_))
    &&& conversation(call_within(start, replies), acts(replies))
    &&& call == after(call_within(start, replies), acts(replies))
    &&& !(call.stage is Done)
}

/// Whether the finalization is that of the action that ended, and is where the replies that are
/// for it have brought it.
#[verifier::opaque]
pub open spec fn finalizes_as_ended(
    start: TransactRun<Seq<u8>>,
    replies: Seq<TransactReply<Seq<u8>>>,
    last: FinalizeRun<Seq<u8>>,
) -> bool {
    let first = FinalizeRun::begin(
        start.executive,
        start.transaction,
        last.result,
        last.output,
    );
    &&& is_paid_for(start, replies)
    &&& start.transaction.action is Call ==> replies.len() >= paid_turn(start) + 2
    &&& action_ended(start, replies, last.result, last.output)
    &&& conversation(first, closing(replies))
    &&& last == after(first, closing(replies))
    &&& !(last.stage is Done)
}

/// What holds of a transaction after the replies, whatever it waits for.
#[verifier::opaque]
pub open spec fn transaction_keeps(
    start: TransactRun<Seq<u8>>,
    run: TransactRun<Seq<u8>>,
    replies: Seq<TransactReply<Seq<u8>>>,
) -> bool {
    let t = start.transaction;
    let turns = existence_turns(start);
    let cost = t.gas@ * t.gas_price@;
    &&& run.executive == start.executive
    &&& run.transaction == t
    &&& run.check_nonce == start.check_nonce
    &&& run.output_from_create == start.output_from_create
    &&& run.stage is Creating || run.stage is Calling || run.stage is Finalizing
        || run.stage is Done || acts(replies).len() == 0
    &&& !(run.stage is Finalizing) && !(run.stage is Done) ==> closing(replies).len() == 0
    &&& match run.stage {
        TransactStage::VirtualBalance => false,
        TransactStage::TopUp { .. } => false,
        TransactStage::Nonce => replies.len() == 0,
        TransactStage::Oasis { nonce } => {
            &&& replies.len() == 1
            &&& replies[0] == TransactReply::<Seq<u8>>::Amount(Ok(nonce))
        },
        TransactStage::GasRequired { nonce, oasis_contract } => {
            &&& replies.len() == 2
            &&& replies[0] == TransactReply::<Seq<u8>>::Amount(Ok(nonce))
            &&& replies[1] == TransactReply::<Seq<u8>>::Oasis(Ok(oasis_contract))
        },
        TransactStage::Exists { nonce, oasis_contract, base_gas } => {
            &&& turns == 1
            &&& replies.len() == 3
            &&& replies[0] == TransactReply::<Seq<u8>>::Amount(Ok(nonce))
            &&& replies[1] == TransactReply::<Seq<u8>>::Oasis(Ok(oasis_contract))
            &&& replies[2] matches TransactReply::Gas(required)
            &&& base_gas@ == required
            &&& required <= t.gas@
        },
        TransactStage::Balance(admission) => {
            &&& replies.len() == 3 + turns
            &&& admits(start, replies, admission)
        },
        TransactStage::IncNonce { admission, gas_cost } => {
            &&& replies.len() == 4 + turns
            &&& admits(start, replies, admission)
            &&& !t.unsigned
            &&& gas_cost@ == cost
        },
        TransactStage::Charge { admission, gas_cost } => {
            &&& replies.len() == paid_turn(start) - 1
            &&& admits(start, replies, admission)
            &&& gas_cost@ == cost
        },
        TransactStage::Code { admission, callee } => {
            &&& replies.len() == paid_turn(start)
            &&& admits(start, replies, admission)
            &&& t.action == Action::Call(callee)
            &&& is_paid_for(start, replies)
        },
        TransactStage::CodeHash { admission, callee, code } => {
            &&& replies.len() == paid_turn(start) + 1
            &&& admits(start, replies, admission)
            &&& t.action == Action::Call(callee)
            &&& is_paid_for(start, replies)
            &&& replies[paid_turn(start)] == TransactReply::<Seq<u8>>::Code(Ok(code))
        },
        TransactStage::Creating(creation) => creates_as_asked(start, replies, creation),
        TransactStage::Calling(call) => calls_as_asked(start, replies, call),
        TransactStage::Finalizing(last) => finalizes_as_ended(start, replies, last),
        TransactStage::Done(_) => true,
    }
}

/// More replies do not change what the first ones say.
pub proof fn lemma_first_replies_stay(
    start: TransactRun<Seq<u8>>,
    replies: Seq<TransactReply<Seq<u8>>>,
    reply: TransactReply<Seq<u8>>,
)
    ensures
        replies.push(reply).drop_last() == replies,
        forall|i: int| 0 <= i < replies.len() ==> replies.push(reply)[i] == replies[i],
        replies.push(reply)[replies.len() as int] == reply,
        is_paid_for(start, replies) ==> is_paid_for(start, replies.push(reply)),
        replies.len() >= 3 ==> creation_within(start, replies.push(reply)) == creation_within(
            start,
            replies,
        ),
        replies.len() >= paid_turn(start) + 2 ==> call_within(start, replies.push(reply))
            == call_within(start, replies),
{
    assert(replies.push(reply).drop_last() =~= replies);
}

/// A step of a run is a step in its conversation.
pub proof fn lemma_one_more<R: Run>(run: R, replies: Seq<R::Reply>, reply: R::Reply)
    requires
        conversation(run, replies),
        after(run, replies).accepts(reply),
    ensures
        conversation(run, replies.push(reply)),
        after(run, replies.push(reply)) == after(run, replies).next(reply).0,
        told(run, replies.push(reply)) == after(run, replies).next(reply).1,
{
    assert(replies.push(reply).drop_last() =~= replies);
}

/// A finalization keeps what it was started with.
proof fn lemma_finalization_is_of_its_action(
    run: FinalizeRun<Seq<u8>>,
    reply: TransactReply<Seq<u8>>,
)
    ensures
        run.next(reply).0.result == run.result,
        run.next(reply).0.output == run.output,
        run.next(reply).0.executive == run.executive,
        run.next(reply).0.transaction == run.transaction,
{
}

/// The answers to the first questions keep it.
proof fn lemma_first_answers_keep(
    start: TransactRun<Seq<u8>>,
    run: TransactRun<Seq<u8>>,
    replies: Seq<TransactReply<Seq<u8>>>,
    reply: TransactReply<Seq<u8>>,
)
    requires
        transaction_keeps(start, run, replies),
        run.stage is Nonce || run.stage is Oasis,
        run.accepts(reply),
    ensures
        transaction_keeps(start, run.next(reply).0, replies.push(reply)),
{
    reveal(TransactRun::checks_next);
    reveal(transaction_keeps);
    lemma_first_replies_stay(start, replies, reply);
}

/// The answer to the question of the base gas keeps it.
#[verifier::rlimit(40)]
proof fn lemma_base_gas_keeps(
    start: TransactRun<Seq<u8>>,
    run: TransactRun<Seq<u8>>,
    replies: Seq<TransactReply<Seq<u8>>>,
    reply: TransactReply<Seq<u8>>,
)
    requires
        transaction_keeps(start, run, replies),
        run.stage is GasRequired,
        run.accepts(reply),
    ensures
        transaction_keeps(start, run.next(reply).0, replies.push(reply)),
{
    broadcast use group_words;

    reveal(TransactRun::checks_next);
    reveal(transaction_keeps);
    lemma_first_replies_stay(start, replies, reply);
}

/// The answer to the question of the sender's existence keeps it.
#[verifier::rlimit(40)]
proof fn lemma_existence_keeps(
    start: TransactRun<Seq<u8>>,
    run: TransactRun<Seq<u8>>,
    replies: Seq<TransactReply<Seq<u8>>>,
    reply: TransactReply<Seq<u8>>,
)
    requires
        transaction_keeps(start, run, replies),
        run.stage is Exists,
        run.accepts(reply),
    ensures
        transaction_keeps(start, run.next(reply).0, replies.push(reply)),
{
    broadcast use group_words;

    reveal(TransactRun::checks_next);
    reveal(transaction_keeps);
    lemma_first_replies_stay(start, replies, reply);
}

/// The answer to the question of the balance keeps it.
#[verifier::rlimit(40)]
pub proof fn lemma_balance_keeps(
    start: TransactRun<Seq<u8>>,
    run: TransactRun<Seq<u8>>,
    replies: Seq<TransactReply<Seq<u8>>>,
    reply: TransactReply<Seq<u8>>,
)
    requires
        transaction_keeps(start, run, replies),
        run.stage is Balance,
        run.accepts(reply),
    ensures
        transaction_keeps(start, run.next(reply).0, replies.push(reply)),
{
    broadcast use group_words;

    reveal(TransactRun::checks_next);
    reveal(transaction_keeps);
    lemma_first_replies_stay(start, replies, reply);
}

/// The increment of the nonce keeps it.
#[verifier::rlimit(40)]
pub proof fn lemma_increment_keeps(
    start: TransactRun<Seq<u8>>,
    run: TransactRun<Seq<u8>>,
    replies: Seq<TransactReply<Seq<u8>>>,
    reply: TransactReply<Seq<u8>>,
)
    requires
        transaction_keeps(start, run, replies),
        run.stage is IncNonce,
        run.accepts(reply),
    ensures
        transaction_keeps(start, run.next(reply).0, replies.push(reply)),
{
    reveal(TransactRun::checks_next);
    reveal(transaction_keeps);
    lemma_first_replies_stay(start, replies, reply);
}

/// A step of the payment keeps it.
#[verifier::rlimit(60)]
pub proof fn lemma_payment_keeps(
    start: TransactRun<Seq<u8>>,
    run: TransactRun<Seq<u8>>,
    replies: Seq<TransactReply<Seq<u8>>>,
    reply: TransactReply<Seq<u8>>,
)
    requires
        transaction_keeps(start, run, replies),
        run.stage is Charge,
        run.accepts(reply),
    ensures
        transaction_keeps(start, run.next(reply).0, replies.push(reply)),
{
    broadcast use group_words;

    reveal(TransactRun::checks_next);
    reveal(creates_as_asked);
    reveal(transaction_keeps);
    lemma_first_replies_stay(start, replies, reply);
    let later = run.next(reply).0;
    if let TransactStage::Creating(creation) = later.stage {
        let all = replies.push(reply);
        assert(creation.params.gas == creation_asked_for(start, all).gas);
        assert(creation.params == creation_asked_for(start, all));
        assert(creation == creation_within(start, all));
    }
}

/// The answer to the question of the code keeps it.
proof fn lemma_code_keeps(
    start: TransactRun<Seq<u8>>,
    run: TransactRun<Seq<u8>>,
    replies: Seq<TransactReply<Seq<u8>>>,
    reply: TransactReply<Seq<u8>>,
)
    requires
        transaction_keeps(start, run, replies),
        run.stage is Code,
        run.accepts(reply),
    ensures
        transaction_keeps(start, run.next(reply).0, replies.push(reply)),
{
    reveal(TransactRun::execution_next);
    reveal(transaction_keeps);
    lemma_first_replies_stay(start, replies, reply);
}

/// The answer to the question of the hash of the code keeps it.
#[verifier::rlimit(60)]
pub proof fn lemma_code_hash_keeps(
    start: TransactRun<Seq<u8>>,
    run: TransactRun<Seq<u8>>,
    replies: Seq<TransactReply<Seq<u8>>>,
    reply: TransactReply<Seq<u8>>,
)
    requires
        transaction_keeps(start, run, replies),
        run.stage is CodeHash,
        run.accepts(reply),
    ensures
        transaction_keeps(start, run.next(reply).0, replies.push(reply)),
        reply matches TransactReply::Hash(Ok(_)) ==> run.next(reply) == {
            let (call, commands) = CallRun::begin(
                start.executive,
                call_asked_for(start, replies.push(reply)),
                BytesRef::Flexible(Seq::empty()),
            );
            (run.with_call(call), commands)
        },
{
    reveal(TransactRun::execution_next);
    reveal(calls_as_asked);
    reveal(finalizes_as_ended);
    reveal(transaction_keeps);
    lemma_first_replies_stay(start, replies, reply);
    let all = replies.push(reply);
    if let TransactStage::CodeHash { admission, callee, code } = run.stage {
        if let TransactReply::Hash(Ok(hash)) = reply {
            let params = run.call_params(admission, callee, code, hash);
            assert(params.gas == call_asked_for(start, all).gas) by {
                broadcast use group_words;

                assert(params.gas@ == start.transaction.gas@ - base_gas_of(all));
            }
            assert(all[paid_turn(start)] == TransactReply::<Seq<u8>>::Code(Ok(code)));
            assert(params == call_asked_for(start, all));
            let call = call_within(start, all);
            assert(acts(all) =~= Seq::empty());
            assert(after(call, acts(all)) == call);
            assert(closing(all) =~= Seq::empty());
            assert(run.next(reply).0 == run.with_call(call));
            if let CallStage::Done(result) = call.stage {
                assert(action_ended(start, all, result, bytes_of(call.output)));
            }
        }
    }
}

/// A step of the creation keeps it.
#[verifier::rlimit(60)]
pub proof fn lemma_creating_keeps(
    start: TransactRun<Seq<u8>>,
    run: TransactRun<Seq<u8>>,
    replies: Seq<TransactReply<Seq<u8>>>,
    reply: TransactReply<Seq<u8>>,
)
    requires
        transaction_keeps(start, run, replies),
        run.stage is Creating,
        run.accepts(reply),
    ensures
        transaction_keeps(start, run.next(reply).0, replies.push(reply)),
        ({
            let inner = run.stage->Creating_0;
            let first = creation_within(start, replies.push(reply));
            let all = acts(replies.push(reply));
            &&& reply is Act
            &&& start.transaction.action is Create
            &&& conversation(first, all)
            &&& inner.next(reply->Act_0).0 == after(first, all)
            &&& inner.next(reply->Act_0).1 == told(first, all)
            &&& run.next(reply).0 == run.with_create(inner.next(reply->Act_0).0)
            &&& run.next(reply).1 == inner.next(reply->Act_0).1
        }),
{
    reveal(TransactRun::execution_next);
    reveal(creates_as_asked);
    reveal(finalizes_as_ended);
    reveal(transaction_keeps);
    lemma_first_replies_stay(start, replies, reply);
    lemma_one_more(creation_within(start, replies), acts(replies), reply->Act_0);
}

/// A step of the call keeps it.
#[verifier::rlimit(60)]
pub proof fn lemma_calling_keeps(
    start: TransactRun<Seq<u8>>,
    run: TransactRun<Seq<u8>>,
    replies: Seq<TransactReply<Seq<u8>>>,
    reply: TransactReply<Seq<u8>>,
)
    requires
        transaction_keeps(start, run, replies),
        run.stage is Calling,
        run.accepts(reply),
    ensures
        transaction_keeps(start, run.next(reply).0, replies.push(reply)),
        ({
            let inner = run.stage->Calling_0;
            let first = call_within(start, replies.push(reply));
            let all = acts(replies.push(reply));
            &&& reply is Act
            &&& start.transaction.action is Call
            &&& conversation(first, all)
            &&& inner.next(reply->Act_0).0 == after(first, all)
            &&& inner.next(reply->Act_0).1 == told(first, all)
            &&& run.next(reply).0 == run.with_call(inner.next(reply->Act_0).0)
            &&& run.next(reply).1 == inner.next(reply->Act_0).1
        }),
{
    reveal(TransactRun::execution_next);
    reveal(calls_as_asked);
    reveal(finalizes_as_ended);
    reveal(transaction_keeps);
    lemma_first_replies_stay(start, replies, reply);
    lemma_one_more(call_within(start, replies), acts(replies), reply->Act_0);
}

/// How the action ended is not changed by replies that are not for it.
proof fn lemma_action_stays_ended(
    start: TransactRun<Seq<u8>>,
    replies: Seq<TransactReply<Seq<u8>>>,
    reply: TransactReply<Seq<u8>>,
    result: ActionResult<Seq<u8>>,
    output: Seq<u8>,
)
    requires
        !(reply is Act),
        replies.len() >= 3,
        start.transaction.action is Call ==> replies.len() >= paid_turn(start) + 2,
    ensures
        acts(replies.push(reply)) == acts(replies),
        action_ended(start, replies.push(reply), result, output) == action_ended(
            start,
            replies,
            result,
            output,
        ),
{
    lemma_first_replies_stay(start, replies, reply);
}

/// Finalization goes on with the replies from the substate on.
proof fn lemma_closing_goes_on(
    replies: Seq<TransactReply<Seq<u8>>>,
    first: FinalizeRun<Seq<u8>>,
    reply: TransactReply<Seq<u8>>,
)
    requires
        first.stage is Substate,
        conversation(first, closing(replies)),
        after(first, closing(replies)).accepts(reply),
    ensures
        !(reply is Act),
        closing(replies.push(reply)) == closing(replies).push(reply),
        conversation(first, closing(replies).push(reply)),
        after(first, closing(replies).push(reply)) == after(first, closing(replies)).next(reply).0,
        told(first, closing(replies).push(reply)) == after(first, closing(replies)).next(reply).1,
{
    lemma_one_more(first, closing(replies), reply);
    assert(replies.push(reply).drop_last() =~= replies);
}

/// A step of the finalization keeps it.
#[verifier::rlimit(40)]
pub proof fn lemma_finalizing_keeps(
    start: TransactRun<Seq<u8>>,
    run: TransactRun<Seq<u8>>,
    replies: Seq<TransactReply<Seq<u8>>>,
    reply: TransactReply<Seq<u8>>,
)
    requires
        transaction_keeps(start, run, replies),
        run.stage is Finalizing,
        run.accepts(reply),
    ensures
        transaction_keeps(start, run.next(reply).0, replies.push(reply)),
        ({
            let last = run.stage->Finalizing_0;
            let first = FinalizeRun::begin(
                start.executive,
                start.transaction,
                last.result,
                last.output,
            );
            &&& action_ended(start, replies.push(reply), last.result, last.output)
            &&& gas_in_range(start.executive, start.transaction)
            &&& closing(replies.push(reply)) == closing(replies).push(reply)
            &&& conversation(first, closing(replies).push(reply))
            &&& last.next(reply).0 == after(first, closing(replies).push(reply))
            &&& last.next(reply).1 == told(first, closing(replies).push(reply))
            &&& run.next(reply).0 == run.with_finalization(last.next(reply).0)
            &&& run.next(reply).1 == last.next(reply).1
        }),
{
    reveal(TransactRun::execution_next);
    reveal(finalizes_as_ended);
    reveal(transaction_keeps);
    lemma_first_replies_stay(start, replies, reply);
    if let TransactStage::Finalizing(last) = run.stage {
        let first = FinalizeRun::begin(
            start.executive,
            start.transaction,
            last.result,
            last.output,
        );
        lemma_closing_goes_on(replies, first, reply);
        lemma_action_stays_ended(start, replies, reply, last.result, last.output);
        lemma_finalization_is_of_its_action(last, reply);
    }
}

/// It holds after every conversation.
pub proof fn lemma_transaction_keeps(
    start: TransactRun<Seq<u8>>,
    replies: Seq<TransactReply<Seq<u8>>>,
)
    requires
        start.stage is Nonce,
        conversation(start, replies),
    ensures
        transaction_keeps(start, after(start, replies), replies),
    decreases replies.len(),
{
    if replies.len() > 0 {
        let before = replies.drop_last();
        let run = after(start, before);
        let reply = replies.last();
        lemma_transaction_keeps(start, before);
        assert(replies =~= before.push(reply));
        lemma_step_keeps(start, run, before, reply);
    } else {
        reveal(transaction_keeps);
    }
}

/// Every step keeps it.
proof fn lemma_step_keeps(
    start: TransactRun<Seq<u8>>,
    run: TransactRun<Seq<u8>>,
    replies: Seq<TransactReply<Seq<u8>>>,
    reply: TransactReply<Seq<u8>>,
)
    requires
        transaction_keeps(start, run, replies),
        run.accepts(reply),
    ensures
        transaction_keeps(start, run.next(reply).0, replies.push(reply)),
{
    if run.stage is Creating {
        lemma_creating_keeps(start, run, replies, reply);
    } else if run.stage is Calling {
        lemma_calling_keeps(start, run, replies, reply);
    } else if run.stage is Finalizing {
        lemma_finalizing_keeps(start, run, replies, reply);
    } else if run.stage is Charge {
        lemma_payment_keeps(start, run, replies, reply);
    } else if run.stage is Code {
        lemma_code_keeps(start, run, replies, reply);
    } else if run.stage is CodeHash {
        lemma_code_hash_keeps(start, run, replies, reply);
    } else if run.stage is GasRequired {
        lemma_base_gas_keeps(start, run, replies, reply);
    } else if run.stage is Exists {
        lemma_existence_keeps(start, run, replies, reply);
    } else if run.stage is Balance {
        lemma_balance_keeps(start, run, replies, reply);
    } else if run.stage is IncNonce {
        lemma_increment_keeps(start, run, replies, reply);
    } else {
        reveal(transaction_keeps);
        lemma_first_answers_keep(start, run, replies, reply);
    }
}

} // verus!
