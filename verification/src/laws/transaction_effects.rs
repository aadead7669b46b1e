//! Laws that say what a transaction does with each answer, in terms of the transaction, of its
//! block and of what was asked and answered.
use crate::bytes::BytesRef;
use crate::call::{CallRun, CallStage};
use crate::contract_address::{new_contract_address, CreateContractAddress};
use crate::create::{CreateRun, CreateStage};
use crate::executive::Executive;
use crate::finalize::{FinalizeRun, FinalizeStage};
use crate::hash::{address, h256, keccak256};
use crate::history::{after, asked, conversation, lemma_turn, told, Run};
use crate::laws::executions::{
    action_ended, acts, base_gas_of, call_asked_for, call_within, calls_as_asked, closing,
    creates_as_asked, creation_asked_for, creation_within, ends_with, is_paid_for, lemma_balance_keeps, lemma_calling_keeps,
    lemma_code_hash_keeps, lemma_creating_keeps, lemma_finalizing_keeps, lemma_first_replies_stay,
    lemma_increment_keeps, lemma_payment_keeps, lemma_transaction_keeps, paid_turn,
    transaction_keeps,
};
use crate::laws::receipts::gas_in_range;
use crate::protocol::{Cleanup, Reply};
use crate::transact::{TransactRun, TransactStage};
use crate::transact_protocol::{TransactAsk, TransactReply};
use crate::transaction::{Action, ExecutionError, SignedTransaction};
use crate::uint::{group_words, lemma_u512_value, u256_range, u512_range};
use crate::vm::{ActionResult, ActionValue, CleanDustMode};
use vstd::prelude::*;

verus! {

/// What is known of the transaction that got the last reply.
proof fn lemma_last_turn(start: TransactRun<Seq<u8>>, replies: Seq<TransactReply<Seq<u8>>>) -> (run:
    TransactRun<Seq<u8>>)
    requires
        start.stage is Nonce,
        conversation(start, replies),
        replies.len() > 0,
    ensures
        run == after(start, replies.drop_last()),
        replies == replies.drop_last().push(replies.last()),
        transaction_keeps(start, run, replies.drop_last()),
        run.accepts(replies.last()),
        after(start, replies) == run.next(replies.last()).0,
        told(start, replies) == run.next(replies.last()).1,
        ({
            let ask = asked(start, replies).last();
            &&& ask is Nonce <==> run.stage is Nonce
            &&& ask is OasisContract <==> run.stage is Oasis
            &&& ask is GasRequired <==> run.stage is GasRequired
            &&& ask is Exists <==> run.stage is Exists
            &&& ask is Balance <==> run.stage is Balance
            &&& ask is IncNonce <==> run.stage is IncNonce
            &&& ask is SubBalance <==> run.stage is Charge
            &&& ask is Code <==> run.stage is Code
            &&& ask is CodeHash <==> run.stage is CodeHash
            &&& ask is Act <==> run.stage is Creating || run.stage is Calling
            &&& is_closing(ask) <==> run.stage is Finalizing
        }),
{
    let before = replies.drop_last();
    let run = after(start, before);
    lemma_transaction_keeps(start, before);
    assert(replies =~= before.push(replies.last()));
    reveal(transaction_keeps);
    run
}

/// Whether the question is one of finalization.
pub open spec fn is_closing(ask: TransactAsk<Seq<u8>>) -> bool {
    ask is Substate || ask is AddBalance || ask is Touched || ask is KillGarbage
}

/// Whether the transaction goes on when its base gas is covered and its sender exists where that
/// matters: it is rejected where its nonce is checked and is not the sender's, and where the block
/// has not enough gas left for it; otherwise the balance of its sender is looked at.
pub open spec fn goes_on_to_balance(
    start: TransactRun<Seq<u8>>,
    replies: Seq<TransactReply<Seq<u8>>>,
    run: TransactRun<Seq<u8>>,
) -> bool {
    let t = start.transaction;
    let info = start.executive.info;
    &&& replies[0] matches TransactReply::Amount(Ok(nonce))
    &&& if start.check_nonce && nonce@ != t.nonce@ {
        ends_with(run, ExecutionError::InvalidNonce { expected: nonce, got: t.nonce })
    } else if info.gas_used@ + t.gas@ > info.gas_limit@ {
        ends_with(
            run,
            ExecutionError::BlockGasLimitReached {
                gas_limit: info.gas_limit,
                gas_used: info.gas_used,
                gas: t.gas,
            },
        )
    } else {
        run.asks() == Some(TransactAsk::<Seq<u8>>::Balance(t.sender))
    }
}

/// Whether the transaction has the price of all its gas taken from its sender.
pub open spec fn charges_for_gas(t: SignedTransaction, run: TransactRun<Seq<u8>>) -> bool {
    &&& run.asks() matches Some(TransactAsk::SubBalance { address, value, cleanup })
    &&& address == t.sender
    &&& value@ == t.gas@ * t.gas_price@
    &&& cleanup == Cleanup::OfSubstate
}

/// A transaction begins with what it is given, and first asks for the nonce of its sender. A
/// virtual one first asks for the balance of its sender.
pub proof fn law_transaction_begins(
    executive: Executive,
    transaction: SignedTransaction,
    check_nonce: bool,
    output_from_create: bool,
)
    ensures
        ({
            let run = TransactRun::begin(executive, transaction, check_nonce, output_from_create);
            &&& run.executive == executive
            &&& run.transaction == transaction
            &&& run.check_nonce == check_nonce
            &&& run.output_from_create == output_from_create
            &&& run.stage is Nonce
            &&& run.asks() == Some(TransactAsk::<Seq<u8>>::Nonce(transaction.sender))
        }),
        ({
            let run = TransactRun::begin_virtual(
                executive,
                transaction,
                check_nonce,
                output_from_create,
            );
            &&& run.executive == executive
            &&& run.transaction == transaction
            &&& run.check_nonce == check_nonce
            &&& run.output_from_create == output_from_create
            &&& run.stage is VirtualBalance
            &&& run.asks() == Some(TransactAsk::<Seq<u8>>::Balance(transaction.sender))
        }),
{
}

/// Whether the replies to a virtual transaction have had the effect that they should have: who has
/// less than the value and the price of the gas together, up to the largest word, gets exactly
/// what is missing; and when that is done, or was not needed, the transaction goes on like any
/// other.
pub open spec fn tops_up_sender(
    start: TransactRun<Seq<u8>>,
    replies: Seq<TransactReply<Seq<u8>>>,
) -> bool {
    let t = start.transaction;
    let cost = t.value@ + t.gas@ * t.gas_price@;
    let needed = if cost < u256_range() {
        cost as int
    } else {
        u256_range() - 1
    };
    let ordinary = TransactRun { stage: TransactStage::Nonce, ..start };
    match replies[0] {
        TransactReply::Amount(Err(message)) => {
            &&& replies.len() == 1
            &&& ends_with(after(start, replies), ExecutionError::Internal(message))
            &&& told(start, replies).len() == 0
        },
        TransactReply::Amount(Ok(balance)) => if balance@ >= needed {
            goes_on_as(start, replies, 1, ordinary)
        } else if replies.len() == 1 {
            &&& after(start, replies).asks() matches Some(
                TransactAsk::AddBalance { address, value, cleanup },
            )
            &&& address == t.sender
            &&& balance@ + value@ == needed
            &&& cleanup == Cleanup::NoEmpty
            &&& told(start, replies).len() == 0
        } else {
            match replies[1] {
                TransactReply::Unit(Err(message)) => {
                    &&& replies.len() == 2
                    &&& ends_with(after(start, replies), ExecutionError::Internal(message))
                    &&& told(start, replies).len() == 0
                },
                TransactReply::Unit(Ok(_)) => goes_on_as(start, replies, 2, ordinary),
                _ => false,
            }
        },
        _ => false,
    }
}

/// A virtual transaction sees to it that its sender can pay, whatever it does: a sender who could
/// not gets exactly what is missing, and nobody else gets anything. When that is done it is a
/// transaction like any other, in all that it asks and has done from then on.
pub proof fn law_virtual_sender_is_topped_up(
    start: TransactRun<Seq<u8>>,
    replies: Seq<TransactReply<Seq<u8>>>,
)
    requires
        start.stage is VirtualBalance,
        conversation(start, replies),
    ensures
        start.asks() == Some(TransactAsk::<Seq<u8>>::Balance(start.transaction.sender)),
        replies.len() > 0 ==> tops_up_sender(start, replies),
    decreases replies.len(),
{
    if replies.len() > 1 {
        law_virtual_sender_is_topped_up(start, replies.drop_last());
    }
    if replies.len() == 1 {
        lemma_virtual_balance(start, replies);
    } else if replies.len() > 1 {
        lemma_goes_on_further(start, replies);
        lemma_top_up_done(start, replies);
    }
}

/// What a virtual transaction has added before it asks for the nonce goes to its sender, whatever
/// the transaction does, and makes up what the sender lacks: with it the sender has the value and
/// the price of the gas, where that fits a word.
pub proof fn law_top_up_goes_to_the_sender(
    start: TransactRun<Seq<u8>>,
    replies: Seq<TransactReply<Seq<u8>>>,
    i: int,
)
    requires
        start.stage is VirtualBalance,
        conversation(start, replies),
        0 <= i < replies.len(),
        asked(start, replies)[i] is AddBalance,
        forall|j: int| 0 <= j < i ==> !(#[trigger] asked(start, replies)[j] is Nonce),
    ensures
        i == 1,
        asked(start, replies)[i]->AddBalance_address == start.transaction.sender,
        replies[0] matches TransactReply::Amount(Ok(balance)) && {
            let cost = start.transaction.value@ + start.transaction.gas@
                * start.transaction.gas_price@;
            let raised = balance@ + asked(start, replies)[i]->AddBalance_value@;
            &&& balance@ < cost
            &&& cost < u256_range() ==> raised == cost
        },
{
    lemma_turn(start, replies, i);
    law_virtual_sender_is_topped_up(start, replies.take(i));
    if i > 0 {
        lemma_turn(start, replies, 1);
        law_virtual_sender_is_topped_up(start, replies.take(1));
        assert(replies.take(1)[0] == replies[0]);
        assert(replies.take(1).skip(1) =~= Seq::empty());
    }
    if i > 1 {
        lemma_turn(start, replies, 2);
        law_virtual_sender_is_topped_up(start, replies.take(2));
        assert(replies.take(2)[0] == replies[0]);
        assert(replies.take(2)[1] == replies[1]);
        assert(replies.take(2).skip(2) =~= Seq::empty());
        assert(asked(start, replies)[1] == after(start, replies.take(1)).asks()->0);
    }
}

/// Before it goes on like any other, a virtual transaction takes any balance, and any end of what
/// it asks to be added, and nothing else.
pub proof fn law_virtual_takes_answers(
    start: TransactRun<Seq<u8>>,
    replies: Seq<TransactReply<Seq<u8>>>,
    reply: TransactReply<Seq<u8>>,
)
    requires
        start.stage is VirtualBalance,
        conversation(start, replies),
        replies.len() <= 1,
    ensures
        replies.len() == 0 ==> (start.accepts(reply) <==> reply is Amount),
        replies.len() == 1 && (after(start, replies).asks() matches Some(ask) && ask is AddBalance)
            ==> (after(start, replies).accepts(reply) <==> reply is Unit),
{
    reveal(TransactRun::checks_next);
    if replies.len() == 1 {
        assert(replies.drop_last() =~= Seq::empty());
    }
}

/// What follows from the balance of a virtual sender.
#[verifier::rlimit(40)]
proof fn lemma_virtual_balance(
    start: TransactRun<Seq<u8>>,
    replies: Seq<TransactReply<Seq<u8>>>,
)
    requires
        start.stage is VirtualBalance,
        conversation(start, replies),
        replies.len() == 1,
    ensures
        tops_up_sender(start, replies),
{
    broadcast use group_words;

    reveal(TransactRun::checks_next);
    assert(replies.drop_last() =~= Seq::empty());
    assert(replies.skip(1) =~= Seq::empty());
    assert(after(start, replies) == start.next(replies[0]).0);
}

/// What follows when the sender was to be given something, and from replies after an end.
#[verifier::rlimit(40)]
proof fn lemma_top_up_done(
    start: TransactRun<Seq<u8>>,
    replies: Seq<TransactReply<Seq<u8>>>,
)
    requires
        start.stage is VirtualBalance,
        conversation(start, replies),
        replies.len() > 1,
        tops_up_sender(start, replies.drop_last()),
        forall|first: int, ordinary: TransactRun<Seq<u8>>|
            0 <= first < replies.len() && #[trigger] goes_on_as(
                start,
                replies.drop_last(),
                first,
                ordinary,
            ) ==> goes_on_as(start, replies, first, ordinary),
    ensures
        tops_up_sender(start, replies),
{
    reveal(TransactRun::checks_next);
    let run = after(start, replies.drop_last());
    assert(run.accepts(replies.last()));
    assert(run.asks() is Some);
    assert(replies.drop_last()[0] == replies[0]);
    if replies.len() == 2 {
        assert(replies.skip(2) =~= Seq::empty());
        assert(replies[1] == replies.last());
    } else {
        assert(replies.drop_last()[1] == replies[1]);
    }
}

/// Whether the run, after its first replies, goes on as another run does after the others: it is
/// in the same state, and it had the same done after the last of them.
pub open spec fn goes_on_as(
    start: TransactRun<Seq<u8>>,
    replies: Seq<TransactReply<Seq<u8>>>,
    first: int,
    ordinary: TransactRun<Seq<u8>>,
) -> bool {
    &&& conversation(ordinary, replies.skip(first))
    &&& after(start, replies) == after(ordinary, replies.skip(first))
    &&& replies.len() == first ==> told(start, replies).len() == 0
    &&& replies.len() > first ==> told(start, replies) == told(ordinary, replies.skip(first))
}

/// A run that goes on as another does so after one more reply.
proof fn lemma_goes_on_further(
    start: TransactRun<Seq<u8>>,
    replies: Seq<TransactReply<Seq<u8>>>,
)
    requires
        conversation(start, replies),
        replies.len() > 0,
    ensures
        forall|first: int, ordinary: TransactRun<Seq<u8>>|
            0 <= first < replies.len() && #[trigger] goes_on_as(
                start,
                replies.drop_last(),
                first,
                ordinary,
            ) ==> goes_on_as(start, replies, first, ordinary),
{
    assert forall|first: int, ordinary: TransactRun<Seq<u8>>|
        0 <= first < replies.len() && #[trigger] goes_on_as(
            start,
            replies.drop_last(),
            first,
            ordinary,
        ) implies goes_on_as(start, replies, first, ordinary) by {
        assert(replies.skip(first).drop_last() =~= replies.drop_last().skip(first));
        assert(replies.skip(first).last() == replies.last());
    }
}

/// When the nonce is known, the header of the contract is asked for.
pub proof fn law_known_nonce_leads_on(
    start: TransactRun<Seq<u8>>,
    replies: Seq<TransactReply<Seq<u8>>>,
)
    requires
        start.stage is Nonce,
        conversation(start, replies),
        replies.len() > 0,
        asked(start, replies).last() is Nonce,
    ensures
        told(start, replies).len() == 0,
        match replies.last() {
            TransactReply::Amount(Err(message)) => ends_with(
                after(start, replies),
                ExecutionError::Internal(message),
            ),
            TransactReply::Amount(Ok(_)) => after(start, replies).asks() == Some(
                TransactAsk::<Seq<u8>>::OasisContract,
            ),
            _ => false,
        },
{
    let _ = lemma_last_turn(start, replies);
    reveal(TransactRun::checks_next);
}

/// A malformed header rejects the transaction. Otherwise its base gas is asked for, which is that
/// of a confidential contract exactly where the header says so.
pub proof fn law_header_leads_on(
    start: TransactRun<Seq<u8>>,
    replies: Seq<TransactReply<Seq<u8>>>,
)
    requires
        start.stage is Nonce,
        conversation(start, replies),
        replies.len() > 0,
        asked(start, replies).last() is OasisContract,
    ensures
        told(start, replies).len() == 0,
        match replies.last() {
            TransactReply::Oasis(Err(message)) => ends_with(
                after(start, replies),
                ExecutionError::TransactionMalformed(message),
            ),
            TransactReply::Oasis(Ok(header)) => {
                &&& after(start, replies).asks() matches Some(
                    TransactAsk::GasRequired { confidential },
                )
                &&& confidential <==> (header matches Some(contract) && contract.confidential)
            },
            _ => false,
        },
{
    let _ = lemma_last_turn(start, replies);
    reveal(TransactRun::checks_next);
}

/// A transaction whose gas is below the base gas is rejected. Otherwise the existence of the
/// sender is asked for where it matters, and the transaction goes on.
#[verifier::rlimit(40)]
pub proof fn law_base_gas_is_needed(
    start: TransactRun<Seq<u8>>,
    replies: Seq<TransactReply<Seq<u8>>>,
)
    requires
        start.stage is Nonce,
        conversation(start, replies),
        replies.len() > 0,
        asked(start, replies).last() is GasRequired,
    ensures
        told(start, replies).len() == 0,
        replies.last() matches TransactReply::Gas(base_gas) && {
            let run = after(start, replies);
            let t = start.transaction;
            if t.gas@ < base_gas {
                &&& run.stage matches TransactStage::Done(
                    Err(ExecutionError::NotEnoughBaseGas { required, got }),
                )
                &&& run.asks() is None
                &&& required@ == base_gas
                &&& got == t.gas
            } else if !t.unsigned && start.check_nonce
                && start.executive.machine.schedule.kill_dust != CleanDustMode::Off {
                run.asks() == Some(TransactAsk::<Seq<u8>>::Exists(t.sender))
            } else {
                goes_on_to_balance(start, replies, run)
            }
        },
{
    broadcast use group_words;

    let _ = lemma_last_turn(start, replies);
    reveal(TransactRun::checks_next);
    reveal(transaction_keeps);
    lemma_first_replies_stay(start, replies.drop_last(), replies.last());
}

/// A sender who has to exist and does not has the transaction rejected.
#[verifier::rlimit(40)]
pub proof fn law_sender_is_needed(
    start: TransactRun<Seq<u8>>,
    replies: Seq<TransactReply<Seq<u8>>>,
)
    requires
        start.stage is Nonce,
        conversation(start, replies),
        replies.len() > 0,
        asked(start, replies).last() is Exists,
    ensures
        told(start, replies).len() == 0,
        match replies.last() {
            TransactReply::Flag(Err(message)) => ends_with(
                after(start, replies),
                ExecutionError::Internal(message),
            ),
            TransactReply::Flag(Ok(false)) => ends_with(
                after(start, replies),
                ExecutionError::SenderMustExist,
            ),
            TransactReply::Flag(Ok(true)) => goes_on_to_balance(
                start,
                replies,
                after(start, replies),
            ),
            _ => false,
        },
{
    broadcast use group_words;

    let _ = lemma_last_turn(start, replies);
    reveal(TransactRun::checks_next);
    reveal(transaction_keeps);
    lemma_first_replies_stay(start, replies.drop_last(), replies.last());
}

/// A sender who cannot pay value and gas together has the transaction rejected. Otherwise the
/// transaction is executed: its substate is started, a signed one has the nonce of its sender
/// incremented, and the sender is charged for all its gas.
#[verifier::rlimit(40)]
pub proof fn law_cost_is_needed(
    start: TransactRun<Seq<u8>>,
    replies: Seq<TransactReply<Seq<u8>>>,
)
    requires
        start.stage is Nonce,
        conversation(start, replies),
        replies.len() > 0,
        asked(start, replies).last() is Balance,
    ensures
        ({
            let t = start.transaction;
            let cost = t.value@ + t.gas@ * t.gas_price@;
            let run = after(start, replies);
            let commands = told(start, replies);
            match replies.last() {
                TransactReply::Amount(Err(message)) => {
                    &&& commands.len() == 0
                    &&& ends_with(run, ExecutionError::Internal(message))
                },
                TransactReply::Amount(Ok(balance)) => if balance@ < cost {
                    &&& commands.len() == 0
                    &&& run.stage matches TransactStage::Done(
                        Err(ExecutionError::NotEnoughCash { required, got }),
                    )
                    &&& run.asks() is None
                    &&& required@ == cost
                    &&& got@ == balance@
                } else {
                    &&& commands.len() == 1
                    &&& commands[0] is NewSubstate
                    &&& if t.unsigned {
                        charges_for_gas(t, run)
                    } else {
                        run.asks() == Some(TransactAsk::<Seq<u8>>::IncNonce(t.sender))
                    }
                },
                _ => false,
            }
        }),
{
    broadcast use group_words;

    let run = lemma_last_turn(start, replies);
    lemma_balance_keeps(start, run, replies.drop_last(), replies.last());
    reveal(TransactRun::checks_next);
    reveal(transaction_keeps);
    lemma_cost_is_wide(start.transaction);
    lemma_u512_value(start.transaction.value@ + start.transaction.gas@
        * start.transaction.gas_price@);
    if let TransactReply::Amount(Ok(balance)) = replies.last() {
        lemma_u512_value(balance@);
    }
}

/// What value and gas cost together fits a wide word.
proof fn lemma_cost_is_wide(t: SignedTransaction)
    ensures
        t.value@ + t.gas@ * t.gas_price@ < u512_range(),
        u256_range() <= u512_range(),
{
    broadcast use group_words;

    let (value, gas, price) = (t.value@ as int, t.gas@ as int, t.gas_price@ as int);
    let range = u256_range() as int;
    assert(value + gas * price < range * range) by (nonlinear_arith)
        requires
            0 <= value < range,
            0 <= gas < range,
            0 <= price < range,
    ;
    assert(range <= range * range) by (nonlinear_arith)
        requires
            1 <= range,
    ;
}

/// When the nonce was incremented, the sender is charged for the gas.
pub proof fn law_incremented_nonce_leads_on(
    start: TransactRun<Seq<u8>>,
    replies: Seq<TransactReply<Seq<u8>>>,
)
    requires
        start.stage is Nonce,
        conversation(start, replies),
        replies.len() > 0,
        asked(start, replies).last() is IncNonce,
    ensures
        told(start, replies).len() == 0,
        match replies.last() {
            TransactReply::Unit(Err(message)) => ends_with(
                after(start, replies),
                ExecutionError::Internal(message),
            ),
            TransactReply::Unit(Ok(_)) => charges_for_gas(
                start.transaction,
                after(start, replies),
            ),
            _ => false,
        },
{
    let run = lemma_last_turn(start, replies);
    lemma_increment_keeps(start, run, replies.drop_last(), replies.last());
    reveal(TransactRun::checks_next);
    reveal(transaction_keeps);
}

/// When the gas is paid, a transaction that creates starts exactly the creation that it asks for,
/// and one that calls asks for the code of the account that it names.
pub proof fn law_paid_gas_leads_on(
    start: TransactRun<Seq<u8>>,
    replies: Seq<TransactReply<Seq<u8>>>,
)
    requires
        start.stage is Nonce,
        conversation(start, replies),
        replies.len() > 0,
        asked(start, replies).last() is SubBalance,
    ensures
        told(start, replies).len() == 0,
        match replies.last() {
            TransactReply::Unit(Err(message)) => ends_with(
                after(start, replies),
                ExecutionError::Internal(message),
            ),
            TransactReply::Unit(Ok(_)) => match start.transaction.action {
                Action::Create => {
                    &&& after(start, replies).stage == TransactStage::Creating(
                        creation_within(start, replies),
                    )
                    &&& creation_within(start, replies).asks() matches Some(ask)
                    &&& after(start, replies).asks() == Some(TransactAsk::Act(ask))
                },
                Action::Call(callee) => after(start, replies).asks() == Some(
                    TransactAsk::<Seq<u8>>::Code(callee),
                ),
            },
            _ => false,
        },
{
    let run = lemma_last_turn(start, replies);
    lemma_payment_keeps(start, run, replies.drop_last(), replies.last());
    lemma_no_acts_before_payment(start, replies);
    reveal(TransactRun::checks_next);
    reveal(transaction_keeps);
    reveal(creates_as_asked);
}

/// Nothing was answered to the action when the gas is paid.
proof fn lemma_no_acts_before_payment(
    start: TransactRun<Seq<u8>>,
    replies: Seq<TransactReply<Seq<u8>>>,
)
    requires
        start.stage is Nonce,
        conversation(start, replies),
        replies.len() > 0,
        asked(start, replies).last() is SubBalance,
    ensures
        acts(replies).len() == 0,
{
    let _ = lemma_last_turn(start, replies);
    reveal(transaction_keeps);
}

/// When the code is known, its hash is asked for.
pub proof fn law_known_code_leads_on(
    start: TransactRun<Seq<u8>>,
    replies: Seq<TransactReply<Seq<u8>>>,
)
    requires
        start.stage is Nonce,
        conversation(start, replies),
        replies.len() > 0,
        asked(start, replies).last() is Code,
    ensures
        told(start, replies).len() == 0,
        match replies.last() {
            TransactReply::Code(Err(message)) => ends_with(
                after(start, replies),
                ExecutionError::Internal(message),
            ),
            TransactReply::Code(Ok(_)) => start.transaction.action matches Action::Call(callee)
                && after(start, replies).asks() == Some(
                TransactAsk::<Seq<u8>>::CodeHash(callee),
            ),
            _ => false,
        },
{
    let _ = lemma_last_turn(start, replies);
    reveal(TransactRun::execution_next);
    reveal(transaction_keeps);
}

/// When the hash of the code is known, exactly the call that the transaction asks for starts, with
/// an empty buffer that grows. Where it is over at once, finalization starts.
#[verifier::rlimit(40)]
pub proof fn law_known_hash_starts_the_call(
    start: TransactRun<Seq<u8>>,
    replies: Seq<TransactReply<Seq<u8>>>,
)
    requires
        start.stage is Nonce,
        conversation(start, replies),
        replies.len() > 0,
        asked(start, replies).last() is CodeHash,
    ensures
        match replies.last() {
            TransactReply::Hash(Err(message)) => {
                &&& told(start, replies).len() == 0
                &&& ends_with(after(start, replies), ExecutionError::Internal(message))
            },
            TransactReply::Hash(Ok(_)) => {
                let (call, commands) = CallRun::begin(
                    start.executive,
                    call_asked_for(start, replies),
                    BytesRef::Flexible(Seq::empty()),
                );
                &&& start.transaction.action is Call
                &&& acts(replies).len() == 0
                &&& told(start, replies) == commands
                &&& goes_on_after_call(start, replies, call)
            },
            _ => false,
        },
{
    let run = lemma_last_turn(start, replies);
    lemma_code_hash_keeps(start, run, replies.drop_last(), replies.last());
    lemma_hash_failure(start, run, replies.drop_last(), replies.last());
    reveal(transaction_keeps);
}

/// A hash that the host could not find ends the transaction.
proof fn lemma_hash_failure(
    start: TransactRun<Seq<u8>>,
    run: TransactRun<Seq<u8>>,
    replies: Seq<TransactReply<Seq<u8>>>,
    reply: TransactReply<Seq<u8>>,
)
    requires
        transaction_keeps(start, run, replies),
        run.stage is CodeHash,
        run.accepts(reply),
    ensures
        reply is Hash,
        start.transaction.action is Call,
        acts(replies.push(reply)).len() == 0,
        reply matches TransactReply::Hash(Err(message)) ==> {
            &&& ends_with(run.next(reply).0, ExecutionError::Internal(message))
            &&& run.next(reply).1.len() == 0
        },
{
    reveal(TransactRun::execution_next);
    reveal(transaction_keeps);
    lemma_first_replies_stay(start, replies, reply);
}

/// Whether the transaction is where its call is: in the call until that is over, and then at the
/// start of finalization with the result of the call and what its buffer holds.
pub open spec fn goes_on_after_call(
    start: TransactRun<Seq<u8>>,
    replies: Seq<TransactReply<Seq<u8>>>,
    call: CallRun<Seq<u8>>,
) -> bool {
    let run = after(start, replies);
    match call.stage {
        CallStage::Done(result) => {
            &&& run.stage == TransactStage::Finalizing(
                FinalizeRun::begin(
                    start.executive,
                    start.transaction,
                    result,
                    match call.output {
                        BytesRef::Flexible(bytes) => bytes,
                        BytesRef::Fixed(bytes) => bytes,
                    },
                ),
            )
            &&& run.asks() == Some(TransactAsk::<Seq<u8>>::Substate)
        },
        _ => {
            &&& run.stage == TransactStage::Calling(call)
            &&& call.asks() matches Some(ask)
            &&& run.asks() == Some(TransactAsk::Act(ask))
        },
    }
}

/// The call or the creation inside a transaction is the one that the transaction asks for, gets
/// the replies that are for it, and has the host do what it would have it do by itself. When it is
/// over, finalization starts with its result and its output, whatever they are: for a call, what
/// its buffer holds; for a creation, its record, or nothing where none is kept.
#[verifier::rlimit(60)]
pub proof fn law_action_is_the_one_asked_for(
    start: TransactRun<Seq<u8>>,
    replies: Seq<TransactReply<Seq<u8>>>,
)
    requires
        start.stage is Nonce,
        conversation(start, replies),
        replies.len() > 0,
        asked(start, replies).last() is Act,
    ensures
        replies.last() is Act,
        match start.transaction.action {
            Action::Create => {
                let creation = after(creation_within(start, replies), acts(replies));
                let run = after(start, replies);
                &&& conversation(creation_within(start, replies), acts(replies))
                &&& told(start, replies) == told(creation_within(start, replies), acts(replies))
                &&& match creation.stage {
                    CreateStage::Done(result) => {
                        &&& run.stage == TransactStage::Finalizing(
                            FinalizeRun::begin(
                                start.executive,
                                start.transaction,
                                result,
                                match creation.output {
                                    Some(record) => record,
                                    None => Seq::empty(),
                                },
                            ),
                        )
                        &&& run.asks() == Some(TransactAsk::<Seq<u8>>::Substate)
                    },
                    _ => {
                        &&& run.stage == TransactStage::Creating(creation)
                        &&& creation.asks() matches Some(ask)
                        &&& run.asks() == Some(TransactAsk::Act(ask))
                    },
                }
            },
            Action::Call(_) => {
                let call = after(call_within(start, replies), acts(replies));
                &&& conversation(call_within(start, replies), acts(replies))
                &&& told(start, replies) == told(call_within(start, replies), acts(replies))
                &&& goes_on_after_call(start, replies, call)
            },
        },
{
    let run = lemma_last_turn(start, replies);
    if run.stage is Creating {
        lemma_creating_keeps(start, run, replies.drop_last(), replies.last());
    } else {
        lemma_calling_keeps(start, run, replies.drop_last(), replies.last());
    }
    reveal(transaction_keeps);
}

/// Finalization is that of the transaction, after its action ended as it did: it gets the replies
/// from the substate on, has the host do what it would have it do by itself, and how it ends is
/// how the transaction ends.
#[verifier::rlimit(60)]
pub proof fn law_finalization_is_of_the_action(
    start: TransactRun<Seq<u8>>,
    replies: Seq<TransactReply<Seq<u8>>>,
    result: ActionResult<Seq<u8>>,
    output: Seq<u8>,
)
    requires
        start.stage is Nonce,
        conversation(start, replies),
        replies.len() > 0,
        is_closing(asked(start, replies).last()),
        action_ended(start, replies, result, output),
    ensures
        ({
            let first = FinalizeRun::begin(
                start.executive,
                start.transaction,
                result,
                output,
            );
            let last = after(first, closing(replies));
            let run = after(start, replies);
            &&& gas_in_range(start.executive, start.transaction)
            &&& closing(replies).len() > 0
            &&& conversation(first, closing(replies))
            &&& told(start, replies) == told(first, closing(replies))
            &&& match last.stage {
                FinalizeStage::Done(receipt) => {
                    &&& run.stage == TransactStage::Done(receipt)
                    &&& run.asks() is None
                },
                _ => {
                    &&& run.stage == TransactStage::Finalizing(last)
                    &&& run.asks() == last.asks()
                },
            }
        }),
{
    let run = lemma_last_turn(start, replies);
    lemma_finalizing_keeps(start, run, replies.drop_last(), replies.last());
    reveal(transaction_keeps);
    if let TransactStage::Finalizing(last) = run.stage {
        assert(last.result == result);
        assert(last.output =~= output);
    }
}

/// When finalization is under way, the action is over.
#[verifier::rlimit(60)]
pub proof fn law_finalization_follows_the_action(
    start: TransactRun<Seq<u8>>,
    replies: Seq<TransactReply<Seq<u8>>>,
)
    requires
        start.stage is Nonce,
        conversation(start, replies),
        replies.len() > 0,
        is_closing(asked(start, replies).last()),
    ensures
        exists|result: ActionResult<Seq<u8>>, output: Seq<u8>|
            action_ended(start, replies, result, output),
{
    let run = lemma_last_turn(start, replies);
    lemma_finalizing_keeps(start, run, replies.drop_last(), replies.last());
}

/// The action gets exactly the gas of the transaction less the base gas that the host named,
/// whether the nonce is checked or not.
pub proof fn law_action_gets_gas_less_base_gas(
    start: TransactRun<Seq<u8>>,
    replies: Seq<TransactReply<Seq<u8>>>,
)
    requires
        start.stage is Nonce,
        conversation(start, replies),
    ensures
        after(start, replies).stage matches TransactStage::Creating(creation) ==> {
            &&& replies[2] matches TransactReply::Gas(base_gas)
            &&& creation.params.gas@ + base_gas == start.transaction.gas@
        },
        after(start, replies).stage matches TransactStage::Calling(call) ==> {
            &&& replies[2] matches TransactReply::Gas(base_gas)
            &&& call.params.gas@ + base_gas == start.transaction.gas@
        },
{
    lemma_transaction_keeps(start, replies);
    reveal(transaction_keeps);
    match after(start, replies).stage {
        TransactStage::Creating(creation) => lemma_creation_gas(start, replies, creation),
        TransactStage::Calling(call) => lemma_call_gas(start, replies, call),
        _ => {},
    }
}

/// The call of a transaction does what the transaction says: its sender calls the account that it
/// names, with its value, its gas price and its data. The code is that of the account, as the host
/// answered it, unless a header gives other code; the header goes with the call, and so does the
/// nonce that the sender had.
pub proof fn law_call_does_what_the_transaction_says(
    start: TransactRun<Seq<u8>>,
    replies: Seq<TransactReply<Seq<u8>>>,
)
    requires
        start.stage is Nonce,
        conversation(start, replies),
    ensures
        after(start, replies).stage matches TransactStage::Calling(call) ==> {
            let t = start.transaction;
            let params = call.params;
            &&& call.executive == start.executive
            &&& t.action == Action::Call(params.address)
            &&& params.code_address == params.address
            &&& params.sender == t.sender
            &&& params.origin == t.sender
            &&& params.gas_price == t.gas_price
            &&& params.value == ActionValue::Transfer(t.value)
            &&& params.data == Some(t.data)
            &&& params.call_type is Call
            &&& params.params_type is Separate
            &&& params.aad is None
            &&& replies[0] == TransactReply::<Seq<u8>>::Amount(Ok(params.origin_nonce))
            &&& replies[1] == TransactReply::<Seq<u8>>::Oasis(Ok(params.oasis_contract))
            &&& replies[paid_turn(start)] matches TransactReply::Code(Ok(code))
            &&& replies[paid_turn(start) + 1] matches TransactReply::Hash(Ok(hash))
            &&& params.code_hash == Some(hash)
            &&& match params.oasis_contract {
                Some(header) => params.code == Some(header.code),
                None => params.code == code,
            }
        },
{
    lemma_transaction_keeps(start, replies);
    reveal(transaction_keeps);
    match after(start, replies).stage {
        TransactStage::Calling(call) => lemma_call_params(start, replies, call),
        _ => {},
    }
}

/// The creation of a transaction does what the transaction says: its sender creates a contract
/// with its value and its gas price, from its data or from what a header leaves of it. The address
/// is that of the sender and of the nonce that the sender had; the header goes with the creation.
pub proof fn law_creation_does_what_the_transaction_says(
    start: TransactRun<Seq<u8>>,
    replies: Seq<TransactReply<Seq<u8>>>,
)
    requires
        start.stage is Nonce,
        conversation(start, replies),
    ensures
        after(start, replies).stage matches TransactStage::Creating(creation) ==> {
            let t = start.transaction;
            let params = creation.params;
            let scheme = start.executive.machine.create_address_scheme;
            &&& creation.executive == start.executive
            &&& creation.output == (if start.output_from_create {
                Some(Seq::<u8>::empty())
            } else {
                None
            })
            &&& t.action is Create
            &&& params.address == address(
                new_contract_address(scheme, t.sender, params.origin_nonce, t.data@),
            )
            &&& params.code_address == params.address
            &&& match scheme {
                CreateContractAddress::FromSenderAndNonce => params.code_hash is None,
                _ => params.code_hash == Some(h256(keccak256(t.data@))),
            }
            &&& params.sender == t.sender
            &&& params.origin == t.sender
            &&& params.gas_price == t.gas_price
            &&& params.value == ActionValue::Transfer(t.value)
            &&& params.data is None
            &&& params.call_type is Creation
            &&& params.params_type is Embedded
            &&& params.aad is None
            &&& replies[0] == TransactReply::<Seq<u8>>::Amount(Ok(params.origin_nonce))
            &&& replies[1] == TransactReply::<Seq<u8>>::Oasis(Ok(params.oasis_contract))
            &&& match params.oasis_contract {
                Some(header) => params.code == Some(header.code),
                None => params.code == Some(t.data),
            }
        },
{
    lemma_transaction_keeps(start, replies);
    reveal(transaction_keeps);
    match after(start, replies).stage {
        TransactStage::Creating(creation) => lemma_creation_params(start, replies, creation),
        _ => {},
    }
}

/// The parameters of a creation on its way.
proof fn lemma_creation_params(
    start: TransactRun<Seq<u8>>,
    replies: Seq<TransactReply<Seq<u8>>>,
    creation: CreateRun<Seq<u8>>,
)
    requires
        creates_as_asked(start, replies, creation),
    ensures
        start.transaction.action is Create,
        is_paid_for(start, replies),
        creation.params == creation_asked_for(start, replies),
        creation.executive == start.executive,
        creation.output == creation_within(start, replies).output,
{
    reveal(creates_as_asked);
    lemma_creation_keeps_params(creation_within(start, replies), acts(replies));
}

/// The parameters of a call on its way.
proof fn lemma_call_params(
    start: TransactRun<Seq<u8>>,
    replies: Seq<TransactReply<Seq<u8>>>,
    call: CallRun<Seq<u8>>,
)
    requires
        calls_as_asked(start, replies, call),
    ensures
        start.transaction.action is Call,
        is_paid_for(start, replies),
        call.params == call_asked_for(start, replies),
        call.executive == start.executive,
        replies[paid_turn(start)] matches TransactReply::Code(Ok(_)),
        replies[paid_turn(start) + 1] matches TransactReply::Hash(Ok(_)),
{
    reveal(calls_as_asked);
    lemma_call_keeps_params(call_within(start, replies), acts(replies));
}

/// The gas of a creation.
proof fn lemma_creation_gas(
    start: TransactRun<Seq<u8>>,
    replies: Seq<TransactReply<Seq<u8>>>,
    creation: CreateRun<Seq<u8>>,
)
    requires
        creates_as_asked(start, replies, creation),
    ensures
        replies[2] is Gas,
        creation.params.gas@ + base_gas_of(replies) == start.transaction.gas@,
{
    broadcast use group_words;

    reveal(creates_as_asked);
    lemma_creation_keeps_params(creation_within(start, replies), acts(replies));
}

/// The gas of a call.
proof fn lemma_call_gas(
    start: TransactRun<Seq<u8>>,
    replies: Seq<TransactReply<Seq<u8>>>,
    call: CallRun<Seq<u8>>,
)
    requires
        calls_as_asked(start, replies, call),
    ensures
        replies[2] is Gas,
        call.params.gas@ + base_gas_of(replies) == start.transaction.gas@,
{
    broadcast use group_words;

    reveal(calls_as_asked);
    lemma_call_keeps_params(call_within(start, replies), acts(replies));
}

/// A creation keeps its parameters.
proof fn lemma_creation_keeps_params(
    start: CreateRun<Seq<u8>>,
    replies: Seq<Reply<Seq<u8>>>,
)
    ensures
        after(start, replies).params == start.params,
        after(start, replies).executive == start.executive,
        !(after(start, replies).stage is Done) ==> after(start, replies).output == start.output,
    decreases replies.len(),
{
    if replies.len() > 0 {
        lemma_creation_keeps_params(start, replies.drop_last());
    }
}

/// A call keeps its parameters.
proof fn lemma_call_keeps_params(
    start: CallRun<Seq<u8>>,
    replies: Seq<Reply<Seq<u8>>>,
)
    ensures
        after(start, replies).params == start.params,
        after(start, replies).executive == start.executive,
    decreases replies.len(),
{
    if replies.len() > 0 {
        lemma_call_keeps_params(start, replies.drop_last());
    }
}

} // verus!
