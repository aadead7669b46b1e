//! Laws that say how the end of a transaction follows from its action, and which answers a
//! transaction takes.
use crate::bytes::BytesRef;
use crate::history::{after, asked, conversation, Run};
use crate::laws::calls::law_call_makes_no_gas;
use crate::laws::creations::law_creation_makes_no_gas;
use crate::laws::executions::{
    action_ended, acts, base_gas_of, call_asked_for, closing, creation_asked_for,
    creation_within, existence_turns, finalizes_as_ended, lemma_transaction_keeps,
    transaction_keeps,
};
use crate::laws::receipts::{is_receipt, law_finalization_ends_with_a_receipt};
use crate::laws::transaction_effects::{
    is_closing, law_finalization_follows_the_action, law_finalization_is_of_the_action,
};
use crate::transact::{TransactRun, TransactStage};
use crate::transact_protocol::{TransactAsk, TransactReply};
use crate::transaction::Action;
use crate::uint::{group_words, u256_range};
use crate::vm::{ActionResult, VmError};
use vstd::prelude::*;

verus! {

/// A receipt comes from finalization.
proof fn lemma_receipt_closes(
    start: TransactRun<Seq<u8>>,
    replies: Seq<TransactReply<Seq<u8>>>,
)
    requires
        start.stage is Nonce,
        conversation(start, replies),
        after(start, replies).stage is Done,
        after(start, replies).stage->Done_0 is Ok,
    ensures
        replies.len() > 0,
        after(start, replies.drop_last()).stage is Finalizing,
        is_closing(asked(start, replies).last()),
{
    reveal(TransactRun::checks_next);
    reveal(TransactRun::execution_next);
    if replies.len() > 0 {
        assert(after(start, replies.drop_last()).accepts(replies.last()));
    }
}

/// The receipt of a transaction is that of its action: its output is the output with which the
/// action ended, whether that succeeded, reverted or failed, and it says of gas, exception and
/// effects what the result of the action and the substate give.
pub proof fn law_receipt_is_that_of_the_action(
    start: TransactRun<Seq<u8>>,
    replies: Seq<TransactReply<Seq<u8>>>,
    result: ActionResult<Seq<u8>>,
    output: Seq<u8>,
)
    requires
        start.stage is Nonce,
        conversation(start, replies),
        after(start, replies).stage is Done,
        after(start, replies).stage->Done_0 is Ok,
        action_ended(start, replies, result, output),
    ensures
        closing(replies).len() == 5,
        closing(replies)[0] is Substate,
        is_receipt(
            start.executive,
            start.transaction,
            result,
            output,
            closing(replies)[0]->Substate_0,
            after(start, replies).stage->Done_0,
        ),
        after(start, replies).stage->Done_0->Ok_0.output == output,
{
    lemma_receipt_closes(start, replies);
    law_finalization_is_of_the_action(start, replies, result, output);
    law_finalization_ends_with_a_receipt(
        start.executive,
        start.transaction,
        result,
        output,
        closing(replies),
    );
}

/// A transaction with a receipt had an action, and that action ended.
pub proof fn law_receipt_has_an_action(
    start: TransactRun<Seq<u8>>,
    replies: Seq<TransactReply<Seq<u8>>>,
)
    requires
        start.stage is Nonce,
        conversation(start, replies),
        after(start, replies).stage is Done,
        after(start, replies).stage->Done_0 is Ok,
    ensures
        exists|result: ActionResult<Seq<u8>>, output: Seq<u8>|
            action_ended(start, replies, result, output),
{
    lemma_receipt_closes(start, replies);
    law_finalization_follows_the_action(start, replies);
}

/// An action that keeps its changes leaves no more than the gas of the transaction less the base
/// gas.
proof fn lemma_action_leaves_base_gas(
    start: TransactRun<Seq<u8>>,
    replies: Seq<TransactReply<Seq<u8>>>,
    result: ActionResult<Seq<u8>>,
    output: Seq<u8>,
)
    requires
        action_ended(start, replies, result, output),
        base_gas_of(replies) <= start.transaction.gas@,
    ensures
        result matches Ok(finished) ==> (finished.apply_state ==> finished.gas_left@ + base_gas_of(
            replies,
        ) <= start.transaction.gas@),
{
    broadcast use group_words;

    match start.transaction.action {
        Action::Create => law_creation_makes_no_gas(
            start.executive,
            creation_asked_for(start, replies),
            creation_within(start, replies).output,
            acts(replies),
        ),
        Action::Call(_) => law_call_makes_no_gas(
            start.executive,
            call_asked_for(start, replies),
            BytesRef::Flexible(Seq::empty()),
            acts(replies),
        ),
    }
}

/// The base gas is paid by every transaction that is executed: before its refund it has used at
/// least the base gas, unless code that reverted claims to have more gas left than it got.
pub proof fn law_base_gas_is_used(
    start: TransactRun<Seq<u8>>,
    replies: Seq<TransactReply<Seq<u8>>>,
)
    requires
        start.stage is Nonce,
        conversation(start, replies),
        after(start, replies).stage is Done,
        after(start, replies).stage->Done_0 is Ok,
    ensures
        ({
            let outcome = after(start, replies).stage->Done_0->Ok_0;
            &&& replies[2] matches TransactReply::Gas(base_gas)
            &&& outcome.exception != Some(VmError::Reverted) ==> base_gas <= outcome.gas_used@
                + outcome.refunded@
        }),
{
    lemma_receipt_closes(start, replies);
    lemma_base_gas_was_answered(start, replies);
    law_receipt_has_an_action(start, replies);
    let (result, output) = choose|result: ActionResult<Seq<u8>>, output: Seq<u8>|
        action_ended(start, replies, result, output);
    law_receipt_is_that_of_the_action(start, replies, result, output);
    lemma_action_leaves_base_gas(start, replies, result, output);
}

/// The base gas was answered, and covered, before there is a receipt.
proof fn lemma_base_gas_was_answered(
    start: TransactRun<Seq<u8>>,
    replies: Seq<TransactReply<Seq<u8>>>,
)
    requires
        start.stage is Nonce,
        conversation(start, replies),
        replies.len() > 0,
        after(start, replies.drop_last()).stage is Finalizing,
    ensures
        replies.len() > 3,
        replies[2] is Gas,
        base_gas_of(replies) <= start.transaction.gas@,
{
    let before = replies.drop_last();
    lemma_transaction_keeps(start, before);
    reveal(transaction_keeps);
    reveal(finalizes_as_ended);
    assert(before[2] == replies[2]);
}

/// Whether the gas of the block is in range where it is looked at: where the nonce does not have
/// the transaction rejected.
pub open spec fn block_gas_fits(
    start: TransactRun<Seq<u8>>,
    replies: Seq<TransactReply<Seq<u8>>>,
) -> bool {
    ||| start.executive.info.gas_used@ + start.transaction.gas@ < u256_range()
    ||| start.check_nonce && (replies[0] matches TransactReply::Amount(Ok(nonce)) && nonce@
        != start.transaction.nonce@)
}

/// A transaction takes exactly the replies that answer its question: any failure and any answer of
/// the right kind, where the gas of the block stays in range; what its call or its creation takes
/// while that is under way; and what its finalization takes after that.
pub proof fn law_transaction_takes_answers(
    start: TransactRun<Seq<u8>>,
    replies: Seq<TransactReply<Seq<u8>>>,
    reply: TransactReply<Seq<u8>>,
)
    requires
        start.stage is Nonce,
        conversation(start, replies),
    ensures
        ({
            let run = after(start, replies);
            run.accepts(reply) <==> match run.asks() {
                Some(TransactAsk::Nonce(_)) => reply is Amount,
                Some(TransactAsk::OasisContract) => reply is Oasis,
                Some(TransactAsk::GasRequired { .. }) => {
                    &&& reply matches TransactReply::Gas(base_gas)
                    &&& base_gas <= start.transaction.gas@ && existence_turns(start) == 0
                        ==> block_gas_fits(start, replies)
                },
                Some(TransactAsk::Exists(_)) => {
                    &&& reply matches TransactReply::Flag(found)
                    &&& (found matches Ok(exists) && exists) ==> block_gas_fits(start, replies)
                },
                Some(TransactAsk::Balance(_)) => reply is Amount,
                Some(TransactAsk::IncNonce(_)) => reply is Unit,
                Some(TransactAsk::SubBalance { .. }) => reply is Unit,
                Some(TransactAsk::Code(_)) => reply is Code,
                Some(TransactAsk::CodeHash(_)) => reply is Hash,
                Some(TransactAsk::Act(_)) => match (run.stage, reply) {
                    (TransactStage::Creating(creation), TransactReply::Act(inner)) => {
                        creation.accepts(inner)
                    },
                    (TransactStage::Calling(call), TransactReply::Act(inner)) => {
                        call.accepts(inner)
                    },
                    _ => false,
                },
                Some(_) => match run.stage {
                    TransactStage::Finalizing(last) => last.accepts(reply),
                    _ => false,
                },
                None => false,
            }
        }),
{
    broadcast use group_words;

    lemma_transaction_keeps(start, replies);
    reveal(transaction_keeps);
}

} // verus!
