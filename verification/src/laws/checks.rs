//! Laws of the checks that a transaction has to pass.
use crate::contract_address::new_contract_address;
use crate::hash::address;
use crate::history::{after, commanded, conversation, Run};
use crate::protocol::Command;
use crate::transact::{TransactRun, TransactStage};
use crate::transact_protocol::TransactReply;
use crate::transaction::{Action, ExecutionError};
use crate::uint::{group_words, u256, u256_range, u512, U256};
use crate::vm::OasisContract;
use vstd::prelude::*;

verus! {

/// What is wrong with a transaction, given the nonce of its sender, the gas it needs before
/// anything is executed, whether its sender exists, and the balance of its sender. Of several
/// things the first counts.
pub open spec fn objection(
    start: TransactRun<Seq<u8>>,
    nonce: U256,
    base_gas: u64,
    exists: bool,
    balance: U256,
) -> Option<ExecutionError> {
    let t = start.transaction;
    let info = start.executive.info;
    if t.gas@ < base_gas {
        Some(
            ExecutionError::NotEnoughBaseGas { required: u256(base_gas as nat), got: t.gas },
        )
    } else if start.must_exist() && !exists {
        Some(ExecutionError::SenderMustExist)
    } else if start.check_nonce && t.nonce != nonce {
        Some(ExecutionError::InvalidNonce { expected: nonce, got: t.nonce })
    } else if info.gas_used@ + t.gas@ > info.gas_limit@ {
        Some(
            ExecutionError::BlockGasLimitReached {
                gas_limit: info.gas_limit,
                gas_used: info.gas_used,
                gas: t.gas,
            },
        )
    } else if balance@ < t.value@ + t.gas@ * t.gas_price@ {
        Some(
            ExecutionError::NotEnoughCash {
                required: u512(t.value@ + t.gas@ * t.gas_price@),
                got: u512(balance@),
            },
        )
    } else {
        None
    }
}

/// The answers to all that the checks ask. Whether the sender exists is asked only where it has
/// to.
pub open spec fn answers(
    start: TransactRun<Seq<u8>>,
    nonce: U256,
    oasis_contract: Option<OasisContract>,
    base_gas: u64,
    exists: bool,
    balance: U256,
) -> Seq<TransactReply<Seq<u8>>> {
    let first = Seq::empty().push(TransactReply::Amount(Ok(nonce))).push(
        TransactReply::Oasis(Ok(oasis_contract)),
    ).push(TransactReply::Gas(base_gas));
    if start.must_exist() {
        first.push(TransactReply::Flag(Ok(exists))).push(TransactReply::Amount(Ok(balance)))
    } else {
        first.push(TransactReply::Amount(Ok(balance)))
    }
}

/// One more reply takes one more step.
proof fn lemma_after_push(
    start: TransactRun<Seq<u8>>,
    replies: Seq<TransactReply<Seq<u8>>>,
    reply: TransactReply<Seq<u8>>,
)
    ensures
        after(start, replies.push(reply)) == after(start, replies).next(reply).0,
{
    assert(replies.push(reply).drop_last() =~= replies);
}

/// The answers to what comes before the question of the base gas.
spec fn early_answers(nonce: U256, oasis_contract: Option<OasisContract>) -> Seq<
    TransactReply<Seq<u8>>,
> {
    Seq::empty().push(TransactReply::Amount(Ok(nonce))).push(
        TransactReply::Oasis(Ok(oasis_contract)),
    )
}

/// The first two answers lead to the question of the base gas.
proof fn lemma_header_known(
    start: TransactRun<Seq<u8>>,
    nonce: U256,
    oasis_contract: Option<OasisContract>,
)
    requires
        start.stage is Nonce,
    ensures
        after(start, early_answers(nonce, oasis_contract)) == start.at(
            TransactStage::GasRequired { nonce, oasis_contract },
        ),
{
    reveal(TransactRun::checks_next);
    let r0: Seq<TransactReply<Seq<u8>>> = Seq::empty();
    lemma_after_push(start, r0, TransactReply::Amount(Ok(nonce)));
    lemma_after_push(
        start,
        r0.push(TransactReply::Amount(Ok(nonce))),
        TransactReply::Oasis(Ok(oasis_contract)),
    );
}

/// What the base gas decides.
proof fn lemma_base_gas_known(
    start: TransactRun<Seq<u8>>,
    nonce: U256,
    oasis_contract: Option<OasisContract>,
    base_gas: u64,
)
    requires
        start.stage is Nonce,
    ensures
        after(
            start,
            early_answers(nonce, oasis_contract).push(TransactReply::Gas(base_gas)),
        ) == start.after_gas_required(nonce, oasis_contract, base_gas),
{
    reveal(TransactRun::checks_next);
    lemma_header_known(start, nonce, oasis_contract);
    lemma_after_push(
        start,
        early_answers(nonce, oasis_contract),
        TransactReply::Gas(base_gas),
    );
}

/// What the existence of the sender decides, where it is asked.
proof fn lemma_existence_known(
    start: TransactRun<Seq<u8>>,
    replies: Seq<TransactReply<Seq<u8>>>,
    nonce: U256,
    oasis_contract: Option<OasisContract>,
    base_gas: U256,
    exists: bool,
)
    requires
        after(start, replies) == start.at(
            (TransactStage::Exists { nonce, oasis_contract, base_gas }),
        ),
    ensures
        after(start, replies.push(TransactReply::Flag(Ok(exists)))) == (if exists {
            start.admitted(nonce, oasis_contract, base_gas)
        } else {
            start.failed(ExecutionError::SenderMustExist)
        }),
{
    reveal(TransactRun::checks_next);
    reveal(TransactRun::execution_next);
    lemma_after_push(start, replies, TransactReply::Flag(Ok(exists)));
}

/// What the balance decides, when the other checks are done.
#[verifier::rlimit(40)]
proof fn lemma_balance_known(
    start: TransactRun<Seq<u8>>,
    replies: Seq<TransactReply<Seq<u8>>>,
    nonce: U256,
    oasis_contract: Option<OasisContract>,
    base_gas: u64,
    balance: U256,
)
    requires
        base_gas <= start.transaction.gas@,
        after(start, replies) == start.admitted(nonce, oasis_contract, u256(base_gas as nat)),
    ensures
        ({
            let stage = after(start, replies.push(TransactReply::Amount(Ok(balance)))).stage;
            match objection(start, nonce, base_gas, true, balance) {
                Some(error) => stage == TransactStage::<Seq<u8>>::Done(Err(error)),
                None => if start.transaction.unsigned {
                    stage is Charge
                } else {
                    stage is IncNonce
                },
            }
        }),
{
    broadcast use group_words;

    reveal(TransactRun::checks_next);
    lemma_after_push(start, replies, TransactReply::Amount(Ok(balance)));
}

/// A transaction that is over stays as it is.
proof fn lemma_over_stays_over(
    start: TransactRun<Seq<u8>>,
    replies: Seq<TransactReply<Seq<u8>>>,
    reply: TransactReply<Seq<u8>>,
)
    requires
        after(start, replies).stage is Done,
    ensures
        after(start, replies.push(reply)) == after(start, replies),
{
    reveal(TransactRun::checks_next);
    reveal(TransactRun::execution_next);
    lemma_after_push(start, replies, reply);
}

/// A transaction is rejected if and only if there is an objection, and then for that; otherwise it
/// goes on to be executed, and a signed one first has its nonce incremented.
pub proof fn law_checks_decide(
    start: TransactRun<Seq<u8>>,
    nonce: U256,
    oasis_contract: Option<OasisContract>,
    base_gas: u64,
    exists: bool,
    balance: U256,
)
    requires
        start.stage is Nonce,
    ensures
        ({
            let stage = after(
                start,
                answers(start, nonce, oasis_contract, base_gas, exists, balance),
            ).stage;
            match objection(start, nonce, base_gas, exists, balance) {
                Some(error) => stage == TransactStage::<Seq<u8>>::Done(Err(error)),
                None => if start.transaction.unsigned {
                    stage is Charge
                } else {
                    stage is IncNonce
                },
            }
        }),
{
    let replies = early_answers(nonce, oasis_contract).push(TransactReply::Gas(base_gas));
    let existence = TransactReply::Flag(Ok(exists));
    let last = TransactReply::Amount(Ok(balance));
    let required = u256(base_gas as nat);
    lemma_base_gas_known(start, nonce, oasis_contract, base_gas);
    if start.transaction.gas@ < base_gas {
        lemma_over_stays_over(start, replies, existence);
        lemma_over_stays_over(start, replies.push(existence), last);
        lemma_over_stays_over(start, replies, last);
    } else if start.must_exist() {
        lemma_existence_known(start, replies, nonce, oasis_contract, required, exists);
        if exists {
            lemma_balance_known(
                start,
                replies.push(existence),
                nonce,
                oasis_contract,
                base_gas,
                balance,
            );
        } else {
            lemma_over_stays_over(start, replies.push(existence), last);
        }
    } else {
        lemma_balance_known(start, replies, nonce, oasis_contract, base_gas, balance);
    }
}

/// Whether a transaction is rejected for what only the check of the nonce finds.
pub open spec fn rejected_for_sender(stage: TransactStage<Seq<u8>>) -> bool {
    stage matches TransactStage::Done(Err(error)) && (error is InvalidNonce
        || error is SenderMustExist)
}

/// What holds of a transaction whose nonce is not checked, at every step.
spec fn sender_unquestioned(run: TransactRun<Seq<u8>>) -> bool {
    &&& !run.check_nonce
    &&& !(run.stage is Exists)
    &&& run.stage matches TransactStage::Finalizing(finalization) ==> !(finalization.stage is Done)
    &&& !rejected_for_sender(run.stage)
}

/// A step of the checks does not question the sender.
#[verifier::rlimit(40)]
proof fn lemma_checks_leave_sender(run: TransactRun<Seq<u8>>, reply: TransactReply<Seq<u8>>)
    requires
        !run.stage.is_paid(),
        sender_unquestioned(run),
    ensures
        sender_unquestioned(run.next(reply).0),
{
    reveal(TransactRun::checks_next);
}

/// A step of the execution does not question the sender.
#[verifier::rlimit(40)]
proof fn lemma_execution_leaves_sender(run: TransactRun<Seq<u8>>, reply: TransactReply<Seq<u8>>)
    requires
        run.stage.is_paid(),
        sender_unquestioned(run),
    ensures
        sender_unquestioned(run.next(reply).0),
{
    reveal(TransactRun::execution_next);
}

/// Where the nonce is not checked, the sender is not questioned after any conversation.
proof fn lemma_sender_history(start: TransactRun<Seq<u8>>, replies: Seq<TransactReply<Seq<u8>>>)
    requires
        start.stage is Nonce || start.stage is VirtualBalance,
        !start.check_nonce,
    ensures
        sender_unquestioned(after(start, replies)),
    decreases replies.len(),
{
    if replies.len() > 0 {
        let before = replies.drop_last();
        lemma_sender_history(start, before);
        if after(start, before).stage.is_paid() {
            lemma_execution_leaves_sender(after(start, before), replies.last());
        } else {
            lemma_checks_leave_sender(after(start, before), replies.last());
        }
    }
}

/// Where the nonce is not checked, no transaction is rejected for its nonce or because its sender
/// does not exist, whatever the host answers and however the transaction goes on.
pub proof fn law_unchecked_nonce_rejects_nothing(
    start: TransactRun<Seq<u8>>,
    replies: Seq<TransactReply<Seq<u8>>>,
)
    requires
        start.stage is Nonce || start.stage is VirtualBalance,
        !start.check_nonce,
        conversation(start, replies),
    ensures
        !rejected_for_sender(after(start, replies).stage),
{
    lemma_sender_history(start, replies);
}

/// Where the nonce is not checked, all other checks still are, and nothing else is: there is an
/// objection if and only if the gas does not cover the base cost, the block is full, or the sender
/// cannot pay. What the sender's nonce is, and whether the sender exists, makes no difference.
pub proof fn law_unchecked_nonce_leaves_other_checks(
    start: TransactRun<Seq<u8>>,
    nonce: U256,
    base_gas: u64,
    exists: bool,
    balance: U256,
)
    requires
        !start.check_nonce,
    ensures
        ({
            let t = start.transaction;
            let info = start.executive.info;
            let found = objection(start, nonce, base_gas, exists, balance);
            let short_of_gas = t.gas@ < base_gas;
            let over_limit = info.gas_used@ + t.gas@ > info.gas_limit@;
            let short_of_cash = balance@ < t.value@ + t.gas@ * t.gas_price@;
            &&& found is None <==> !short_of_gas && !over_limit && !short_of_cash
            &&& (found matches Some(ExecutionError::NotEnoughBaseGas { .. })) <==> short_of_gas
            &&& (found matches Some(ExecutionError::BlockGasLimitReached { .. })) <==> !short_of_gas
                && over_limit
            &&& (found matches Some(ExecutionError::NotEnoughCash { .. })) <==> !short_of_gas
                && !over_limit && short_of_cash
        }),
        forall|other_nonce: U256, other_exists: bool|
            #[trigger] objection(start, other_nonce, base_gas, other_exists, balance) == objection(
                start,
                nonce,
                base_gas,
                exists,
                balance,
            ),
{
}

/// Where the balance is answered.
pub open spec fn balance_turn(start: TransactRun<Seq<u8>>) -> int {
    if start.must_exist() {
        4
    } else {
        3
    }
}

/// The nonce of the sender, as it was answered.
pub open spec fn nonce_of(replies: Seq<TransactReply<Seq<u8>>>) -> U256 {
    replies[0]->Amount_0->Ok_0
}

/// Whether the replies answer all that the checks ask, and nothing is wrong.
pub open spec fn approved(
    start: TransactRun<Seq<u8>>,
    replies: Seq<TransactReply<Seq<u8>>>,
) -> bool {
    let turn = balance_turn(start);
    &&& replies.len() > turn
    &&& replies[0] matches TransactReply::Amount(Ok(nonce))
    &&& replies[1] matches TransactReply::Oasis(Ok(_))
    &&& replies[2] matches TransactReply::Gas(base_gas)
    &&& start.must_exist() ==> replies[3] == TransactReply::<Seq<u8>>::Flag(Ok(true))
    &&& replies[turn] matches TransactReply::Amount(Ok(balance))
    &&& objection(start, nonce, base_gas, true, balance) is None
}

/// What the replies so far say of a transaction that is where it is.
#[verifier::opaque]
pub open spec fn checks_passed(
    start: TransactRun<Seq<u8>>,
    run: TransactRun<Seq<u8>>,
    commands: Seq<Command<Seq<u8>>>,
    replies: Seq<TransactReply<Seq<u8>>>,
) -> bool {
    let t = start.transaction;
    let scheme = start.executive.machine.create_address_scheme;
    &&& run == start.at(run.stage)
    &&& run.stage.is_paid() || run.stage is IncNonce || run.stage is Charge ==> approved(
        start,
        replies,
    )
    &&& match run.stage {
        TransactStage::VirtualBalance => false,
        TransactStage::TopUp { .. } => false,
        TransactStage::Nonce => replies.len() == 0 && commands.len() == 0,
        TransactStage::Oasis { nonce } => {
            &&& commands.len() == 0
            &&& replies.len() == 1
            &&& replies[0] == TransactReply::<Seq<u8>>::Amount(Ok(nonce))
        },
        TransactStage::GasRequired { nonce, oasis_contract } => {
            &&& commands.len() == 0
            &&& replies.len() == 2
            &&& replies[0] == TransactReply::<Seq<u8>>::Amount(Ok(nonce))
            &&& replies[1] == TransactReply::<Seq<u8>>::Oasis(Ok(oasis_contract))
        },
        TransactStage::Exists { nonce, oasis_contract, base_gas } => {
            &&& commands.len() == 0
            &&& replies.len() == 3
            &&& replies[0] == TransactReply::<Seq<u8>>::Amount(Ok(nonce))
            &&& replies[1] == TransactReply::<Seq<u8>>::Oasis(Ok(oasis_contract))
            &&& start.must_exist()
            &&& replies[2] matches TransactReply::Gas(gas)
            &&& gas <= t.gas@
        },
        TransactStage::Balance(admission) => {
            &&& commands.len() == 0
            &&& replies.len() == balance_turn(start)
            &&& replies[0] == TransactReply::<Seq<u8>>::Amount(Ok(admission.nonce))
            &&& replies[1] == TransactReply::<Seq<u8>>::Oasis(Ok(admission.oasis_contract))
            &&& start.must_exist() ==> replies[3] == TransactReply::<Seq<u8>>::Flag(Ok(true))
            &&& start.check_nonce ==> t.nonce == admission.nonce
            &&& start.fits_block()
            &&& replies[2] matches TransactReply::Gas(gas)
            &&& gas <= t.gas@
        },
        TransactStage::IncNonce { admission, .. } => admission.nonce == nonce_of(replies),
        TransactStage::Charge { admission, .. } => admission.nonce == nonce_of(replies),
        TransactStage::Code { callee, .. } => t.action == Action::Call(callee),
        TransactStage::CodeHash { callee, .. } => t.action == Action::Call(callee),
        TransactStage::Creating(action) => {
            &&& t.action is Create
            &&& action.params.address == address(
                new_contract_address(scheme, t.sender, nonce_of(replies), t.data@),
            )
        },
        TransactStage::Calling(action) => t.action == Action::Call(action.params.address),
        TransactStage::Finalizing(_) => true,
        TransactStage::Done(_) => commands.len() > 0 ==> approved(start, replies),
    }
}

/// One more reply does not take approval back.
proof fn lemma_approval_stands(
    start: TransactRun<Seq<u8>>,
    replies: Seq<TransactReply<Seq<u8>>>,
    reply: TransactReply<Seq<u8>>,
)
    ensures
        approved(start, replies) ==> approved(start, replies.push(reply)),
        replies.len() > 0 ==> nonce_of(replies.push(reply)) == nonce_of(replies),
{
}

/// A step of the checks keeps what the replies say.
#[verifier::rlimit(40)]
proof fn lemma_checks_step(
    start: TransactRun<Seq<u8>>,
    run: TransactRun<Seq<u8>>,
    commands: Seq<Command<Seq<u8>>>,
    replies: Seq<TransactReply<Seq<u8>>>,
    reply: TransactReply<Seq<u8>>,
)
    requires
        !run.stage.is_paid(),
        checks_passed(start, run, commands, replies),
        run.accepts(reply),
    ensures
        checks_passed(
            start,
            run.next(reply).0,
            commands + run.next(reply).1,
            replies.push(reply),
        ),
{
    broadcast use group_words;

    reveal(TransactRun::checks_next);
    reveal(checks_passed);
    lemma_approval_stands(start, replies, reply);
    let all = replies.push(reply);
    assert(forall|i: int| 0 <= i < replies.len() ==> all[i] == replies[i]);
    assert(all[replies.len() as int] == reply);
}

/// A step of the execution keeps what the replies say.
#[verifier::rlimit(40)]
proof fn lemma_execution_step(
    start: TransactRun<Seq<u8>>,
    run: TransactRun<Seq<u8>>,
    commands: Seq<Command<Seq<u8>>>,
    replies: Seq<TransactReply<Seq<u8>>>,
    reply: TransactReply<Seq<u8>>,
)
    requires
        run.stage.is_paid(),
        checks_passed(start, run, commands, replies),
        run.accepts(reply),
    ensures
        checks_passed(
            start,
            run.next(reply).0,
            commands + run.next(reply).1,
            replies.push(reply),
        ),
{
    reveal(TransactRun::execution_next);
    reveal(checks_passed);
    lemma_approval_stands(start, replies, reply);
}

/// What the replies say after any conversation.
proof fn lemma_checks_history(start: TransactRun<Seq<u8>>, replies: Seq<TransactReply<Seq<u8>>>)
    requires
        conversation(start, replies),
        start.stage is Nonce,
    ensures
        checks_passed(start, after(start, replies), commanded(start, replies), replies),
    decreases replies.len(),
{
    if replies.len() > 0 {
        let before = replies.drop_last();
        lemma_checks_history(start, before);
        assert(replies =~= before.push(replies.last()));
        if after(start, before).stage.is_paid() {
            lemma_execution_step(
                start,
                after(start, before),
                commanded(start, before),
                before,
                replies.last(),
            );
        } else {
            lemma_checks_step(
                start,
                after(start, before),
                commanded(start, before),
                before,
                replies.last(),
            );
        }
    } else {
        reveal(checks_passed);
    }
}

/// A transaction is executed only where the host's answers leave no objection: its gas covers the
/// base cost, its sender exists where it has to, its nonce is the sender's where this is checked,
/// it fits the block, and the sender can pay for value and gas.
pub proof fn law_only_approved_transactions_are_executed(
    start: TransactRun<Seq<u8>>,
    replies: Seq<TransactReply<Seq<u8>>>,
)
    requires
        start.stage is Nonce,
        conversation(start, replies),
        commanded(start, replies).len() > 0,
    ensures
        approved(start, replies),
{
    lemma_checks_history(start, replies);
    reveal(checks_passed);
}

/// The address of a contract that a transaction creates is derived from the nonce that the sender
/// had before the transaction.
pub proof fn law_transaction_creates_at_its_address(
    start: TransactRun<Seq<u8>>,
    replies: Seq<TransactReply<Seq<u8>>>,
)
    requires
        start.stage is Nonce,
        conversation(start, replies),
    ensures
        after(start, replies).stage matches TransactStage::Creating(run) ==> {
            &&& start.transaction.action is Create
            &&& replies[0] == TransactReply::<Seq<u8>>::Amount(Ok(nonce_of(replies)))
            &&& run.params.address == address(
                new_contract_address(
                    start.executive.machine.create_address_scheme,
                    start.transaction.sender,
                    nonce_of(replies),
                    start.transaction.data@,
                ),
            )
        },
{
    lemma_checks_history(start, replies);
    reveal(checks_passed);
}

/// A transaction calls the account that it names.
pub proof fn law_transaction_calls_its_account(
    start: TransactRun<Seq<u8>>,
    replies: Seq<TransactReply<Seq<u8>>>,
)
    requires
        start.stage is Nonce,
        conversation(start, replies),
    ensures
        after(start, replies).stage matches TransactStage::Calling(run) ==> start.transaction.action
            == Action::Call(run.params.address),
{
    lemma_checks_history(start, replies);
    reveal(checks_passed);
}

/// A virtual transaction sees to it that its sender can pay: a sender who could not gets exactly
/// what is missing, and then the transaction goes on like any other. The cost has to fit a word.
pub proof fn law_virtual_sender_can_pay(start: TransactRun<Seq<u8>>, balance: U256)
    requires
        start.stage is VirtualBalance,
        start.transaction.total_cost() < u256_range(),
    ensures
        ({
            let run = start.next(TransactReply::Amount(Ok(balance))).0;
            let cost = start.transaction.total_cost();
            if balance@ < cost {
                &&& run.stage matches TransactStage::TopUp { amount }
                &&& balance@ + amount@ == cost
                &&& run.next(TransactReply::Unit(Ok(()))).0 == start.at(TransactStage::Nonce)
            } else {
                run == start.at(TransactStage::Nonce)
            }
        }),
        forall|nonce: U256, base_gas: u64, exists: bool, enough: U256|
            enough@ >= start.transaction.total_cost() ==> !(#[trigger] objection(
                start.at(TransactStage::Nonce),
                nonce,
                base_gas,
                exists,
                enough,
            ) matches Some(ExecutionError::NotEnoughCash { .. })),
{
    broadcast use group_words;

    reveal(TransactRun::checks_next);
    reveal(TransactRun::execution_next);
}

} // verus!
