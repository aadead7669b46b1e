//! Laws that say that the models of messages and runs tell all of them: each part is there, in its
//! place, and only byte strings are replaced by the sequences of their bytes.
use crate::bytes::BytesRef;
use crate::call::{CallRun, CallStage};
use crate::create::{CreateRun, CreateStage};
use crate::finalize::{FinalizeRun, FinalizeStage};
use crate::options::TransactOptions;
use crate::protocol::{
    commands_view, record_view, Ask, Command, OutputCopy, OutputPolicy, Reply, TraceOutput,
};
use crate::transact::{TransactRun, TransactStage};
use crate::transact_protocol::{TransactAsk, TransactReply};
use crate::transaction::{outcome_view, TransactResult};
use crate::vm::{result_view, ActionResult};
use vstd::prelude::*;
use vstd::std_specs::cmp::PartialEqSpec;

verus! {

/// Whether the sequence is that of the bytes.
pub open spec fn same_bytes(bytes: Vec<u8>, seen: Seq<u8>) -> bool {
    &&& seen.len() == bytes@.len()
    &&& forall|i: int| 0 <= i < seen.len() ==> #[trigger] seen[i] == bytes@[i]
}

/// Whether the model of a buffer is that of the buffer.
pub open spec fn same_buffer(buffer: BytesRef, seen: BytesRef<Seq<u8>>) -> bool {
    match (buffer, seen) {
        (BytesRef::Flexible(bytes), BytesRef::Flexible(view)) => same_bytes(bytes, view),
        (BytesRef::Fixed(bytes), BytesRef::Fixed(view)) => same_bytes(bytes, view),
        _ => false,
    }
}

/// Whether the model of a copy is that of the copy.
pub open spec fn same_copy(copy: OutputCopy, seen: OutputCopy<Seq<u8>>) -> bool {
    match (copy, seen) {
        (OutputCopy::Record(bytes), OutputCopy::Record(view)) => same_bytes(bytes, view),
        (OutputCopy::Prepared, OutputCopy::Prepared) => true,
        _ => false,
    }
}

/// Whether the model of a policy is that of the policy.
pub open spec fn same_policy(policy: OutputPolicy, seen: OutputPolicy<Seq<u8>>) -> bool {
    match (policy, seen) {
        (OutputPolicy::Return(buffer, copy), OutputPolicy::Return(view, copied)) => same_buffer(
            buffer,
            view,
        ) && same_copy(copy, copied),
        (OutputPolicy::InitContract(copy), OutputPolicy::InitContract(copied)) => same_copy(
            copy,
            copied,
        ),
        _ => false,
    }
}

/// Whether the model of a result is that of the result.
pub open spec fn same_result(
    result: ActionResult<Vec<u8>>,
    seen: ActionResult<Seq<u8>>,
) -> bool {
    match (result, seen) {
        (Ok(a), Ok(b)) => {
            &&& a.gas_left == b.gas_left
            &&& a.apply_state == b.apply_state
            &&& a.return_data.offset == b.return_data.offset
            &&& a.return_data.size == b.return_data.size
            &&& same_bytes(a.return_data.mem, b.return_data.mem)
        },
        (Err(a), Err(b)) => a == b,
        _ => false,
    }
}

/// Whether the model of a record is that of the record.
pub open spec fn same_record(record: Option<Vec<u8>>, seen: Option<Seq<u8>>) -> bool {
    match (record, seen) {
        (Some(bytes), Some(view)) => same_bytes(bytes, view),
        (None, None) => true,
        _ => false,
    }
}

/// Whether the model of a receipt is that of the receipt.
pub open spec fn same_receipt(
    receipt: TransactResult<Vec<u8>>,
    seen: TransactResult<Seq<u8>>,
) -> bool {
    match (receipt, seen) {
        (Ok(a), Ok(b)) => {
            &&& a.exception == b.exception
            &&& a.gas == b.gas
            &&& a.gas_used == b.gas_used
            &&& a.refunded == b.refunded
            &&& a.cumulative_gas_used == b.cumulative_gas_used
            &&& a.effects == b.effects
            &&& same_bytes(a.output, b.output)
        },
        (Err(a), Err(b)) => a == b,
        _ => false,
    }
}

/// Buffers, records, results and receipts are modelled as they are.
pub proof fn law_models_of_output(
    buffer: BytesRef,
    copy: OutputCopy,
    policy: OutputPolicy,
    record: Option<Vec<u8>>,
    result: ActionResult<Vec<u8>>,
    receipt: TransactResult<Vec<u8>>,
)
    ensures
        same_buffer(buffer, buffer@),
        same_copy(copy, copy@),
        same_policy(policy, policy@),
        same_record(record, record_view(record)),
        same_result(result, result_view(result)),
        same_receipt(receipt, outcome_view(receipt)),
{
}

/// A question of a call or a creation is modelled as it is.
pub proof fn law_model_of_a_question(ask: Ask)
    ensures
        match (ask, ask@) {
            (Ask::StorageExpiry(a), Ask::StorageExpiry(b)) => a == b,
            (
                Ask::TransferBalance { from, to, value, cleanup },
                Ask::TransferBalance {
                    from: from_seen,
                    to: to_seen,
                    value: value_seen,
                    cleanup: cleanup_seen,
                },
            ) => from == from_seen && to == to_seen && value == value_seen && cleanup
                == cleanup_seen,
            (
                Ask::Builtin { address, number },
                Ask::Builtin { address: address_seen, number: number_seen },
            ) => address == address_seen && number == number_seen,
            (Ask::BuiltinCost { data }, Ask::BuiltinCost { data: seen }) => same_bytes(data, seen),
            (Ask::BuiltinExecute { data }, Ask::BuiltinExecute { data: seen }) => same_bytes(
                data,
                seen,
            ),
            (Ask::ExecVm(a), Ask::ExecVm(b)) => {
                &&& a.info == b.info
                &&& a.machine == b.machine
                &&& a.params == b.params
                &&& a.depth == b.depth
                &&& a.static_flag == b.static_flag
                &&& same_policy(a.output, b.output)
            },
            (Ask::ExistsAndHasCodeOrNonce(a), Ask::ExistsAndHasCodeOrNonce(b)) => a == b,
            (Ask::Balance(a), Ask::Balance(b)) => a == b,
            (
                Ask::SubBalance { address, value, cleanup },
                Ask::SubBalance {
                    address: address_seen,
                    value: value_seen,
                    cleanup: cleanup_seen,
                },
            ) => address == address_seen && value == value_seen && cleanup == cleanup_seen,
            _ => false,
        },
{
}

/// An answer to a call or a creation is modelled as it is.
pub proof fn law_model_of_an_answer(reply: Reply)
    ensures
        match (reply, reply@) {
            (Reply::Time(a), Reply::Time(b)) => a == b,
            (Reply::Unit(a), Reply::Unit(b)) => a == b,
            (Reply::Builtin(a), Reply::Builtin(b)) => a == b,
            (Reply::Cost(a), Reply::Cost(b)) => a == b,
            (Reply::BuiltinOutput(Ok(a)), Reply::BuiltinOutput(Ok(b))) => same_bytes(a, b),
            (Reply::BuiltinOutput(Err(a)), Reply::BuiltinOutput(Err(b))) => a == b,
            (
                Reply::Vm { result, output },
                Reply::Vm { result: result_seen, output: output_seen },
            ) => same_result(result, result_seen) && same_policy(output, output_seen),
            (Reply::Flag(a), Reply::Flag(b)) => a == b,
            (Reply::Amount(a), Reply::Amount(b)) => a == b,
            _ => false,
        },
{
}

/// A question of a transaction is modelled as it is.
pub proof fn law_model_of_a_transaction_question(ask: TransactAsk)
    ensures
        match (ask, ask@) {
            (TransactAsk::Nonce(a), TransactAsk::Nonce(b)) => a == b,
            (TransactAsk::OasisContract, TransactAsk::OasisContract) => true,
            (
                TransactAsk::GasRequired { confidential },
                TransactAsk::GasRequired { confidential: seen },
            ) => confidential == seen,
            (TransactAsk::Exists(a), TransactAsk::Exists(b)) => a == b,
            (TransactAsk::Balance(a), TransactAsk::Balance(b)) => a == b,
            (
                TransactAsk::AddBalance { address, value, cleanup },
                TransactAsk::AddBalance {
                    address: address_seen,
                    value: value_seen,
                    cleanup: cleanup_seen,
                },
            ) => address == address_seen && value == value_seen && cleanup == cleanup_seen,
            (
                TransactAsk::SubBalance { address, value, cleanup },
                TransactAsk::SubBalance {
                    address: address_seen,
                    value: value_seen,
                    cleanup: cleanup_seen,
                },
            ) => address == address_seen && value == value_seen && cleanup == cleanup_seen,
            (TransactAsk::IncNonce(a), TransactAsk::IncNonce(b)) => a == b,
            (TransactAsk::Code(a), TransactAsk::Code(b)) => a == b,
            (TransactAsk::CodeHash(a), TransactAsk::CodeHash(b)) => a == b,
            (TransactAsk::Act(a), TransactAsk::Act(b)) => b == a@,
            (TransactAsk::Substate, TransactAsk::Substate) => true,
            (TransactAsk::Touched, TransactAsk::Touched) => true,
            (
                TransactAsk::KillGarbage { touched, remove_empty, min_balance, kill_contracts },
                TransactAsk::KillGarbage {
                    touched: touched_seen,
                    remove_empty: remove_seen,
                    min_balance: limit_seen,
                    kill_contracts: contracts_seen,
                },
            ) => touched == touched_seen && remove_empty == remove_seen && min_balance
                == limit_seen && kill_contracts == contracts_seen,
            _ => false,
        },
{
}

/// An answer to a transaction is modelled as it is.
pub proof fn law_model_of_a_transaction_answer(reply: TransactReply)
    ensures
        match (reply, reply@) {
            (TransactReply::Amount(a), TransactReply::Amount(b)) => a == b,
            (TransactReply::Oasis(a), TransactReply::Oasis(b)) => a == b,
            (TransactReply::Gas(a), TransactReply::Gas(b)) => a == b,
            (TransactReply::Flag(a), TransactReply::Flag(b)) => a == b,
            (TransactReply::Unit(a), TransactReply::Unit(b)) => a == b,
            (TransactReply::Code(a), TransactReply::Code(b)) => a == b,
            (TransactReply::Hash(a), TransactReply::Hash(b)) => a == b,
            (TransactReply::Act(a), TransactReply::Act(b)) => b == a@,
            (TransactReply::Substate(a), TransactReply::Substate(b)) => a == b,
            (TransactReply::Touched(a), TransactReply::Touched(b)) => a == b,
            _ => false,
        },
{
}

/// Commands are modelled as they are, one by one and in order.
pub proof fn law_model_of_commands(commands: Vec<Command>)
    ensures
        commands_view(commands).len() == commands@.len(),
        forall|i: int|
            0 <= i < commands@.len() ==> same_command(
                commands@[i],
                #[trigger] commands_view(commands)[i],
            ),
{
}

/// Whether the model of a command is that of the command.
pub open spec fn same_command(command: Command, seen: Command<Seq<u8>>) -> bool {
    match (command, seen) {
        (Command::Checkpoint, Command::Checkpoint) => true,
        (Command::RevertToCheckpoint, Command::RevertToCheckpoint) => true,
        (Command::DiscardCheckpoint, Command::DiscardCheckpoint) => true,
        (Command::NewSubstate, Command::NewSubstate) => true,
        (Command::NewUnconfirmedSubstate, Command::NewUnconfirmedSubstate) => true,
        (Command::AccrueSubstate, Command::AccrueSubstate) => true,
        (
            Command::NewContract { address, balance, nonce_offset, storage_expiry },
            Command::NewContract {
                address: address_seen,
                balance: balance_seen,
                nonce_offset: nonce_seen,
                storage_expiry: expiry_seen,
            },
        ) => address == address_seen && balance == balance_seen && nonce_offset == nonce_seen
            && storage_expiry == expiry_seen,
        (Command::KillAccount(a), Command::KillAccount(b)) => a == b,
        (Command::PrepareTraceCall(a), Command::PrepareTraceCall(b)) => a == b,
        (Command::PrepareTraceCreate(a), Command::PrepareTraceCreate(b)) => a == b,
        (Command::PrepareTraceOutput, Command::PrepareTraceOutput) => true,
        (Command::Subtracer, Command::Subtracer) => true,
        (Command::PrepareSubtrace(a), Command::PrepareSubtrace(b)) => a == b,
        (Command::ExtSubtracer(a), Command::ExtSubtracer(b)) => a == b,
        (Command::DoneSubtrace, Command::DoneSubtrace) => true,
        (
            Command::TraceCall { gas_used, output, traces },
            Command::TraceCall { gas_used: gas_seen, output: output_seen, traces: traces_seen },
        ) => gas_used == gas_seen && traces == traces_seen && same_shown(output, output_seen),
        (
            Command::TraceFailedCall { error, traces },
            Command::TraceFailedCall { error: error_seen, traces: traces_seen },
        ) => error == error_seen && traces == traces_seen,
        (
            Command::TraceCreate { gas_used, output, address, traces },
            Command::TraceCreate {
                gas_used: gas_seen,
                output: output_seen,
                address: address_seen,
                traces: traces_seen,
            },
        ) => gas_used == gas_seen && address == address_seen && traces == traces_seen
            && same_shown(output, output_seen),
        (
            Command::TraceFailedCreate { error, traces },
            Command::TraceFailedCreate { error: error_seen, traces: traces_seen },
        ) => error == error_seen && traces == traces_seen,
        _ => false,
    }
}

/// Whether the model of the output of a trace is that of the output.
pub open spec fn same_shown(output: TraceOutput, seen: TraceOutput<Seq<u8>>) -> bool {
    match (output, seen) {
        (TraceOutput::Prepared, TraceOutput::Prepared) => true,
        (TraceOutput::Bytes(bytes), TraceOutput::Bytes(view)) => same_bytes(bytes, view),
        _ => false,
    }
}

/// A call is modelled as it is.
pub proof fn law_model_of_a_call(run: CallRun)
    ensures
        run@.executive == run.executive,
        run@.params == run.params,
        same_buffer(run.output, run@.output),
        match (run.stage, run@.stage) {
            (CallStage::Expiry, CallStage::Expiry) => true,
            (CallStage::Transfer, CallStage::Transfer) => true,
            (CallStage::Builtin, CallStage::Builtin) => true,
            (CallStage::BuiltinCost, CallStage::BuiltinCost) => true,
            (CallStage::BuiltinRun { cost }, CallStage::BuiltinRun { cost: seen }) => cost == seen,
            (CallStage::Vm, CallStage::Vm) => true,
            (CallStage::Done(a), CallStage::Done(b)) => same_result(a, b),
            _ => false,
        },
{
}

/// A creation is modelled as it is.
pub proof fn law_model_of_a_creation(run: CreateRun)
    ensures
        run@.executive == run.executive,
        run@.params == run.params,
        same_record(run.output, run@.output),
        match (run.stage, run@.stage) {
            (CreateStage::Occupied, CreateStage::Occupied) => true,
            (
                CreateStage::Balance { storage_expiry },
                CreateStage::Balance { storage_expiry: seen },
            ) => storage_expiry == seen,
            (
                CreateStage::Fund { storage_expiry, previous },
                CreateStage::Fund { storage_expiry: expiry_seen, previous: previous_seen },
            ) => storage_expiry == expiry_seen && previous == previous_seen,
            (CreateStage::Vm, CreateStage::Vm) => true,
            (CreateStage::Done(a), CreateStage::Done(b)) => same_result(a, b),
            _ => false,
        },
{
}

/// A finalization is modelled as it is.
pub proof fn law_model_of_a_finalization(run: FinalizeRun)
    ensures
        run@.executive == run.executive,
        run@.transaction == run.transaction,
        same_result(run.result, run@.result),
        same_bytes(run.output, run@.output),
        match (run.stage, run@.stage) {
            (FinalizeStage::Substate, FinalizeStage::Substate) => true,
            (
                FinalizeStage::Refund { substate, settlement },
                FinalizeStage::Refund { substate: substate_seen, settlement: seen },
            ) => substate == substate_seen && settlement == seen,
            (
                FinalizeStage::Fees { substate, settlement },
                FinalizeStage::Fees { substate: substate_seen, settlement: seen },
            ) => substate == substate_seen && settlement == seen,
            (
                FinalizeStage::Touched { substate, settlement, min_balance },
                FinalizeStage::Touched {
                    substate: substate_seen,
                    settlement: seen,
                    min_balance: limit_seen,
                },
            ) => substate == substate_seen && settlement == seen && min_balance == limit_seen,
            (
                FinalizeStage::Garbage { substate, settlement, min_balance, touched },
                FinalizeStage::Garbage {
                    substate: substate_seen,
                    settlement: seen,
                    min_balance: limit_seen,
                    touched: touched_seen,
                },
            ) => substate == substate_seen && settlement == seen && min_balance == limit_seen
                && touched == touched_seen,
            (FinalizeStage::Done(a), FinalizeStage::Done(b)) => same_receipt(a, b),
            _ => false,
        },
{
}

/// A transaction on its way is modelled as it is.
pub proof fn law_model_of_a_transaction(run: TransactRun)
    ensures
        run@.executive == run.executive,
        run@.transaction == run.transaction,
        run@.check_nonce == run.check_nonce,
        run@.output_from_create == run.output_from_create,
        match (run.stage, run@.stage) {
            (TransactStage::VirtualBalance, TransactStage::VirtualBalance) => true,
            (TransactStage::TopUp { amount }, TransactStage::TopUp { amount: seen }) => amount
                == seen,
            (TransactStage::Nonce, TransactStage::Nonce) => true,
            (TransactStage::Oasis { nonce }, TransactStage::Oasis { nonce: seen }) => nonce == seen,
            (
                TransactStage::GasRequired { nonce, oasis_contract },
                TransactStage::GasRequired { nonce: nonce_seen, oasis_contract: header_seen },
            ) => nonce == nonce_seen && oasis_contract == header_seen,
            (
                TransactStage::Exists { nonce, oasis_contract, base_gas },
                TransactStage::Exists {
                    nonce: nonce_seen,
                    oasis_contract: header_seen,
                    base_gas: gas_seen,
                },
            ) => nonce == nonce_seen && oasis_contract == header_seen && base_gas == gas_seen,
            (TransactStage::Balance(a), TransactStage::Balance(b)) => a == b,
            (
                TransactStage::IncNonce { admission, gas_cost },
                TransactStage::IncNonce { admission: admission_seen, gas_cost: cost_seen },
            ) => admission == admission_seen && gas_cost == cost_seen,
            (
                TransactStage::Charge { admission, gas_cost },
                TransactStage::Charge { admission: admission_seen, gas_cost: cost_seen },
            ) => admission == admission_seen && gas_cost == cost_seen,
            (
                TransactStage::Code { admission, callee },
                TransactStage::Code { admission: admission_seen, callee: callee_seen },
            ) => admission == admission_seen && callee == callee_seen,
            (
                TransactStage::CodeHash { admission, callee, code },
                TransactStage::CodeHash {
                    admission: admission_seen,
                    callee: callee_seen,
                    code: code_seen,
                },
            ) => admission == admission_seen && callee == callee_seen && code == code_seen,
            (TransactStage::Creating(a), TransactStage::Creating(b)) => b == a@,
            (TransactStage::Calling(a), TransactStage::Calling(b)) => b == a@,
            (TransactStage::Finalizing(a), TransactStage::Finalizing(b)) => b == a@,
            (TransactStage::Done(a), TransactStage::Done(b)) => same_receipt(a, b),
            _ => false,
        },
{
}

/// Options are equal exactly where their choices and their tracers are.
pub proof fn law_options_equal<T: PartialEq, V: PartialEq, X: PartialEq>(
    a: TransactOptions<T, V, X>,
    b: TransactOptions<T, V, X>,
)
    ensures
        a.eq_spec(&b) <==> {
            &&& a.check_nonce == b.check_nonce
            &&& a.output_from_init_contract == b.output_from_init_contract
            &&& a.tracer.eq_spec(&b.tracer)
            &&& a.vm_tracer.eq_spec(&b.vm_tracer)
            &&& a.ext_tracer.eq_spec(&b.ext_tracer)
        },
{
}

} // verus!
