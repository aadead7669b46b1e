//! Runs step by step, with the replies written out.
use executive::bytes::BytesRef;
use executive::call::{CallRun, CallStage};
use executive::contract_address::{contract_address, CreateContractAddress};
use executive::create::{CreateRun, CreateStage};
use executive::executive::Executive;
use executive::finalize::FinalizeStage;
use executive::hash::{Address, H256};
use executive::options::TransactOptions;
use executive::protocol::{
    Ask, Cleanup, Command, OutputCopy, OutputPolicy, Reply, Subtraces, TraceOutput, VmCall,
};
use executive::transact::{TransactRun, TransactStage};
use executive::transact_protocol::{TransactAsk, TransactReply};
use executive::transaction::{
    Action, Effects, Executed, ExecutionError, LogEntry, SignedTransaction, SubstateSummary,
};
use executive::uint::{U256, U512};
use executive::vm::{
    ActionParams, ActionValue, CallType, CleanDustMode, EnvInfo, FinalizationResult, Machine,
    OasisContract, ParamsType, ReturnData, Schedule, VmError,
};
use std::sync::Arc;

fn word(n: u64) -> U256 {
    U256 { limbs: [n, 0, 0, 0] }
}

fn wide(n: u64) -> U512 {
    U512 { limbs: [n, 0, 0, 0, 0, 0, 0, 0] }
}

fn largest() -> U256 {
    U256 { limbs: [u64::MAX; 4] }
}

fn account(byte: u8) -> Address {
    Address { bytes: [byte; 20] }
}

const SENDER: u8 = 1;
const RECEIVER: u8 = 2;
const CODE: u8 = 3;
const AUTHOR: u8 = 4;

fn executive() -> Executive {
    Executive::new(
        EnvInfo {
            number: 9,
            author: account(AUTHOR),
            timestamp: 1_000,
            gas_used: word(500),
            gas_limit: word(1_000_000),
        },
        Machine {
            schedule: Schedule {
                kill_dust: CleanDustMode::Off,
                kill_empty: true,
                no_empty: true,
                suicide_refund_gas: 24_000,
                tx_gas: 21_000,
                default_storage_duration: 50,
            },
            create_address_scheme: CreateContractAddress::FromSenderAndNonce,
        },
    )
}

fn params(value: ActionValue, code: Option<Vec<u8>>) -> ActionParams {
    ActionParams {
        code_address: account(CODE),
        code_hash: None,
        address: account(RECEIVER),
        sender: account(SENDER),
        origin: account(SENDER),
        origin_nonce: word(0),
        gas: word(1_000),
        gas_price: word(1),
        value,
        code: code.map(Arc::new),
        data: Some(Arc::new(vec![5, 6])),
        call_type: CallType::Call,
        params_type: ParamsType::Separate,
        oasis_contract: None,
        aad: None,
    }
}

fn finished(gas_left: u64, apply_state: bool) -> Result<FinalizationResult, VmError> {
    Ok(FinalizationResult {
        gas_left: word(gas_left),
        return_data: ReturnData { mem: vec![8], offset: 0, size: 1 },
        apply_state,
    })
}

/// Resumes the call with a reply that it takes.
fn call_on(run: CallRun, reply: Reply) -> (CallRun, Vec<Command>) {
    assert!(run.takes(&reply));
    run.resume(reply)
}

fn create_on(run: CreateRun, reply: Reply) -> (CreateRun, Vec<Command>) {
    assert!(run.takes(&reply));
    run.resume(reply)
}

fn transact_on(run: TransactRun, reply: TransactReply) -> (TransactRun, Vec<Command>) {
    assert!(run.takes(&reply));
    run.resume(reply)
}

// ---------------------------------------------------------------------------------------------
// The executive

#[test]
fn children_are_one_level_deeper() {
    let parent = executive();
    assert_eq!(parent.depth, 0);
    assert!(!parent.static_flag);
    let child = Executive::from_parent(parent.info, parent.machine, 4, true);
    assert_eq!(child.depth, 5);
    assert!(child.static_flag);
    assert_eq!(child.info, parent.info);
    assert_eq!(child.machine, parent.machine);
}

#[test]
fn externalities_are_static_where_executive_or_call_is() {
    let mut executive = executive();
    executive.depth = 3;
    for (flag, call) in [(false, false), (false, true), (true, false), (true, true)].iter() {
        executive.static_flag = *flag;
        let ext = executive.as_externalities(1, 2, 3, 4, 5, 6, *call);
        assert_eq!(ext.static_flag, *flag || *call);
        assert_eq!(ext.depth, 3);
        assert_eq!((ext.origin_info, ext.substate, ext.output), (1, 2, 3));
        assert_eq!((ext.tracer, ext.vm_tracer, ext.ext_tracer), (4, 5, 6));
    }
}

#[test]
fn static_calls_run_static_code() {
    let mut action = params(ActionValue::Apparent(word(0)), Some(vec![1]));
    action.call_type = CallType::StaticCall;
    let call = executive().exec_vm(action.clone(), OutputPolicy::InitContract(OutputCopy::Prepared));
    assert_eq!(
        call,
        VmCall {
            info: executive().info,
            machine: executive().machine,
            params: action,
            depth: 0,
            static_flag: true,
            output: OutputPolicy::InitContract(OutputCopy::Prepared),
        }
    );
    let action = params(ActionValue::Apparent(word(0)), Some(vec![1]));
    assert!(!executive().exec_vm(action, OutputPolicy::InitContract(OutputCopy::Prepared)).static_flag);
}

#[test]
fn results_are_enacted() {
    let errors = vec![
        VmError::OutOfGas,
        VmError::BadJumpDestination { destination: 1 },
        VmError::BadInstruction { instruction: 1 },
        VmError::StackUnderflow { instruction: "ADD".to_string(), wanted: 2, on_stack: 1 },
        VmError::OutOfStack { instruction: "DUP1".to_string(), wanted: 2, limit: 1 },
        VmError::BuiltIn("no".to_string()),
        VmError::MutableCallInStaticContext,
        VmError::Wasm("no".to_string()),
        VmError::OutOfBounds,
        VmError::Reverted,
        VmError::ContractExpired,
        VmError::Confidential("no".to_string()),
    ];
    for error in errors {
        assert_eq!(Executive::enact_result(&Err(error)), vec![Command::RevertToCheckpoint]);
    }
    assert_eq!(
        Executive::enact_result(&finished(1, false)),
        vec![Command::RevertToCheckpoint]
    );
    let kept = vec![Command::DiscardCheckpoint, Command::AccrueSubstate];
    assert_eq!(Executive::enact_result(&finished(1, true)), kept);
    assert_eq!(Executive::enact_result(&Err(VmError::Internal("io".to_string()))), kept);
}

// ---------------------------------------------------------------------------------------------
// Calls

#[test]
fn static_calls_move_no_value() {
    let refused = CallStage::Done(Err(VmError::MutableCallInStaticContext));
    for value in [ActionValue::Transfer(word(1)), ActionValue::Apparent(word(1))].iter() {
        let mut action = params(*value, Some(vec![1]));
        action.call_type = CallType::StaticCall;
        let (run, commands) = executive().call(action, BytesRef::Flexible(vec![]));
        assert_eq!(run.stage, refused);
        assert_eq!(commands, vec![]);
        assert_eq!(run.ask(), None);

        let mut inside = executive();
        inside.static_flag = true;
        let (run, _) = inside.call(params(*value, None), BytesRef::Flexible(vec![]));
        assert_eq!(run.stage, refused);
        // A call that runs the code of another account is not refused here.
        let mut action = params(*value, None);
        action.call_type = CallType::CallCode;
        let (run, _) = inside.call(action, BytesRef::Flexible(vec![]));
        assert_ne!(run.stage, refused);
    }
    let mut action = params(ActionValue::Transfer(word(0)), None);
    action.call_type = CallType::StaticCall;
    let (run, commands) = executive().call(action, BytesRef::Flexible(vec![]));
    assert_eq!(run.stage, CallStage::Transfer);
    assert_eq!(commands, vec![Command::Checkpoint]);
}

#[test]
fn expired_contracts_do_not_run() {
    let action = params(ActionValue::Transfer(word(7)), Some(vec![1]));
    let (run, commands) = executive().call(action.clone(), BytesRef::Flexible(vec![]));
    assert_eq!(commands, vec![]);
    assert_eq!(run.ask(), Some(Ask::StorageExpiry(account(CODE))));
    let (run, commands) = call_on(run, Reply::Time(Ok(999)));
    assert_eq!(run.stage, CallStage::Done(Err(VmError::ContractExpired)));
    assert_eq!(
        commands,
        vec![
            Command::PrepareTraceCall(action.clone()),
            Command::TraceFailedCall {
                error: VmError::ContractExpired,
                traces: Subtraces::Nothing,
            },
        ]
    );
    // At the very second it still runs.
    let (run, _) = executive().call(action.clone(), BytesRef::Flexible(vec![]));
    let (run, commands) = call_on(run, Reply::Time(Ok(1_000)));
    assert_eq!(run.stage, CallStage::Transfer);
    assert_eq!(commands, vec![Command::Checkpoint]);
    // A failure of the host is the result.
    let (run, _) = executive().call(action, BytesRef::Flexible(vec![]));
    let error = VmError::Internal("trie".to_string());
    let (run, commands) = call_on(run, Reply::Time(Err(error.clone())));
    assert_eq!(run.stage, CallStage::Done(Err(error)));
    assert_eq!(commands, vec![]);
    // Empty code does not expire.
    let action = params(ActionValue::Transfer(word(7)), Some(vec![]));
    let (run, _) = executive().call(action, BytesRef::Flexible(vec![]));
    assert_eq!(run.stage, CallStage::Transfer);
}

#[test]
fn failed_transfer_is_the_result() {
    let action = params(ActionValue::Transfer(word(7)), None);
    let (run, commands) = executive().call(action, BytesRef::Flexible(vec![]));
    assert_eq!(commands, vec![Command::Checkpoint]);
    assert_eq!(
        run.ask(),
        Some(Ask::TransferBalance {
            from: account(SENDER),
            to: account(RECEIVER),
            value: word(7),
            cleanup: Cleanup::OfSubstate,
        })
    );
    let error = VmError::Internal("trie".to_string());
    let (run, commands) = call_on(run, Reply::Unit(Err(error.clone())));
    assert_eq!(run.stage, CallStage::Done(Err(error)));
    assert_eq!(commands, vec![]);
}

#[test]
fn call_without_code_only_moves_value() {
    let action = params(ActionValue::Transfer(word(7)), None);
    let (run, _) = executive().call(action.clone(), BytesRef::Flexible(vec![]));
    let (run, commands) = call_on(run, Reply::Unit(Ok(())));
    assert_eq!(commands, vec![]);
    assert_eq!(run.ask(), Some(Ask::Builtin { address: account(CODE), number: 9 }));
    let (run, commands) = call_on(run, Reply::Builtin(None));
    assert_eq!(
        run.stage,
        CallStage::Done(Ok(FinalizationResult {
            gas_left: word(1_000),
            return_data: ReturnData::empty(),
            apply_state: true,
        }))
    );
    assert_eq!(
        commands,
        vec![
            Command::PrepareTraceCall(action),
            Command::PrepareTraceOutput,
            Command::Subtracer,
            Command::DiscardCheckpoint,
            Command::TraceCall {
                gas_used: word(0),
                output: TraceOutput::Prepared,
                traces: Subtraces::Nothing,
            },
        ]
    );
}

/// A call up to the execution of its built-in contract, which costs 600.
fn at_builtin(executive: Executive, value: ActionValue, output: BytesRef) -> CallRun {
    let (run, _) = executive.call(params(value, None), output);
    let run = match value {
        ActionValue::Transfer(_) => call_on(run, Reply::Unit(Ok(()))).0,
        ActionValue::Apparent(_) => run,
    };
    let (run, commands) = call_on(run, Reply::Builtin(Some(true)));
    assert_eq!(commands, vec![Command::PrepareTraceCall(params(value, None))]);
    assert_eq!(run.ask(), Some(Ask::BuiltinCost { data: vec![5, 6] }));
    let (run, commands) = call_on(run, Reply::Cost(word(600)));
    assert_eq!(commands, vec![]);
    assert_eq!(run.ask(), Some(Ask::BuiltinExecute { data: vec![5, 6] }));
    run
}

#[test]
fn builtin_output_is_written() {
    let moved = ActionValue::Transfer(word(7));
    let cases = vec![
        (BytesRef::Flexible(vec![1, 1, 1, 1]), BytesRef::Flexible(vec![8, 9])),
        (BytesRef::Fixed(vec![1, 1, 1, 1]), BytesRef::Fixed(vec![8, 9, 1, 1])),
        (BytesRef::Fixed(vec![1]), BytesRef::Fixed(vec![8])),
        (BytesRef::Fixed(vec![]), BytesRef::Fixed(vec![])),
    ];
    for (before, after) in cases {
        let run = at_builtin(executive(), moved, before);
        let (run, commands) = call_on(run, Reply::BuiltinOutput(Ok(vec![8, 9])));
        assert_eq!(
            run.stage,
            CallStage::Done(Ok(FinalizationResult {
                gas_left: word(400),
                return_data: ReturnData { mem: vec![8, 9], offset: 0, size: 2 },
                apply_state: true,
            }))
        );
        assert_eq!(
            commands,
            vec![
                Command::DiscardCheckpoint,
                Command::PrepareTraceOutput,
                Command::TraceCall {
                    gas_used: word(600),
                    output: TraceOutput::Bytes(after.to_vec()),
                    traces: Subtraces::Nothing,
                },
            ]
        );
        assert_eq!(run.output, after);
    }
}

#[test]
fn builtin_is_traced_at_the_top_or_with_value() {
    let traced = |depth: usize, value: ActionValue| {
        let mut executive = executive();
        executive.depth = depth;
        let run = at_builtin(executive, value, BytesRef::Flexible(vec![]));
        let (_, commands) = call_on(run, Reply::BuiltinOutput(Ok(vec![])));
        assert_eq!(commands[0], Command::DiscardCheckpoint);
        commands.len() > 1
    };
    assert!(traced(0, ActionValue::Transfer(word(0))));
    assert!(traced(0, ActionValue::Apparent(word(7))));
    assert!(traced(1, ActionValue::Transfer(word(7))));
    assert!(!traced(1, ActionValue::Transfer(word(0))));
    assert!(!traced(1, ActionValue::Apparent(word(7))));
}

#[test]
fn builtin_that_costs_too_much_or_fails_is_reverted() {
    let value = ActionValue::Transfer(word(7));
    let (run, _) = executive().call(params(value, None), BytesRef::Flexible(vec![]));
    let (run, _) = call_on(run, Reply::Unit(Ok(())));
    let (run, _) = call_on(run, Reply::Builtin(Some(true)));
    let (run, commands) = call_on(run, Reply::Cost(word(1_001)));
    assert_eq!(run.stage, CallStage::Done(Err(VmError::OutOfGas)));
    assert_eq!(
        commands,
        vec![
            Command::RevertToCheckpoint,
            Command::TraceFailedCall { error: VmError::OutOfGas, traces: Subtraces::Nothing },
        ]
    );

    let run = at_builtin(executive(), value, BytesRef::Flexible(vec![]));
    let (run, commands) = call_on(run, Reply::BuiltinOutput(Err("bad".to_string())));
    let error = VmError::BuiltIn("bad".to_string());
    assert_eq!(run.stage, CallStage::Done(Err(error.clone())));
    assert_eq!(
        commands,
        vec![
            Command::RevertToCheckpoint,
            Command::TraceFailedCall { error, traces: Subtraces::Nothing },
        ]
    );
}

#[test]
fn builtin_may_cost_all_gas() {
    let value = ActionValue::Apparent(word(7));
    let (run, _) = executive().call(params(value, None), BytesRef::Flexible(vec![]));
    let (run, _) = call_on(run, Reply::Builtin(Some(true)));
    let (run, _) = call_on(run, Reply::Cost(word(1_000)));
    assert_eq!(run.stage, CallStage::BuiltinRun { cost: word(1_000) });
}

/// A call up to the execution of its code.
fn at_code() -> CallRun {
    let action = params(ActionValue::Transfer(word(7)), Some(vec![1]));
    let (run, _) = executive().call(action.clone(), BytesRef::Fixed(vec![0, 0]));
    let (run, _) = call_on(run, Reply::Time(Ok(2_000)));
    let (run, _) = call_on(run, Reply::Unit(Ok(())));
    let (run, commands) = call_on(run, Reply::Builtin(None));
    assert_eq!(
        commands,
        vec![
            Command::PrepareTraceCall(action.clone()),
            Command::PrepareTraceOutput,
            Command::Subtracer,
            Command::NewUnconfirmedSubstate,
            Command::PrepareSubtrace(Arc::new(vec![1])),
            Command::ExtSubtracer(account(RECEIVER)),
        ]
    );
    assert_eq!(
        run.ask(),
        Some(Ask::ExecVm(VmCall {
            info: executive().info,
            machine: executive().machine,
            params: action,
            depth: 0,
            static_flag: false,
            output: OutputPolicy::Return(BytesRef::Fixed(vec![0, 0]), OutputCopy::Prepared),
        }))
    );
    run
}

#[test]
fn code_is_traced_and_enacted() {
    let output = || OutputPolicy::Return(BytesRef::Fixed(vec![8, 0]), OutputCopy::Prepared);
    let end = |result: Result<FinalizationResult, VmError>| {
        let (run, commands) = call_on(at_code(), Reply::Vm { result, output: output() });
        assert_eq!(run.output, BytesRef::Fixed(vec![8, 0]));
        assert_eq!(commands[0], Command::DoneSubtrace);
        (run.stage, commands)
    };
    let (stage, commands) = end(finished(300, true));
    assert_eq!(stage, CallStage::Done(finished(300, true)));
    assert_eq!(
        commands[1..],
        [
            Command::TraceCall {
                gas_used: word(700),
                output: TraceOutput::Prepared,
                traces: Subtraces::Drained,
            },
            Command::DiscardCheckpoint,
            Command::AccrueSubstate,
        ]
    );
    let (stage, commands) = end(finished(300, false));
    assert_eq!(stage, CallStage::Done(finished(300, false)));
    assert_eq!(
        commands[1..],
        [
            Command::TraceFailedCall { error: VmError::Reverted, traces: Subtraces::Drained },
            Command::RevertToCheckpoint,
        ]
    );
    let (stage, commands) = end(Err(VmError::OutOfBounds));
    assert_eq!(stage, CallStage::Done(Err(VmError::OutOfBounds)));
    assert_eq!(
        commands[1..],
        [
            Command::TraceFailedCall { error: VmError::OutOfBounds, traces: Subtraces::Drained },
            Command::RevertToCheckpoint,
        ]
    );
    let error = VmError::Internal("io".to_string());
    let (_, commands) = end(Err(error.clone()));
    assert_eq!(
        commands[1..],
        [
            Command::TraceFailedCall { error, traces: Subtraces::Drained },
            Command::DiscardCheckpoint,
            Command::AccrueSubstate,
        ]
    );
}

#[test]
fn calls_take_only_answers() {
    let run = at_code();
    let good = OutputPolicy::Return(BytesRef::Fixed(vec![1, 2]), OutputCopy::Prepared);
    assert!(run.takes(&Reply::Vm { result: finished(1_000, true), output: good }));
    // More gas than there was.
    let good = OutputPolicy::Return(BytesRef::Fixed(vec![1, 2]), OutputCopy::Prepared);
    assert!(!run.takes(&Reply::Vm { result: finished(1_001, true), output: good }));
    // Another output.
    for bad in vec![
        OutputPolicy::Return(BytesRef::Fixed(vec![1]), OutputCopy::Prepared),
        OutputPolicy::Return(BytesRef::Flexible(vec![1, 2]), OutputCopy::Prepared),
        OutputPolicy::Return(BytesRef::Fixed(vec![1, 2]), OutputCopy::Record(vec![])),
        OutputPolicy::InitContract(OutputCopy::Prepared),
    ] {
        assert!(!run.takes(&Reply::Vm { result: finished(1, true), output: bad }));
    }
    assert!(!run.takes(&Reply::Unit(Ok(()))));
    // A built-in contract that is not active.
    let (run, _) =
        executive().call(params(ActionValue::Apparent(word(0)), None), BytesRef::Fixed(vec![]));
    assert!(!run.takes(&Reply::Builtin(Some(false))));
    assert!(run.takes(&Reply::Builtin(Some(true))));
    assert!(run.takes(&Reply::Builtin(None)));
    // A run that is over takes nothing.
    let (run, _) = call_on(run, Reply::Builtin(None));
    assert!(!run.takes(&Reply::Builtin(None)));
}

// ---------------------------------------------------------------------------------------------
// Creations

fn creation(value: ActionValue) -> ActionParams {
    let mut action = params(value, Some(vec![1, 2]));
    action.call_type = CallType::Creation;
    action
}

#[test]
fn taken_address_fails() {
    let run = executive().create(creation(ActionValue::Transfer(word(7))), None);
    assert_eq!(run.ask(), Some(Ask::ExistsAndHasCodeOrNonce(account(RECEIVER))));
    let (run, commands) = create_on(run, Reply::Flag(Ok(true)));
    assert_eq!(run.stage, CreateStage::Done(Err(VmError::OutOfGas)));
    assert_eq!(commands, vec![]);
    assert_eq!(run.ask(), None);
}

#[test]
fn nothing_is_created_statically() {
    let mut inside = executive();
    inside.static_flag = true;
    let mut call = creation(ActionValue::Transfer(word(0)));
    call.call_type = CallType::StaticCall;
    for (executive, action) in
        vec![(inside, creation(ActionValue::Transfer(word(0)))), (executive(), call)]
    {
        let run = executive.create(action.clone(), None);
        let (run, commands) = create_on(run, Reply::Flag(Ok(false)));
        assert_eq!(run.stage, CreateStage::Done(Err(VmError::MutableCallInStaticContext)));
        assert_eq!(
            commands,
            vec![
                Command::PrepareTraceCreate(action),
                Command::TraceFailedCreate {
                    error: VmError::MutableCallInStaticContext,
                    traces: Subtraces::Nothing,
                },
            ]
        );
    }
}

fn header(expiry: Option<u64>) -> Option<OasisContract> {
    Some(OasisContract { confidential: false, expiry, code: Arc::new(vec![1, 2]) })
}

#[test]
fn requested_expiry_must_not_have_passed() {
    let mut action = creation(ActionValue::Transfer(word(7)));
    action.oasis_contract = header(Some(999));
    let run = executive().create(action.clone(), None);
    let (run, commands) = create_on(run, Reply::Flag(Ok(false)));
    assert_eq!(run.stage, CreateStage::Done(Err(VmError::ContractExpired)));
    assert_eq!(
        commands,
        vec![
            Command::Checkpoint,
            Command::NewUnconfirmedSubstate,
            Command::PrepareTraceCreate(action.clone()),
            Command::TraceFailedCreate {
                error: VmError::ContractExpired,
                traces: Subtraces::Nothing,
            },
        ]
    );
    for (asked, expected) in [(Some(1_000), 1_000), (Some(5_000), 5_000), (None, 1_050)].iter() {
        action.oasis_contract = header(*asked);
        let run = executive().create(action.clone(), None);
        let (run, _) = create_on(run, Reply::Flag(Ok(false)));
        assert_eq!(run.stage, CreateStage::Balance { storage_expiry: *expected });
    }
}

/// What makes the contract with the balance and prepares for its code.
fn launch(action: &ActionParams, balance: u64) -> Vec<Command> {
    vec![
        Command::NewContract {
            address: account(RECEIVER),
            balance: word(balance),
            nonce_offset: word(1),
            storage_expiry: 1_050,
        },
        Command::PrepareTraceCreate(action.clone()),
        Command::PrepareTraceOutput,
        Command::Subtracer,
        Command::PrepareSubtrace(Arc::new(vec![1, 2])),
        Command::ExtSubtracer(account(RECEIVER)),
    ]
}

/// Where what init code returns is copied.
fn copy_to(record: Option<Vec<u8>>) -> OutputCopy {
    match record {
        Some(bytes) => OutputCopy::Record(bytes),
        None => OutputCopy::Prepared,
    }
}

/// A creation up to the execution of its code, on top of a balance of 5.
fn at_init_code(value: ActionValue, record: Option<Vec<u8>>) -> CreateRun {
    let action = creation(value);
    let run = executive().create(action.clone(), record.clone());
    let (run, commands) = create_on(run, Reply::Flag(Ok(false)));
    assert_eq!(commands, vec![Command::Checkpoint, Command::NewUnconfirmedSubstate]);
    assert_eq!(run.ask(), Some(Ask::Balance(account(RECEIVER))));
    let (run, commands) = create_on(run, Reply::Amount(Ok(word(5))));
    let (run, commands) = match value {
        ActionValue::Transfer(amount) => {
            assert_eq!(commands, vec![]);
            assert_eq!(
                run.ask(),
                Some(Ask::SubBalance {
                    address: account(SENDER),
                    value: amount,
                    cleanup: Cleanup::OfSubstate,
                })
            );
            let (run, commands) = create_on(run, Reply::Unit(Ok(())));
            assert_eq!(commands, launch(&action, 5 + amount.limbs[0]));
            (run, commands)
        }
        ActionValue::Apparent(_) => {
            assert_eq!(commands, launch(&action, 5));
            (run, commands)
        }
    };
    assert_eq!(commands.len(), 6);
    assert_eq!(
        run.ask(),
        Some(Ask::ExecVm(VmCall {
            info: executive().info,
            machine: executive().machine,
            params: action,
            depth: 0,
            static_flag: false,
            output: OutputPolicy::InitContract(copy_to(record)),
        }))
    );
    run
}

#[test]
fn creations_are_traced_and_enacted() {
    for value in [ActionValue::Transfer(word(7)), ActionValue::Apparent(word(7))].iter() {
        let run = at_init_code(*value, None);
        let (run, commands) = create_on(
            run,
            Reply::Vm { result: finished(300, true), output: OutputPolicy::InitContract(OutputCopy::Prepared) },
        );
        assert_eq!(run.stage, CreateStage::Done(finished(300, true)));
        assert_eq!(
            commands,
            vec![
                Command::DoneSubtrace,
                Command::TraceCreate {
                    gas_used: word(700),
                    output: TraceOutput::Prepared,
                    address: account(RECEIVER),
                    traces: Subtraces::Drained,
                },
                Command::DiscardCheckpoint,
                Command::AccrueSubstate,
            ]
        );
    }
    // Where the output is recorded, the trace shows the record.
    let run = at_init_code(ActionValue::Transfer(word(7)), Some(vec![]));
    let (run, commands) = create_on(
        run,
        Reply::Vm {
            result: finished(300, true),
            output: OutputPolicy::InitContract(OutputCopy::Record(vec![8, 9])),
        },
    );
    assert_eq!(run.output, Some(vec![8, 9]));
    assert_eq!(
        commands[1],
        Command::TraceCreate {
            gas_used: word(700),
            output: TraceOutput::Bytes(vec![8, 9]),
            address: account(RECEIVER),
            traces: Subtraces::Drained,
        }
    );
}

#[test]
fn failed_creations_are_reverted() {
    let cases = vec![
        (finished(300, false), VmError::Reverted),
        (Err(VmError::OutOfGas), VmError::OutOfGas),
    ];
    for (result, error) in cases {
        let run = at_init_code(ActionValue::Transfer(word(7)), None);
        let (_, commands) =
            create_on(run, Reply::Vm { result, output: OutputPolicy::InitContract(OutputCopy::Prepared) });
        assert_eq!(
            commands,
            vec![
                Command::DoneSubtrace,
                Command::TraceFailedCreate { error, traces: Subtraces::Drained },
                Command::RevertToCheckpoint,
            ]
        );
    }
}

#[test]
fn host_failures_end_a_creation() {
    let error = VmError::Internal("trie".to_string());
    let run = executive().create(creation(ActionValue::Transfer(word(7))), None);
    let (ended, commands) = create_on(run, Reply::Flag(Err(error.clone())));
    assert_eq!(ended.stage, CreateStage::Done(Err(error.clone())));
    assert_eq!(commands, vec![]);

    let run = executive().create(creation(ActionValue::Transfer(word(7))), None);
    let (run, _) = create_on(run, Reply::Flag(Ok(false)));
    let (ended, commands) = create_on(run, Reply::Amount(Err(error.clone())));
    assert_eq!(ended.stage, CreateStage::Done(Err(error.clone())));
    assert_eq!(commands, vec![]);

    let run = executive().create(creation(ActionValue::Transfer(word(7))), None);
    let (run, _) = create_on(run, Reply::Flag(Ok(false)));
    let (run, _) = create_on(run, Reply::Amount(Ok(word(5))));
    let (ended, commands) = create_on(run, Reply::Unit(Err(error.clone())));
    assert_eq!(ended.stage, CreateStage::Done(Err(error)));
    assert_eq!(commands, vec![]);
}

#[test]
fn creations_take_only_answers() {
    let run = executive().create(creation(ActionValue::Transfer(word(7))), None);
    assert!(!run.takes(&Reply::Unit(Ok(()))));
    // A clock that cannot show the default expiry.
    let mut late = executive();
    late.info.timestamp = u64::MAX - 49;
    let run = late.create(creation(ActionValue::Transfer(word(7))), None);
    assert!(!run.takes(&Reply::Flag(Ok(false))));
    assert!(run.takes(&Reply::Flag(Ok(true))));
    late.info.timestamp = u64::MAX - 50;
    let run = late.create(creation(ActionValue::Transfer(word(7))), None);
    assert!(run.takes(&Reply::Flag(Ok(false))));
    // A balance that cannot hold the value.
    let run = executive().create(creation(ActionValue::Transfer(word(7))), None);
    let (run, _) = create_on(run, Reply::Flag(Ok(false)));
    let (run, _) = create_on(run, Reply::Amount(Ok(largest())));
    assert!(!run.takes(&Reply::Unit(Ok(()))));
    // No code.
    let mut action = creation(ActionValue::Apparent(word(7)));
    action.code = None;
    let run = executive().create(action, None);
    let (run, _) = create_on(run, Reply::Flag(Ok(false)));
    assert!(!run.takes(&Reply::Amount(Ok(word(1)))));
    // More gas than there was, and a record out of nothing.
    let run = at_init_code(ActionValue::Transfer(word(7)), None);
    let none = || OutputPolicy::InitContract(OutputCopy::Prepared);
    assert!(!run.takes(&Reply::Vm { result: finished(1_001, true), output: none() }));
    assert!(run.takes(&Reply::Vm { result: finished(1_001, false), output: none() }));
    let some = OutputPolicy::InitContract(OutputCopy::Record(vec![]));
    assert!(!run.takes(&Reply::Vm { result: finished(1, true), output: some }));
}

// ---------------------------------------------------------------------------------------------
// Transactions

fn transaction(action: Action) -> SignedTransaction {
    SignedTransaction {
        sender: account(SENDER),
        unsigned: false,
        nonce: word(3),
        gas_price: word(2),
        gas: word(100_000),
        action,
        value: word(7),
        data: Arc::new(vec![1, 2, 3]),
    }
}

fn begin(executive: &Executive, t: &SignedTransaction) -> TransactRun {
    executive.transact(t, &TransactOptions::with_no_tracing())
}

/// Goes on with the replies, and returns what was asked and what was commanded.
fn play(run: TransactRun, replies: Vec<TransactReply>) -> (TransactRun, Vec<TransactAsk>, Vec<Command>) {
    let mut run = run;
    let mut asks = vec![];
    let mut all = vec![];
    for reply in replies {
        asks.push(run.ask().expect("a question"));
        let (later, mut commands) = transact_on(run, reply);
        run = later;
        all.append(&mut commands);
    }
    (run, asks, all)
}

fn amount(n: u64) -> TransactReply {
    TransactReply::Amount(Ok(word(n)))
}

fn done() -> TransactReply {
    TransactReply::Unit(Ok(()))
}

fn touched(accounts: Vec<Address>) -> TransactReply {
    TransactReply::Touched(Arc::new(accounts))
}

fn no_header() -> TransactReply {
    TransactReply::Oasis(Ok(None))
}

/// The error that the transaction ended with. Nothing was commanded.
fn rejection(run: TransactRun, replies: Vec<TransactReply>) -> ExecutionError {
    let (run, asks, commands) = play(run, replies);
    assert_eq!(commands, vec![]);
    for ask in asks {
        assert!(matches!(
            ask,
            TransactAsk::Nonce(_)
                | TransactAsk::OasisContract
                | TransactAsk::GasRequired { .. }
                | TransactAsk::Exists(_)
                | TransactAsk::Balance(_)
        ));
    }
    match run.conclude::<(), ()>(vec![], None) {
        Some(Err(error)) => error,
        _ => panic!("the transaction was not rejected"),
    }
}

#[test]
fn transactions_are_rejected() {
    let executive = executive();
    let t = transaction(Action::Create);
    assert_eq!(
        rejection(
            begin(&executive, &t),
            vec![amount(3), TransactReply::Oasis(Err("bad header".to_string()))]
        ),
        ExecutionError::TransactionMalformed("bad header".to_string())
    );
    assert_eq!(
        rejection(
            begin(&executive, &t),
            vec![amount(3), no_header(), TransactReply::Gas(100_001)]
        ),
        ExecutionError::NotEnoughBaseGas { required: word(100_001), got: word(100_000) }
    );
    assert_eq!(
        rejection(
            begin(&executive, &t),
            vec![amount(4), no_header(), TransactReply::Gas(21_000)]
        ),
        ExecutionError::InvalidNonce { expected: word(4), got: word(3) }
    );
    let mut full = executive;
    full.info.gas_used = word(900_001);
    assert_eq!(
        rejection(begin(&full, &t), vec![amount(3), no_header(), TransactReply::Gas(21_000)]),
        ExecutionError::BlockGasLimitReached {
            gas_limit: word(1_000_000),
            gas_used: word(900_001),
            gas: word(100_000),
        }
    );
    assert_eq!(
        rejection(
            begin(&executive, &t),
            vec![amount(3), no_header(), TransactReply::Gas(21_000), amount(200_006)]
        ),
        ExecutionError::NotEnoughCash { required: wide(200_007), got: wide(200_006) }
    );
}

#[test]
fn cost_may_need_a_wide_word() {
    let mut t = transaction(Action::Create);
    t.gas = word(u64::MAX);
    t.gas_price = largest();
    t.value = largest();
    let mut executive = executive();
    executive.info.gas_limit = largest();
    // The largest word times 2^64.
    let required =
        U512 { limbs: [0, u64::MAX, u64::MAX, u64::MAX, u64::MAX, 0, 0, 0] };
    assert_eq!(
        rejection(
            begin(&executive, &t),
            vec![
                amount(3),
                no_header(),
                TransactReply::Gas(21_000),
                TransactReply::Amount(Ok(largest())),
            ]
        ),
        ExecutionError::NotEnoughCash { required, got: largest().widen() }
    );
}

#[test]
fn sender_must_exist_where_dust_is_removed() {
    let mut executive = executive();
    executive.machine.schedule.kill_dust = CleanDustMode::BasicOnly;
    let t = transaction(Action::Create);
    let replies = || vec![amount(3), no_header(), TransactReply::Gas(21_000)];
    let (run, _, _) = play(begin(&executive, &t), replies());
    assert_eq!(run.ask(), Some(TransactAsk::Exists(account(SENDER))));
    assert_eq!(
        rejection(run, vec![TransactReply::Flag(Ok(false))]),
        ExecutionError::SenderMustExist
    );
    let (run, _, _) = play(begin(&executive, &t), replies());
    let (run, _, _) = play(run, vec![TransactReply::Flag(Ok(true))]);
    assert_eq!(run.ask(), Some(TransactAsk::Balance(account(SENDER))));
    // Neither without a signature nor without the check of the nonce.
    let mut unsigned = transaction(Action::Create);
    unsigned.unsigned = true;
    let (run, _, _) = play(begin(&executive, &unsigned), replies());
    assert_eq!(run.ask(), Some(TransactAsk::Balance(account(SENDER))));
    let options = TransactOptions::with_no_tracing().dont_check_nonce();
    let (run, _, _) = play(executive.transact(&t, &options), replies());
    assert_eq!(run.ask(), Some(TransactAsk::Balance(account(SENDER))));
}

#[test]
fn unchecked_nonce_leaves_the_other_checks() {
    let mut executive = executive();
    executive.machine.schedule.kill_dust = CleanDustMode::BasicOnly;
    let t = transaction(Action::Create);
    let options = TransactOptions::with_no_tracing().dont_check_nonce();
    let start = |executive: &Executive| executive.transact(&t, &options);
    // The nonce of the sender is four, and that of the transaction three.
    assert_eq!(
        rejection(start(&executive), vec![amount(4), no_header(), TransactReply::Gas(100_001)]),
        ExecutionError::NotEnoughBaseGas { required: word(100_001), got: word(100_000) }
    );
    let mut full = executive;
    full.info.gas_used = word(900_001);
    assert_eq!(
        rejection(start(&full), vec![amount(4), no_header(), TransactReply::Gas(21_000)]),
        ExecutionError::BlockGasLimitReached {
            gas_limit: word(1_000_000),
            gas_used: word(900_001),
            gas: word(100_000),
        }
    );
    assert_eq!(
        rejection(
            start(&executive),
            vec![amount(4), no_header(), TransactReply::Gas(21_000), amount(200_006)]
        ),
        ExecutionError::NotEnoughCash { required: wide(200_007), got: wide(200_006) }
    );
    let (run, asks, _) = play(
        start(&executive),
        vec![amount(4), no_header(), TransactReply::Gas(21_000), amount(200_007)],
    );
    assert_eq!(run.ask(), Some(TransactAsk::IncNonce(account(SENDER))));
    assert!(asks.iter().all(|ask| !matches!(ask, TransactAsk::Exists(_))));
}

/// A transaction whose gas is paid, on its way to its action.
fn paid(executive: &Executive, t: &SignedTransaction, contract: Option<OasisContract>) -> TransactRun {
    let confidential = contract.as_ref().map_or(false, |contract| contract.confidential);
    let (run, asks, commands) = play(
        begin(executive, t),
        vec![
            amount(3),
            TransactReply::Oasis(Ok(contract)),
            TransactReply::Gas(21_000),
            amount(200_007),
            done(),
            done(),
        ],
    );
    assert_eq!(
        asks,
        vec![
            TransactAsk::Nonce(account(SENDER)),
            TransactAsk::OasisContract,
            TransactAsk::GasRequired { confidential },
            TransactAsk::Balance(account(SENDER)),
            TransactAsk::IncNonce(account(SENDER)),
            TransactAsk::SubBalance {
                address: account(SENDER),
                value: word(200_000),
                cleanup: Cleanup::OfSubstate,
            },
        ]
    );
    assert_eq!(commands, vec![Command::NewSubstate]);
    run
}

#[test]
fn unsigned_transactions_increment_no_nonce() {
    let mut t = transaction(Action::Create);
    t.unsigned = true;
    let (run, asks, commands) = play(
        begin(&executive(), &t),
        vec![amount(3), no_header(), TransactReply::Gas(21_000), amount(200_007)],
    );
    assert_eq!(asks.len(), 4);
    assert_eq!(commands, vec![Command::NewSubstate]);
    assert_eq!(
        run.ask(),
        Some(TransactAsk::SubBalance {
                address: account(SENDER),
                value: word(200_000),
                cleanup: Cleanup::OfSubstate,
            })
    );
}

#[test]
fn transaction_creates_with_what_the_header_says() {
    let executive = executive();
    let t = transaction(Action::Create);
    let created = contract_address(
        CreateContractAddress::FromSenderAndNonce,
        &account(SENDER),
        &word(3),
        &[1, 2, 3],
    )
    .0;
    for (contract, code) in vec![
        (None, vec![1, 2, 3]),
        (
            Some(OasisContract {
                confidential: true,
                expiry: Some(7_000),
                code: Arc::new(vec![3]),
            }),
            vec![3],
        ),
    ] {
        let run = paid(&executive, &t, contract.clone());
        let action = match run.stage {
            TransactStage::Creating(run) => {
                assert_eq!(run.output, None);
                run.params
            }
            _ => panic!("no creation"),
        };
        assert_eq!(
            action,
            ActionParams {
                code_address: created,
                code_hash: None,
                address: created,
                sender: account(SENDER),
                origin: account(SENDER),
                origin_nonce: word(3),
                gas: word(79_000),
                gas_price: word(2),
                value: ActionValue::Transfer(word(7)),
                code: Some(Arc::new(code)),
                data: None,
                call_type: CallType::Creation,
                params_type: ParamsType::Embedded,
                oasis_contract: contract,
                aad: None,
            }
        );
    }
}

#[test]
fn created_address_follows_the_scheme() {
    let mut executive = executive();
    let scheme = CreateContractAddress::FromSenderAndCodeHash;
    executive.machine.create_address_scheme = scheme;
    let run = paid(&executive, &transaction(Action::Create), None);
    let (created, hash) = contract_address(scheme, &account(SENDER), &word(3), &[1, 2, 3]);
    match run.stage {
        TransactStage::Creating(run) => {
            assert_eq!(run.params.address, created);
            assert_eq!(run.params.code_hash, hash);
            assert!(hash.is_some());
        }
        _ => panic!("no creation"),
    }
}

#[test]
fn transaction_calls_the_code_of_the_account() {
    let executive = executive();
    let t = transaction(Action::Call(account(RECEIVER)));
    let code = Arc::new(vec![4, 4]);
    for (contract, expected) in vec![
        (None, Some(code.clone())),
        (header(None), Some(Arc::new(vec![1, 2]))),
    ] {
        let run = paid(&executive, &t, contract.clone());
        let (run, asks, commands) = play(
            run,
            vec![
                TransactReply::Code(Ok(Some(code.clone()))),
                TransactReply::Hash(Ok(H256 { bytes: [6; 32] })),
            ],
        );
        assert_eq!(
            asks,
            vec![TransactAsk::Code(account(RECEIVER)), TransactAsk::CodeHash(account(RECEIVER))]
        );
        assert_eq!(commands, vec![]);
        match run.stage {
            TransactStage::Calling(run) => {
                assert_eq!(run.output, BytesRef::Flexible(vec![]));
                assert_eq!(
                    run.params,
                    ActionParams {
                        code_address: account(RECEIVER),
                        code_hash: Some(H256 { bytes: [6; 32] }),
                        address: account(RECEIVER),
                        sender: account(SENDER),
                        origin: account(SENDER),
                        origin_nonce: word(3),
                        gas: word(79_000),
                        gas_price: word(2),
                        value: ActionValue::Transfer(word(7)),
                        code: expected,
                        data: Some(Arc::new(vec![1, 2, 3])),
                        call_type: CallType::Call,
                        params_type: ParamsType::Separate,
                        oasis_contract: contract,
                        aad: None,
                    }
                );
            }
            _ => panic!("no call"),
        }
    }
}

fn substate(refund: u64, suicides: Vec<Address>) -> SubstateSummary {
    SubstateSummary {
        sstore_clears_refund: word(refund),
        suicides,
        effects: Effects {
            logs: vec![LogEntry { address: account(9), topics: vec![], data: vec![1] }],
            contracts_created: vec![account(8)],
        },
    }
}

/// A transaction whose call has run code that ended with the result.
fn acted(executive: &Executive, result: Result<FinalizationResult, VmError>) -> TransactRun {
    let t = transaction(Action::Call(account(RECEIVER)));
    let output = OutputPolicy::Return(BytesRef::Flexible(vec![8]), OutputCopy::Prepared);
    let (run, _, _) = play(
        paid(executive, &t, None),
        vec![
            TransactReply::Code(Ok(Some(Arc::new(vec![4])))),
            TransactReply::Hash(Ok(H256 { bytes: [6; 32] })),
            TransactReply::Act(Reply::Time(Ok(2_000))),
            TransactReply::Act(Reply::Unit(Ok(()))),
            TransactReply::Act(Reply::Builtin(None)),
            TransactReply::Act(Reply::Vm { result, output }),
        ],
    );
    assert_eq!(run.ask(), Some(TransactAsk::Substate));
    run
}

fn receipt(run: TransactRun) -> Result<Executed<u8, u8>, ExecutionError> {
    run.conclude(vec![1], Some(2)).expect("the transaction is over")
}

#[test]
fn transaction_is_settled() {
    let mut executive = executive();
    executive.machine.schedule.kill_dust = CleanDustMode::Off;
    let run = acted(&executive, finished(40_000, true));
    let (run, asks, commands) = play(
        run,
        vec![
            TransactReply::Substate(substate(1_000, vec![account(7), account(6)])),
            done(),
            done(),
            touched(vec![account(SENDER), account(5)]),
            done(),
        ],
    );
    // The action used 60000 of 100000, so at most 30000 of the 49000 earned are refunded.
    assert_eq!(
        asks,
        vec![
            TransactAsk::Substate,
            TransactAsk::AddBalance {
                address: account(SENDER),
                value: word(140_000),
                cleanup: Cleanup::NoEmpty,
            },
            TransactAsk::AddBalance {
                address: account(AUTHOR),
                value: word(60_000),
                cleanup: Cleanup::OfSubstate,
            },
            TransactAsk::Touched,
            TransactAsk::KillGarbage {
                touched: Arc::new(vec![account(SENDER), account(5)]),
                remove_empty: true,
                min_balance: None,
                kill_contracts: false,
            },
        ]
    );
    assert_eq!(
        commands,
        vec![Command::KillAccount(account(7)), Command::KillAccount(account(6))]
    );
    assert_eq!(
        receipt(run),
        Ok(Executed {
            exception: None,
            gas: word(100_000),
            gas_used: word(30_000),
            refunded: word(30_000),
            cumulative_gas_used: word(30_500),
            logs: vec![LogEntry { address: account(9), topics: vec![], data: vec![1] }],
            contracts_created: vec![account(8)],
            output: vec![8],
            trace: vec![1],
            vm_trace: Some(2),
            state_diff: None,
        })
    );
}

#[test]
fn dust_is_removed() {
    for (mode, contracts) in
        [(CleanDustMode::BasicOnly, false), (CleanDustMode::WithCodeAndStorage, true)].iter()
    {
        let mut run = acted(&executive(), finished(40_000, true));
        run.executive.machine.schedule.kill_dust = *mode;
        match &mut run.stage {
            TransactStage::Finalizing(last) => {
                last.executive.machine.schedule.kill_dust = *mode;
            }
            _ => panic!("no finalization"),
        }
        let (run, _, _) = play(
            run,
            vec![
                TransactReply::Substate(substate(0, vec![])),
                done(),
                done(),
                touched(vec![account(AUTHOR)]),
            ],
        );
        assert_eq!(
            run.ask(),
            Some(TransactAsk::KillGarbage {
                touched: Arc::new(vec![account(AUTHOR)]),
                remove_empty: true,
                min_balance: Some(word(42_000)),
                kill_contracts: *contracts,
            })
        );
    }
}

#[test]
fn failed_action_uses_all_gas() {
    let run = acted(&executive(), Err(VmError::OutOfGas));
    let (run, asks, _) = play(
        run,
        vec![
            TransactReply::Substate(substate(1_000, vec![])),
            done(),
            done(),
            touched(vec![]),
            done(),
        ],
    );
    // What was earned before is still paid out.
    assert_eq!(
        asks[1],
        TransactAsk::AddBalance {
            address: account(SENDER),
            value: word(2_000),
            cleanup: Cleanup::NoEmpty,
        }
    );
    assert_eq!(
        receipt(run),
        Ok(Executed {
            exception: Some(VmError::OutOfGas),
            gas: word(100_000),
            gas_used: word(100_000),
            refunded: word(0),
            cumulative_gas_used: word(100_500),
            logs: vec![],
            contracts_created: vec![],
            output: vec![8],
            trace: vec![1],
            vm_trace: Some(2),
            state_diff: None,
        })
    );
}

#[test]
fn reverted_action_keeps_its_gas() {
    let run = acted(&executive(), finished(40_000, false));
    let (run, _, _) = play(
        run,
        vec![TransactReply::Substate(substate(0, vec![])), done(), done(), touched(vec![]), done()],
    );
    let executed = receipt(run).unwrap();
    assert_eq!(executed.exception, Some(VmError::Reverted));
    assert_eq!(executed.gas_used, word(60_000));
    assert_eq!(executed.refunded, word(0));
}

#[test]
fn internal_failure_is_no_receipt() {
    let run = acted(&executive(), Err(VmError::Internal("io".to_string())));
    let (run, _, _) = play(
        run,
        vec![TransactReply::Substate(substate(0, vec![])), done(), done(), touched(vec![]), done()],
    );
    assert_eq!(receipt(run), Err(ExecutionError::Internal("io".to_string())));
}

#[test]
fn host_failures_end_a_transaction() {
    let error = || "trie".to_string();
    let failed =
        |run: TransactRun| assert_eq!(receipt(run), Err(ExecutionError::Internal(error())));
    let executive = executive();
    let t = transaction(Action::Call(account(RECEIVER)));
    let checks =
        || vec![amount(3), no_header(), TransactReply::Gas(21_000), amount(200_007), done(), done()];
    let bad_amount = || TransactReply::Amount(Err(error()));
    let bad_unit = || TransactReply::Unit(Err(error()));

    failed(play(begin(&executive, &t), vec![bad_amount()]).0);
    for (count, bad) in vec![(3, bad_amount()), (4, bad_unit()), (5, bad_unit())] {
        let mut replies = checks();
        replies.truncate(count);
        replies.push(bad);
        failed(play(begin(&executive, &t), replies).0);
    }
    failed(play(paid(&executive, &t, None), vec![TransactReply::Code(Err(error()))]).0);
    failed(
        play(
            paid(&executive, &t, None),
            vec![TransactReply::Code(Ok(None)), TransactReply::Hash(Err(error()))],
        )
        .0,
    );
    for count in 0..3 {
        let mut replies = vec![TransactReply::Substate(substate(0, vec![]))];
        for _ in 0..count {
            replies.push(done());
        }
        if count == 2 {
            replies.push(touched(vec![account(5)]));
        }
        replies.push(bad_unit());
        failed(play(acted(&executive, finished(1, true)), replies).0);
    }
    let mut dusty = executive;
    dusty.machine.schedule.kill_dust = CleanDustMode::BasicOnly;
    failed(
        play(
            begin(&dusty, &t),
            vec![
                amount(3),
                no_header(),
                TransactReply::Gas(21_000),
                TransactReply::Flag(Err(error())),
            ],
        )
        .0,
    );
}

#[test]
fn static_transaction_call_is_over_at_once() {
    let mut executive = executive();
    executive.static_flag = true;
    let t = transaction(Action::Call(account(RECEIVER)));
    let (run, _, commands) = play(
        paid(&executive, &t, None),
        vec![TransactReply::Code(Ok(None)), TransactReply::Hash(Ok(H256 { bytes: [6; 32] }))],
    );
    assert_eq!(commands, vec![]);
    assert_eq!(run.ask(), Some(TransactAsk::Substate));
    let (run, _, _) = play(
        run,
        vec![TransactReply::Substate(substate(0, vec![])), done(), done(), touched(vec![]), done()],
    );
    assert_eq!(receipt(run).unwrap().exception, Some(VmError::MutableCallInStaticContext));
}

#[test]
fn creation_without_record_has_no_output() {
    for record in [false, true].iter() {
        let t = transaction(Action::Create);
        let options = TransactOptions::with_no_tracing();
        let options =
            if *record { options.save_output_from_contract() } else { options };
        let written = if *record { Some(vec![8, 9]) } else { None };
        let (run, _, _) = play(
            executive().transact(&t, &options),
            vec![
                amount(3),
                no_header(),
                TransactReply::Gas(21_000),
                amount(200_007),
                done(),
                done(),
                TransactReply::Act(Reply::Flag(Ok(false))),
                TransactReply::Act(Reply::Amount(Ok(word(0)))),
                TransactReply::Act(Reply::Unit(Ok(()))),
                TransactReply::Act(Reply::Vm {
                    result: finished(1, true),
                    output: OutputPolicy::InitContract(copy_to(written)),
                }),
                TransactReply::Substate(substate(0, vec![])),
                done(),
                done(),
                touched(vec![]),
                done(),
            ],
        );
        let expected = if *record { vec![8, 9] } else { vec![] };
        assert_eq!(receipt(run).unwrap().output, expected);
    }
}

#[test]
fn virtual_sender_gets_what_is_missing() {
    let t = transaction(Action::Create);
    let options = TransactOptions::with_no_tracing();
    let start = || executive().transact_virtual(&t, &options);
    assert_eq!(start().ask(), Some(TransactAsk::Balance(account(SENDER))));
    let (run, _, _) = play(start(), vec![amount(200_006)]);
    assert_eq!(
        run.ask(),
        Some(TransactAsk::AddBalance {
            address: account(SENDER),
            value: word(1),
            cleanup: Cleanup::NoEmpty,
        })
    );
    let (run, _, _) = play(run, vec![done()]);
    assert_eq!(run, begin(&executive(), &t));
    let (run, _, _) = play(start(), vec![amount(200_007)]);
    assert_eq!(run, begin(&executive(), &t));
    let error = || "trie".to_string();
    let (run, _, _) = play(start(), vec![TransactReply::Amount(Err(error()))]);
    assert_eq!(receipt(run), Err(ExecutionError::Internal(error())));
    let (run, _, _) = play(start(), vec![amount(0), TransactReply::Unit(Err(error()))]);
    assert_eq!(receipt(run), Err(ExecutionError::Internal(error())));
}

#[test]
fn needed_balance_saturates() {
    let mut t = transaction(Action::Create);
    t.gas = largest();
    t.gas_price = word(2);
    let options = TransactOptions::with_no_tracing();
    let (run, _, _) = play(executive().transact_virtual(&t, &options), vec![amount(1)]);
    let missing = U256 { limbs: [u64::MAX - 1, u64::MAX, u64::MAX, u64::MAX] };
    assert_eq!(run.stage, TransactStage::TopUp { amount: missing });
    // The product fits, the sum does not.
    t.gas_price = word(1);
    let (run, _, _) = play(executive().transact_virtual(&t, &options), vec![amount(1)]);
    assert_eq!(run.stage, TransactStage::TopUp { amount: missing });
}

#[test]
fn transactions_take_only_answers() {
    let mut t = transaction(Action::Create);
    t.gas = largest();
    let replies = || vec![amount(3), no_header()];
    let (run, _, _) = play(begin(&executive(), &t), replies());
    // The gas of the block would not fit a word.
    assert!(!run.takes(&TransactReply::Gas(21_000)));
    // It is not looked at where the nonce is wrong.
    let (run, _, _) = play(begin(&executive(), &t), vec![amount(4), no_header()]);
    assert!(run.takes(&TransactReply::Gas(21_000)));
    assert!(!run.takes(&amount(1)));

    let run = acted(&executive(), finished(100_001, false));
    assert!(!run.takes(&TransactReply::Substate(substate(0, vec![]))));
    let run = acted(&executive(), finished(100_000, false));
    assert!(!run.takes(&TransactReply::Substate(substate(0, vec![account(1), account(1)]))));
    assert!(run.takes(&TransactReply::Substate(substate(0, vec![account(1), account(2)]))));
    let mut too_much = substate(0, vec![account(1)]);
    too_much.sstore_clears_refund = largest();
    assert!(!run.takes(&TransactReply::Substate(too_much)));
    // The touched accounts are a set, and they are asked for when the fees are paid.
    assert!(!run.takes(&touched(vec![])));
    let (run, _, _) =
        play(run, vec![TransactReply::Substate(substate(0, vec![])), done(), done()]);
    assert_eq!(run.ask(), Some(TransactAsk::Touched));
    assert!(!run.takes(&done()));
    assert!(!run.takes(&touched(vec![account(1), account(2), account(1)])));
    assert!(run.takes(&touched(vec![account(1), account(2)])));
    // A transaction on its way has no receipt.
    assert!(run.conclude::<u8, u8>(vec![], None).is_none());
}

#[test]
fn finalization_can_be_run_alone() {
    let t = transaction(Action::Create);
    let run = executive().finalize(&t, finished(99_999, true), vec![3]);
    assert_eq!(run.ask(), Some(TransactAsk::Substate));
    let (run, _) = run.resume(TransactReply::Substate(substate(5, vec![])));
    let (run, _) = run.resume(done());
    let (run, _) = run.resume(done());
    let (run, _) = run.resume(touched(vec![]));
    let (run, _) = run.resume(done());
    match run.stage {
        FinalizeStage::Done(Ok(outcome)) => {
            assert_eq!(outcome.gas_used, word(1));
            assert_eq!(outcome.refunded, word(0));
            assert_eq!(outcome.output, vec![3]);
        }
        _ => panic!("no receipt"),
    }
}

#[test]
fn longest_transaction_takes_nineteen_replies() {
    let mut executive = executive();
    executive.machine.schedule.kill_dust = CleanDustMode::WithCodeAndStorage;
    let t = transaction(Action::Call(account(RECEIVER)));
    let replies = vec![
        amount(3),
        no_header(),
        TransactReply::Gas(21_000),
        TransactReply::Flag(Ok(true)),
        amount(200_007),
        done(),
        done(),
        TransactReply::Code(Ok(Some(Arc::new(vec![4])))),
        TransactReply::Hash(Ok(H256 { bytes: [6; 32] })),
        TransactReply::Act(Reply::Time(Ok(1_000))),
        TransactReply::Act(Reply::Unit(Ok(()))),
        TransactReply::Act(Reply::Builtin(Some(true))),
        TransactReply::Act(Reply::Cost(word(9_000))),
        TransactReply::Act(Reply::BuiltinOutput(Ok(vec![5]))),
        TransactReply::Substate(substate(0, vec![])),
        done(),
        done(),
        touched(vec![account(RECEIVER)]),
        done(),
    ];
    assert_eq!(replies.len(), 19);
    let (run, asks, commands) = play(begin(&executive, &t), replies);
    assert_eq!(run.ask(), None);
    let executed = receipt(run).unwrap();
    assert_eq!(executed.gas_used, word(30_000));
    assert_eq!(executed.output, vec![5]);
    // What was paid for gas is what was given back and paid to the author.
    let mut charged = 0;
    let mut credited = 0;
    let mut increments = 0;
    for ask in asks {
        match ask {
            TransactAsk::SubBalance { value, .. } => charged += value.limbs[0],
            TransactAsk::AddBalance { value, .. } => credited += value.limbs[0],
            TransactAsk::IncNonce(_) => increments += 1,
            _ => {}
        }
    }
    assert_eq!((charged, credited, increments), (200_000, 200_000, 1));
    // The changes are kept, once.
    let count = |wanted: Command| commands.iter().filter(|command| **command == wanted).count();
    assert_eq!(commands[0], Command::NewSubstate);
    assert_eq!(count(Command::Checkpoint), 1);
    assert_eq!(count(Command::DiscardCheckpoint), 1);
    assert_eq!(count(Command::RevertToCheckpoint), 0);
}
