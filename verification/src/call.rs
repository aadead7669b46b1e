//! The run of a call.
use crate::bytes::{copy_bytes, BytesRef};
use crate::executive::{enactment, Executive};
use crate::history::Run;
use crate::protocol::{
    commands_view, emit, emit_all, no_commands, Ask, Cleanup, Command, OutputCopy, OutputPolicy,
    Reply, Subtraces, TraceOutput,
};
use crate::uint::{group_words, u256, U256};
use crate::vm::{
    result_view, ActionParams, ActionResult, ActionValue, CallType, FinalizationResult, ReturnData,
    VmError,
};
use vstd::prelude::*;

verus! {

broadcast use group_words;

/// What a call waits for.
#[derive(Debug, PartialEq, Eq)]
pub enum CallStage<B = Vec<u8>> {
    /// The expiry of the contract's storage.
    Expiry,
    /// The transfer of the value.
    Transfer,
    /// Whether the code is built in.
    Builtin,
    /// The cost of the built-in contract.
    BuiltinCost,
    /// The built-in contract.
    BuiltinRun { cost: U256 },
    /// The code.
    Vm,
    /// Nothing: the call is over.
    Done(ActionResult<B>),
}

/// A call on its way.
#[derive(Debug, PartialEq, Eq)]
pub struct CallRun<B = Vec<u8>> {
    /// The executive.
    pub executive: Executive,
    /// What is called.
    pub params: ActionParams,
    /// The output so far.
    pub output: BytesRef<B>,
    /// What the call waits for.
    pub stage: CallStage<B>,
}

impl View for CallStage {
    type V = CallStage<Seq<u8>>;

    open spec fn view(&self) -> CallStage<Seq<u8>> {
        match self {
            CallStage::Expiry => CallStage::Expiry,
            CallStage::Transfer => CallStage::Transfer,
            CallStage::Builtin => CallStage::Builtin,
            CallStage::BuiltinCost => CallStage::BuiltinCost,
            CallStage::BuiltinRun { cost } => CallStage::BuiltinRun { cost: *cost },
            CallStage::Vm => CallStage::Vm,
            CallStage::Done(result) => CallStage::Done(result_view(*result)),
        }
    }
}

impl View for CallRun {
    type V = CallRun<Seq<u8>>;

    open spec fn view(&self) -> CallRun<Seq<u8>> {
        CallRun {
            executive: self.executive,
            params: self.params,
            output: self.output@,
            stage: self.stage@,
        }
    }
}

/// The input of an action: empty where there is none.
pub open spec fn input_of(params: ActionParams) -> Seq<u8> {
    match params.data {
        Some(data) => data@,
        None => Seq::empty(),
    }
}

impl CallRun<Seq<u8>> {
    /// The same call, waiting for something else.
    pub open spec fn at(self, stage: CallStage<Seq<u8>>) -> Self {
        CallRun { stage, ..self }
    }

    /// The same call, over.
    pub open spec fn ended(self, result: ActionResult<Seq<u8>>) -> Self {
        self.at(CallStage::Done(result))
    }

    /// What the stages rely on: a built-in contract runs only where its cost is covered, and code
    /// runs only where there is code.
    pub open spec fn wf(self) -> bool {
        match self.stage {
            CallStage::BuiltinRun { cost } => cost@ <= self.params.gas@,
            CallStage::Vm => self.params.code is Some,
            _ => true,
        }
    }

    /// The call once its checkpoint is taken: value moves first, where it moves.
    pub open spec fn after_checkpoint(self) -> Self {
        match self.params.value {
            ActionValue::Transfer(_) => self.at(CallStage::Transfer),
            ActionValue::Apparent(_) => self.at(CallStage::Builtin),
        }
    }

    /// The start of a call. Where the state must stay as it is, no value moves; code is executed
    /// only while its storage has not expired.
    pub open spec fn begin(
        executive: Executive,
        params: ActionParams,
        output: BytesRef<Seq<u8>>,
    ) -> (Self, Seq<Command<Seq<u8>>>) {
        let run = CallRun { executive, params, output, stage: CallStage::Expiry };
        if executive.refuses_call(params) {
            (run.ended(Err(VmError::MutableCallInStaticContext)), seq![])
        } else if params.code matches Some(code) && code@.len() > 0 {
            (run, seq![])
        } else {
            (run.after_checkpoint(), seq![Command::Checkpoint])
        }
    }

    /// The call when the expiry is known.
    pub open spec fn after_expiry(self, time: Result<u64, VmError>) -> (
        Self,
        Seq<Command<Seq<u8>>>,
    ) {
        match time {
            Err(error) => (self.ended(Err(error)), seq![]),
            Ok(expiry) => if self.executive.info.timestamp > expiry {
                (
                    self.ended(Err(VmError::ContractExpired)),
                    seq![
                        Command::PrepareTraceCall(self.params),
                        Command::TraceFailedCall {
                            error: VmError::ContractExpired,
                            traces: Subtraces::Nothing,
                        },
                    ],
                )
            } else {
                (self.after_checkpoint(), seq![Command::Checkpoint])
            },
        }
    }

    /// The call when the value has moved.
    pub open spec fn after_transfer(self, done: Result<(), VmError>) -> (
        Self,
        Seq<Command<Seq<u8>>>,
    ) {
        match done {
            Err(error) => (self.ended(Err(error)), seq![]),
            Ok(_) => (self.at(CallStage::Builtin), seq![]),
        }
    }

    /// The call when it is known whether the code is built in. Without any code the call is over.
    pub open spec fn after_builtin(self, builtin: bool) -> (Self, Seq<Command<Seq<u8>>>) {
        if builtin {
            (self.at(CallStage::BuiltinCost), seq![Command::PrepareTraceCall(self.params)])
        } else {
            let prepared = seq![
                Command::PrepareTraceCall(self.params),
                Command::PrepareTraceOutput,
                Command::Subtracer,
            ];
            match self.params.code {
                Some(code) => (
                    self.at(CallStage::Vm),
                    prepared + seq![
                        Command::NewUnconfirmedSubstate,
                        Command::PrepareSubtrace(code),
                        Command::ExtSubtracer(self.params.address),
                    ],
                ),
                None => (
                    self.ended(
                        Ok(
                            FinalizationResult {
                                gas_left: self.params.gas,
                                return_data: ReturnData {
                                    mem: Seq::empty(),
                                    offset: 0,
                                    size: 0,
                                },
                                apply_state: true,
                            },
                        ),
                    ),
                    prepared + seq![
                        Command::DiscardCheckpoint,
                        Command::TraceCall {
                            gas_used: u256(0),
                            output: TraceOutput::Prepared,
                            traces: Subtraces::Nothing,
                        },
                    ],
                ),
            }
        }
    }

    /// The call when the cost of the built-in contract is known: without enough gas it fails.
    pub open spec fn after_cost(self, cost: U256) -> (Self, Seq<Command<Seq<u8>>>) {
        if cost@ <= self.params.gas@ {
            (self.at(CallStage::BuiltinRun { cost }), seq![])
        } else {
            (
                self.ended(Err(VmError::OutOfGas)),
                seq![
                    Command::RevertToCheckpoint,
                    Command::TraceFailedCall {
                        error: VmError::OutOfGas,
                        traces: Subtraces::Nothing,
                    },
                ],
            )
        }
    }

    /// The call when the built-in contract has run. Only calls at the top and calls that move
    /// value are traced.
    pub open spec fn after_builtin_run(self, cost: U256, written: Result<Seq<u8>, String>) -> (
        Self,
        Seq<Command<Seq<u8>>>,
    ) {
        match written {
            Err(message) => (
                self.ended(Err(VmError::BuiltIn(message))),
                seq![
                    Command::RevertToCheckpoint,
                    Command::TraceFailedCall {
                        error: VmError::BuiltIn(message),
                        traces: Subtraces::Nothing,
                    },
                ],
            ),
            Ok(data) => {
                let output = self.output.written(0, data);
                let run = CallRun { output, ..self };
                let traced = self.executive.depth == 0 || self.params.value.moves_value();
                (
                    run.ended(
                        Ok(
                            FinalizationResult {
                                gas_left: u256((self.params.gas@ - cost@) as nat),
                                return_data: ReturnData {
                                    mem: data,
                                    offset: 0,
                                    size: data.len() as usize,
                                },
                                apply_state: true,
                            },
                        ),
                    ),
                    if traced {
                        seq![
                            Command::DiscardCheckpoint,
                            Command::PrepareTraceOutput,
                            Command::TraceCall {
                                gas_used: cost,
                                output: TraceOutput::Bytes(output.content()),
                                traces: Subtraces::Nothing,
                            },
                        ]
                    } else {
                        seq![Command::DiscardCheckpoint]
                    },
                )
            },
        }
    }

    /// The trace of a call whose code has run.
    pub open spec fn trace_of(self, result: ActionResult<Seq<u8>>) -> Command<Seq<u8>> {
        match result {
            Ok(finished) => if finished.apply_state {
                Command::TraceCall {
                    gas_used: u256((self.params.gas@ - finished.gas_left@) as nat),
                    output: TraceOutput::Prepared,
                    traces: Subtraces::Drained,
                }
            } else {
                Command::TraceFailedCall { error: VmError::Reverted, traces: Subtraces::Drained }
            },
            Err(error) => Command::TraceFailedCall { error, traces: Subtraces::Drained },
        }
    }

    /// The call when its code has run: it is traced, and its changes are committed or taken back.
    pub open spec fn after_vm(self, result: ActionResult<Seq<u8>>, output: BytesRef<Seq<u8>>) -> (
        Self,
        Seq<Command<Seq<u8>>>,
    ) {
        (
            CallRun { output, ..self }.ended(result),
            seq![Command::DoneSubtrace, self.trace_of(result)] + enactment(result),
        )
    }
}

impl Run for CallRun<Seq<u8>> {
    type Ask = Ask<Seq<u8>>;

    type Reply = Reply<Seq<u8>>;

    /// What the call asks of the host, until it is over.
    open spec fn asks(self) -> Option<Ask<Seq<u8>>> {
        match self.stage {
            CallStage::Expiry => Some(Ask::StorageExpiry(self.params.code_address)),
            CallStage::Transfer => Some(
                Ask::TransferBalance {
                    from: self.params.sender,
                    to: self.params.address,
                    value: self.params.value.amount(),
                    cleanup: Cleanup::OfSubstate,
                },
            ),
            CallStage::Builtin => Some(
                Ask::Builtin {
                    address: self.params.code_address,
                    number: self.executive.info.number,
                },
            ),
            CallStage::BuiltinCost => Some(Ask::BuiltinCost { data: input_of(self.params) }),
            CallStage::BuiltinRun { .. } => Some(Ask::BuiltinExecute { data: input_of(self.params) }),
            CallStage::Vm => Some(
                Ask::ExecVm(
                    self.executive.vm_call(
                        self.params,
                        OutputPolicy::Return(self.output, OutputCopy::Prepared),
                    ),
                ),
            ),
            CallStage::Done(_) => None,
        }
    }

    /// The replies that answer what the call asks. A machine offers active built-in contracts
    /// only, and code that succeeds leaves no more gas than it was given.
    open spec fn accepts(self, reply: Reply<Seq<u8>>) -> bool {
        match (self.stage, reply) {
            (CallStage::Expiry, Reply::Time(_)) => true,
            (CallStage::Transfer, Reply::Unit(_)) => true,
            (CallStage::Builtin, Reply::Builtin(found)) => found != Some(false),
            (CallStage::BuiltinCost, Reply::Cost(_)) => true,
            (CallStage::BuiltinRun { .. }, Reply::BuiltinOutput(_)) => true,
            (CallStage::Vm, Reply::Vm { result, output }) => {
                &&& OutputPolicy::Return(self.output, OutputCopy::Prepared).same_shape(
                    output,
                )
                &&& result matches Ok(finished) ==> (finished.apply_state ==> finished.gas_left@
                    <= self.params.gas@)
            },
            _ => false,
        }
    }

    /// The call after a reply, and what the host has to do.
    open spec fn next(self, reply: Reply<Seq<u8>>) -> (Self, Seq<Command<Seq<u8>>>) {
        match (self.stage, reply) {
            (CallStage::Expiry, Reply::Time(time)) => self.after_expiry(time),
            (CallStage::Transfer, Reply::Unit(done)) => self.after_transfer(done),
            (CallStage::Builtin, Reply::Builtin(found)) => self.after_builtin(found is Some),
            (CallStage::BuiltinCost, Reply::Cost(cost)) => self.after_cost(cost),
            (CallStage::BuiltinRun { cost }, Reply::BuiltinOutput(written)) => {
                self.after_builtin_run(cost, written)
            },
            (CallStage::Vm, Reply::Vm { result, output: OutputPolicy::Return(output, _) }) => {
                self.after_vm(result, output)
            },
            _ => (self, seq![]),
        }
    }
}

/// The input of an action, as bytes of its own.
fn copy_input(params: &ActionParams) -> (r: Vec<u8>)
    ensures
        r@ == input_of(*params),
{
    match &params.data {
        Some(data) => copy_bytes(data),
        None => Vec::new(),
    }
}

impl CallRun {
    /// Starts a call.
    pub(crate) fn start(executive: Executive, params: ActionParams, output: BytesRef) -> (r: (
        CallRun,
        Vec<Command>,
    ))
        ensures
            (r.0@, commands_view(r.1)) == CallRun::begin(executive, params, output@),
            r.0@.wf(),
    {
        let mut commands = no_commands();
        let value = params.value.value();
        let restricted = params.call_type == CallType::StaticCall || (params.call_type
            == CallType::Call && executive.static_flag);
        let stage = if restricted && !value.is_zero() {
            CallStage::Done(Err(VmError::MutableCallInStaticContext))
        } else {
            let has_code = match &params.code {
                Some(code) => code.len() > 0,
                None => false,
            };
            if has_code {
                CallStage::Expiry
            } else {
                emit(&mut commands, Command::Checkpoint);
                Self::stage_after_checkpoint(&params)
            }
        };
        (CallRun { executive, params, output, stage }, commands)
    }

    /// What a call waits for once its checkpoint is taken.
    fn stage_after_checkpoint(params: &ActionParams) -> (r: CallStage)
        ensures
            r@ == (match params.value {
                ActionValue::Transfer(_) => CallStage::<Seq<u8>>::Transfer,
                ActionValue::Apparent(_) => CallStage::<Seq<u8>>::Builtin,
            }),
    {
        match params.value {
            ActionValue::Transfer(_) => CallStage::Transfer,
            ActionValue::Apparent(_) => CallStage::Builtin,
        }
    }

    /// What the call asks of the host, until it is over.
    pub fn ask(&self) -> (r: Option<Ask>)
        ensures
            r is Some <==> self@.asks() is Some,
            r matches Some(ask) ==> self@.asks() == Some(ask@),
    {
        match &self.stage {
            CallStage::Expiry => Some(Ask::StorageExpiry(self.params.code_address)),
            CallStage::Transfer => Some(
                Ask::TransferBalance {
                    from: self.params.sender,
                    to: self.params.address,
                    value: self.params.value.value(),
                    cleanup: Cleanup::OfSubstate,
                },
            ),
            CallStage::Builtin => Some(
                Ask::Builtin {
                    address: self.params.code_address,
                    number: self.executive.info.number,
                },
            ),
            CallStage::BuiltinCost => Some(Ask::BuiltinCost { data: copy_input(&self.params) }),
            CallStage::BuiltinRun { .. } => Some(
                Ask::BuiltinExecute { data: copy_input(&self.params) },
            ),
            CallStage::Vm => {
                let output = OutputPolicy::Return(self.output.duplicate(), OutputCopy::Prepared);
                Some(Ask::ExecVm(self.executive.exec_vm(self.params.clone(), output)))
            },
            CallStage::Done(_) => None,
        }
    }

    /// Whether the reply answers what the call asks, so that the call can be resumed with it.
    pub fn takes(&self, reply: &Reply) -> (r: bool)
        ensures
            r == self@.accepts(reply@),
    {
        match (&self.stage, reply) {
            (CallStage::Expiry, Reply::Time(_)) => true,
            (CallStage::Transfer, Reply::Unit(_)) => true,
            (CallStage::Builtin, Reply::Builtin(found)) => match found {
                Some(active) => *active,
                None => true,
            },
            (CallStage::BuiltinCost, Reply::Cost(_)) => true,
            (CallStage::BuiltinRun { .. }, Reply::BuiltinOutput(_)) => true,
            (CallStage::Vm, Reply::Vm { result, output: OutputPolicy::Return(written, copy) }) => {
                let covered = match result {
                    Ok(finished) => !finished.apply_state || !self.params.gas.less_than(
                        &finished.gas_left,
                    ),
                    Err(_) => true,
                };
                self.output.can_become(written) && !copy.is_record() && covered
            },
            _ => false,
        }
    }

    /// Resumes the call with what the host answered.
    pub fn resume(self, reply: Reply) -> (r: (CallRun, Vec<Command>))
        requires
            self@.wf(),
            self@.accepts(reply@),
        ensures
            (r.0@, commands_view(r.1)) == self@.next(reply@),
            r.0@.wf(),
    {
        let ghost before = self@;
        let CallRun { executive, params, output, stage } = self;
        let mut commands = no_commands();
        let mut output = output;
        let stage = match (stage, reply) {
            (CallStage::Expiry, Reply::Time(Err(error))) => CallStage::Done(Err(error)),
            (CallStage::Expiry, Reply::Time(Ok(expiry))) => {
                if executive.info.timestamp > expiry {
                    emit(&mut commands, Command::PrepareTraceCall(params.clone()));
                    emit(
                        &mut commands,
                        Command::TraceFailedCall {
                            error: VmError::ContractExpired,
                            traces: Subtraces::Nothing,
                        },
                    );
                    CallStage::Done(Err(VmError::ContractExpired))
                } else {
                    emit(&mut commands, Command::Checkpoint);
                    Self::stage_after_checkpoint(&params)
                }
            },
            (CallStage::Transfer, Reply::Unit(Err(error))) => CallStage::Done(Err(error)),
            (CallStage::Transfer, Reply::Unit(Ok(_))) => CallStage::Builtin,
            (CallStage::Builtin, Reply::Builtin(Some(_))) => {
                emit(&mut commands, Command::PrepareTraceCall(params.clone()));
                CallStage::BuiltinCost
            },
            (CallStage::Builtin, Reply::Builtin(None)) => {
                emit(&mut commands, Command::PrepareTraceCall(params.clone()));
                emit(&mut commands, Command::PrepareTraceOutput);
                emit(&mut commands, Command::Subtracer);
                match &params.code {
                    Some(code) => {
                        emit(&mut commands, Command::NewUnconfirmedSubstate);
                        emit(&mut commands, Command::PrepareSubtrace(code.clone()));
                        emit(&mut commands, Command::ExtSubtracer(params.address));
                        CallStage::Vm
                    },
                    None => {
                        emit(&mut commands, Command::DiscardCheckpoint);
                        emit(
                            &mut commands,
                            Command::TraceCall {
                                gas_used: U256::zero(),
                                output: TraceOutput::Prepared,
                                traces: Subtraces::Nothing,
                            },
                        );
                        CallStage::Done(
                            Ok(
                                FinalizationResult {
                                    gas_left: params.gas,
                                    return_data: ReturnData::empty(),
                                    apply_state: true,
                                },
                            ),
                        )
                    },
                }
            },
            (CallStage::BuiltinCost, Reply::Cost(cost)) => {
                if params.gas.less_than(&cost) {
                    emit(&mut commands, Command::RevertToCheckpoint);
                    emit(
                        &mut commands,
                        Command::TraceFailedCall {
                            error: VmError::OutOfGas,
                            traces: Subtraces::Nothing,
                        },
                    );
                    CallStage::Done(Err(VmError::OutOfGas))
                } else {
                    CallStage::BuiltinRun { cost }
                }
            },
            (CallStage::BuiltinRun { .. }, Reply::BuiltinOutput(Err(message))) => {
                let error = VmError::BuiltIn(message);
                emit(&mut commands, Command::RevertToCheckpoint);
                emit(
                    &mut commands,
                    Command::TraceFailedCall { error: error.clone(), traces: Subtraces::Nothing },
                );
                CallStage::Done(Err(error))
            },
            (CallStage::BuiltinRun { cost }, Reply::BuiltinOutput(Ok(data))) => {
                emit(&mut commands, Command::DiscardCheckpoint);
                output.write(0, data.as_slice());
                let transferred = match params.value {
                    ActionValue::Transfer(value) => !value.is_zero(),
                    ActionValue::Apparent(_) => false,
                };
                if executive.depth == 0 || transferred {
                    emit(&mut commands, Command::PrepareTraceOutput);
                    emit(
                        &mut commands,
                        Command::TraceCall {
                            gas_used: cost,
                            output: TraceOutput::Bytes(output.to_vec()),
                            traces: Subtraces::Nothing,
                        },
                    );
                }
                let size = data.len();
                CallStage::Done(
                    Ok(
                        FinalizationResult {
                            gas_left: params.gas.minus(cost),
                            return_data: ReturnData { mem: data, offset: 0, size },
                            apply_state: true,
                        },
                    ),
                )
            },
            (CallStage::Vm, Reply::Vm { result, output: OutputPolicy::Return(written, _) }) => {
                output = written;
                emit(&mut commands, Command::DoneSubtrace);
                match &result {
                    Ok(finished) => {
                        if finished.apply_state {
                            emit(
                                &mut commands,
                                Command::TraceCall {
                                    gas_used: params.gas.minus(finished.gas_left),
                                    output: TraceOutput::Prepared,
                                    traces: Subtraces::Drained,
                                },
                            );
                        } else {
                            emit(
                                &mut commands,
                                Command::TraceFailedCall {
                                    error: VmError::Reverted,
                                    traces: Subtraces::Drained,
                                },
                            );
                        }
                    },
                    Err(error) => {
                        emit(
                            &mut commands,
                            Command::TraceFailedCall {
                                error: error.clone(),
                                traces: Subtraces::Drained,
                            },
                        );
                    },
                }
                emit_all(&mut commands, Executive::enact_result(&result));
                CallStage::Done(result)
            },
            (stage, _) => stage,
        };
        let run = CallRun { executive, params, output, stage };
        assert(commands_view(commands) =~= before.next(reply@).1);
        (run, commands)
    }
}

} // verus!
