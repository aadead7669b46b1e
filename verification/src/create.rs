//! The run of a creation.
use crate::executive::{enactment, Executive};
use crate::history::Run;
use crate::protocol::{
    commands_view, copy_record, emit, emit_all, no_commands, record_view, Ask, Cleanup, Command,
    OutputCopy, OutputPolicy, Reply, Subtraces, TraceOutput,
};
use crate::uint::{group_words, u256, u256_range, U256};
use crate::vm::{result_view, ActionParams, ActionResult, ActionValue, CallType, VmError};
use vstd::prelude::*;

verus! {

broadcast use group_words;

/// What a creation waits for.
#[derive(Debug, PartialEq, Eq)]
pub enum CreateStage<B = Vec<u8>> {
    /// Whether the address is taken.
    Occupied,
    /// The balance that the address already has.
    Balance { storage_expiry: u64 },
    /// The withdrawal of the value from the sender.
    Fund { storage_expiry: u64, previous: U256 },
    /// The code.
    Vm,
    /// Nothing: the creation is over.
    Done(ActionResult<B>),
}

/// A creation on its way.
#[derive(Debug, PartialEq, Eq)]
pub struct CreateRun<B = Vec<u8>> {
    /// The executive.
    pub executive: Executive,
    /// What is created.
    pub params: ActionParams,
    /// The record of the output, where one is kept.
    pub output: Option<B>,
    /// What the creation waits for.
    pub stage: CreateStage<B>,
}

impl View for CreateStage {
    type V = CreateStage<Seq<u8>>;

    open spec fn view(&self) -> CreateStage<Seq<u8>> {
        match self {
            CreateStage::Occupied => CreateStage::Occupied,
            CreateStage::Balance { storage_expiry } => CreateStage::Balance {
                storage_expiry: *storage_expiry,
            },
            CreateStage::Fund { storage_expiry, previous } => CreateStage::Fund {
                storage_expiry: *storage_expiry,
                previous: *previous,
            },
            CreateStage::Vm => CreateStage::Vm,
            CreateStage::Done(result) => CreateStage::Done(result_view(*result)),
        }
    }
}

impl View for CreateRun {
    type V = CreateRun<Seq<u8>>;

    open spec fn view(&self) -> CreateRun<Seq<u8>> {
        CreateRun {
            executive: self.executive,
            params: self.params,
            output: record_view(self.output),
            stage: self.stage@,
        }
    }
}

impl Executive {
    /// When storage expires that was created now without a request.
    pub open spec fn default_expiry(self) -> int {
        self.info.timestamp + self.machine.schedule.default_storage_duration
    }

    /// When the storage of a new contract expires: as its header asks, or after the default
    /// duration.
    pub open spec fn requested_expiry(self, params: ActionParams) -> u64 {
        match params.oasis_contract {
            Some(contract) => match contract.expiry {
                Some(expiry) => expiry,
                None => self.default_expiry() as u64,
            },
            None => self.default_expiry() as u64,
        }
    }

    /// The nonce of a new contract.
    pub open spec fn nonce_offset(self) -> U256 {
        u256(
            if self.machine.schedule.no_empty {
                1
            } else {
                0
            },
        )
    }

    /// Whether a creation that finds its address free would go on to fix an expiry that fits the
    /// clock.
    pub open spec fn expiry_fits(self, params: ActionParams) -> bool {
        !self.refuses_create(params) ==> self.default_expiry() <= u64::MAX
    }
}

impl CreateRun<Seq<u8>> {
    /// The same creation, waiting for something else.
    pub open spec fn at(self, stage: CreateStage<Seq<u8>>) -> Self {
        CreateRun { stage, ..self }
    }

    /// The same creation, over.
    pub open spec fn ended(self, result: ActionResult<Seq<u8>>) -> Self {
        self.at(CreateStage::Done(result))
    }

    /// The start of a creation.
    pub open spec fn begin(
        executive: Executive,
        params: ActionParams,
        output: Option<Seq<u8>>,
    ) -> Self {
        CreateRun { executive, params, output, stage: CreateStage::Occupied }
    }

    /// The failure of a creation before its code runs.
    pub open spec fn refused(self, error: VmError) -> Seq<Command<Seq<u8>>> {
        seq![
            Command::PrepareTraceCreate(self.params),
            Command::TraceFailedCreate { error, traces: Subtraces::Nothing },
        ]
    }

    /// The creation when it is known whether the address is taken. A taken address fails like code
    /// that starts with an invalid instruction; where the state must stay as it is, or when the
    /// requested expiry has passed, the creation fails too.
    pub open spec fn after_occupied(self, occupied: Result<bool, VmError>) -> (
        Self,
        Seq<Command<Seq<u8>>>,
    ) {
        let storage_expiry = self.executive.requested_expiry(self.params);
        match occupied {
            Err(error) => (self.ended(Err(error)), seq![]),
            Ok(true) => (self.ended(Err(VmError::OutOfGas)), seq![]),
            Ok(false) => if self.executive.refuses_create(self.params) {
                (
                    self.ended(Err(VmError::MutableCallInStaticContext)),
                    self.refused(VmError::MutableCallInStaticContext),
                )
            } else if self.executive.info.timestamp > storage_expiry {
                (
                    self.ended(Err(VmError::ContractExpired)),
                    seq![Command::Checkpoint, Command::NewUnconfirmedSubstate] + self.refused(
                        VmError::ContractExpired,
                    ),
                )
            } else {
                (
                    self.at(CreateStage::Balance { storage_expiry }),
                    seq![Command::Checkpoint, Command::NewUnconfirmedSubstate],
                )
            },
        }
    }

    /// The creation when its contract is made and its code is about to run.
    pub open spec fn launched(self, balance: U256, storage_expiry: u64) -> (
        Self,
        Seq<Command<Seq<u8>>>,
    ) {
        (
            self.at(CreateStage::Vm),
            seq![
                Command::NewContract {
                    address: self.params.address,
                    balance,
                    nonce_offset: self.executive.nonce_offset(),
                    storage_expiry,
                },
                Command::PrepareTraceCreate(self.params),
                Command::PrepareTraceOutput,
                Command::Subtracer,
                Command::PrepareSubtrace(self.params.code->0),
                Command::ExtSubtracer(self.params.address),
            ],
        )
    }

    /// The creation when the balance of the address is known.
    pub open spec fn after_balance(self, storage_expiry: u64, balance: Result<U256, VmError>) -> (
        Self,
        Seq<Command<Seq<u8>>>,
    ) {
        match balance {
            Err(error) => (self.ended(Err(error)), seq![]),
            Ok(previous) => match self.params.value {
                ActionValue::Transfer(_) => (
                    self.at(CreateStage::Fund { storage_expiry, previous }),
                    seq![],
                ),
                ActionValue::Apparent(_) => self.launched(previous, storage_expiry),
            },
        }
    }

    /// The creation when the sender has paid the value, which the contract gets on top of what
    /// its address already had.
    pub open spec fn after_fund(
        self,
        storage_expiry: u64,
        previous: U256,
        done: Result<(), VmError>,
    ) -> (Self, Seq<Command<Seq<u8>>>) {
        match done {
            Err(error) => (self.ended(Err(error)), seq![]),
            Ok(_) => self.launched(u256(self.params.value.amount()@ + previous@), storage_expiry),
        }
    }

    /// The trace of a creation whose code has run.
    pub open spec fn trace_of(self, result: ActionResult<Seq<u8>>, output: Option<Seq<u8>>) -> Command<
        Seq<u8>,
    > {
        match result {
            Ok(finished) => if finished.apply_state {
                Command::TraceCreate {
                    gas_used: u256((self.params.gas@ - finished.gas_left@) as nat),
                    output: match output {
                        Some(code) => TraceOutput::Bytes(code),
                        None => TraceOutput::Prepared,
                    },
                    address: self.params.address,
                    traces: Subtraces::Drained,
                }
            } else {
                Command::TraceFailedCreate { error: VmError::Reverted, traces: Subtraces::Drained }
            },
            Err(error) => Command::TraceFailedCreate { error, traces: Subtraces::Drained },
        }
    }

    /// The creation when its code has run: it is traced, and its changes are committed or taken
    /// back.
    pub open spec fn after_vm(self, result: ActionResult<Seq<u8>>, output: Option<Seq<u8>>) -> (
        Self,
        Seq<Command<Seq<u8>>>,
    ) {
        (
            CreateRun { output, ..self }.ended(result),
            seq![Command::DoneSubtrace, self.trace_of(result, output)] + enactment(result),
        )
    }
}

impl Run for CreateRun<Seq<u8>> {
    type Ask = Ask<Seq<u8>>;

    type Reply = Reply<Seq<u8>>;

    /// What the creation asks of the host, until it is over.
    open spec fn asks(self) -> Option<Ask<Seq<u8>>> {
        match self.stage {
            CreateStage::Occupied => Some(Ask::ExistsAndHasCodeOrNonce(self.params.address)),
            CreateStage::Balance { .. } => Some(Ask::Balance(self.params.address)),
            CreateStage::Fund { .. } => Some(
                Ask::SubBalance {
                    address: self.params.sender,
                    value: self.params.value.amount(),
                    cleanup: Cleanup::OfSubstate,
                },
            ),
            CreateStage::Vm => Some(
                Ask::ExecVm(
                    self.executive.vm_call(
                        self.params,
                        OutputPolicy::InitContract(OutputCopy::of_record(self.output)),
                    ),
                ),
            ),
            CreateStage::Done(_) => None,
        }
    }

    /// The replies that answer what the creation asks. Times and balances stay in range, there is
    /// code to execute, and code that succeeds leaves no more gas than it was given.
    open spec fn accepts(self, reply: Reply<Seq<u8>>) -> bool {
        match (self.stage, reply) {
            (CreateStage::Occupied, Reply::Flag(occupied)) => {
                occupied == Ok::<bool, VmError>(false) ==> self.executive.expiry_fits(self.params)
            },
            (CreateStage::Balance { .. }, Reply::Amount(balance)) => {
                balance is Ok && self.params.value is Apparent ==> self.params.code is Some
            },
            (CreateStage::Fund { previous, .. }, Reply::Unit(done)) => {
                done is Ok ==> {
                    &&& self.params.code is Some
                    &&& self.params.value.amount()@ + previous@ < u256_range()
                }
            },
            (CreateStage::Vm, Reply::Vm { result, output }) => {
                &&& OutputPolicy::InitContract(OutputCopy::of_record(self.output)).same_shape(
                    output,
                )
                &&& result matches Ok(finished) ==> (finished.apply_state ==> finished.gas_left@
                    <= self.params.gas@)
            },
            _ => false,
        }
    }

    /// The creation after a reply, and what the host has to do.
    open spec fn next(self, reply: Reply<Seq<u8>>) -> (Self, Seq<Command<Seq<u8>>>) {
        match (self.stage, reply) {
            (CreateStage::Occupied, Reply::Flag(occupied)) => self.after_occupied(occupied),
            (CreateStage::Balance { storage_expiry }, Reply::Amount(balance)) => {
                self.after_balance(storage_expiry, balance)
            },
            (CreateStage::Fund { storage_expiry, previous }, Reply::Unit(done)) => {
                self.after_fund(storage_expiry, previous, done)
            },
            (CreateStage::Vm, Reply::Vm { result, output: OutputPolicy::InitContract(copy) }) => {
                self.after_vm(result, copy.record())
            },
            _ => (self, seq![]),
        }
    }
}

impl Executive {
    /// When the storage of a new contract expires.
    fn storage_expiry(&self, params: &ActionParams) -> (r: u64)
        requires
            self.default_expiry() <= u64::MAX,
        ensures
            r == self.requested_expiry(*params),
    {
        let default = self.info.timestamp + self.machine.schedule.default_storage_duration;
        match &params.oasis_contract {
            Some(contract) => match contract.expiry {
                Some(expiry) => expiry,
                None => default,
            },
            None => default,
        }
    }
}

impl CreateRun {
    /// Starts a creation.
    pub(crate) fn start(executive: Executive, params: ActionParams, output: Option<Vec<u8>>) -> (r:
        CreateRun)
        ensures
            r@ == CreateRun::begin(executive, params, record_view(output)),
    {
        CreateRun { executive, params, output, stage: CreateStage::Occupied }
    }

    /// What the creation asks of the host, until it is over.
    pub fn ask(&self) -> (r: Option<Ask>)
        ensures
            r is Some <==> self@.asks() is Some,
            r matches Some(ask) ==> self@.asks() == Some(ask@),
    {
        match &self.stage {
            CreateStage::Occupied => Some(Ask::ExistsAndHasCodeOrNonce(self.params.address)),
            CreateStage::Balance { .. } => Some(Ask::Balance(self.params.address)),
            CreateStage::Fund { .. } => Some(
                Ask::SubBalance {
                    address: self.params.sender,
                    value: self.params.value.value(),
                    cleanup: Cleanup::OfSubstate,
                },
            ),
            CreateStage::Vm => {
                let output = OutputPolicy::InitContract(OutputCopy::to_record(&self.output));
                Some(Ask::ExecVm(self.executive.exec_vm(self.params.clone(), output)))
            },
            CreateStage::Done(_) => None,
        }
    }

    /// Whether the reply answers what the creation asks, so that the creation can be resumed with
    /// it.
    pub fn takes(&self, reply: &Reply) -> (r: bool)
        ensures
            r == self@.accepts(reply@),
    {
        match (&self.stage, reply) {
            (CreateStage::Occupied, Reply::Flag(occupied)) => match occupied {
                Ok(false) => {
                    let refused = self.params.call_type == CallType::StaticCall
                        || self.executive.static_flag;
                    let timestamp = self.executive.info.timestamp;
                    refused || self.executive.machine.schedule.default_storage_duration <= u64::MAX
                        - timestamp
                },
                _ => true,
            },
            (CreateStage::Balance { .. }, Reply::Amount(balance)) => match (
                balance,
                &self.params.value,
            ) {
                (Ok(_), ActionValue::Apparent(_)) => self.params.code.is_some(),
                _ => true,
            },
            (CreateStage::Fund { previous, .. }, Reply::Unit(done)) => match done {
                Ok(_) => self.params.code.is_some() && self.params.value.value().sum_fits(previous),
                Err(_) => true,
            },
            (CreateStage::Vm, Reply::Vm { result, output: OutputPolicy::InitContract(written) }) => {
                let covered = match result {
                    Ok(finished) => !finished.apply_state || !self.params.gas.less_than(
                        &finished.gas_left,
                    ),
                    Err(_) => true,
                };
                self.output.is_some() == written.is_record() && covered
            },
            _ => false,
        }
    }

    /// Emits the failure of a creation before its code runs.
    fn emit_refusal(commands: &mut Vec<Command>, params: &ActionParams, error: VmError)
        ensures
            commands_view(*final(commands)) == commands_view(*old(commands)).push(
                Command::PrepareTraceCreate(*params),
            ).push(Command::TraceFailedCreate { error, traces: Subtraces::Nothing }),
    {
        emit(commands, Command::PrepareTraceCreate(params.clone()));
        emit(commands, Command::TraceFailedCreate { error, traces: Subtraces::Nothing });
    }

    /// Emits what makes the contract and prepares for its code.
    fn emit_launch(
        commands: &mut Vec<Command>,
        executive: &Executive,
        params: &ActionParams,
        balance: U256,
        storage_expiry: u64,
    )
        requires
            params.code is Some,
            commands_view(*old(commands)) == Seq::<Command<Seq<u8>>>::empty(),
        ensures
            forall|run: CreateRun<Seq<u8>>|
                run.executive == *executive && run.params == *params ==> commands_view(
                    *final(commands),
                ) == #[trigger] run.launched(balance, storage_expiry).1,
    {
        let nonce_offset = U256::from_u64(
            if executive.machine.schedule.no_empty {
                1
            } else {
                0
            },
        );
        emit(
            commands,
            Command::NewContract { address: params.address, balance, nonce_offset, storage_expiry },
        );
        emit(commands, Command::PrepareTraceCreate(params.clone()));
        emit(commands, Command::PrepareTraceOutput);
        emit(commands, Command::Subtracer);
        if let Some(code) = &params.code {
            emit(commands, Command::PrepareSubtrace(code.clone()));
        }
        emit(commands, Command::ExtSubtracer(params.address));
    }

    /// Resumes the creation with what the host answered.
    pub fn resume(self, reply: Reply) -> (r: (CreateRun, Vec<Command>))
        requires
            self@.accepts(reply@),
        ensures
            (r.0@, commands_view(r.1)) == self@.next(reply@),
    {
        let ghost before = self@;
        let CreateRun { executive, params, output, stage } = self;
        let mut commands = no_commands();
        let mut output = output;
        let stage = match (stage, reply) {
            (CreateStage::Occupied, Reply::Flag(Err(error))) => CreateStage::Done(Err(error)),
            (CreateStage::Occupied, Reply::Flag(Ok(occupied))) => {
                if occupied {
                    CreateStage::Done(Err(VmError::OutOfGas))
                } else if params.call_type == CallType::StaticCall || executive.static_flag {
                    Self::emit_refusal(
                        &mut commands,
                        &params,
                        VmError::MutableCallInStaticContext,
                    );
                    CreateStage::Done(Err(VmError::MutableCallInStaticContext))
                } else {
                    emit(&mut commands, Command::Checkpoint);
                    emit(&mut commands, Command::NewUnconfirmedSubstate);
                    let storage_expiry = executive.storage_expiry(&params);
                    if executive.info.timestamp > storage_expiry {
                        Self::emit_refusal(&mut commands, &params, VmError::ContractExpired);
                        CreateStage::Done(Err(VmError::ContractExpired))
                    } else {
                        CreateStage::Balance { storage_expiry }
                    }
                }
            },
            (CreateStage::Balance { .. }, Reply::Amount(Err(error))) => {
                CreateStage::Done(Err(error))
            },
            (CreateStage::Balance { storage_expiry }, Reply::Amount(Ok(previous))) => {
                match params.value {
                    ActionValue::Transfer(_) => CreateStage::Fund { storage_expiry, previous },
                    ActionValue::Apparent(_) => {
                        Self::emit_launch(
                            &mut commands,
                            &executive,
                            &params,
                            previous,
                            storage_expiry,
                        );
                        CreateStage::Vm
                    },
                }
            },
            (CreateStage::Fund { .. }, Reply::Unit(Err(error))) => CreateStage::Done(Err(error)),
            (CreateStage::Fund { storage_expiry, previous }, Reply::Unit(Ok(_))) => {
                let balance = params.value.value().plus(previous);
                Self::emit_launch(&mut commands, &executive, &params, balance, storage_expiry);
                CreateStage::Vm
            },
            (
                CreateStage::Vm,
                Reply::Vm { result, output: OutputPolicy::InitContract(written) },
            ) => {
                output = written.into_record();
                emit(&mut commands, Command::DoneSubtrace);
                match &result {
                    Ok(finished) => {
                        if finished.apply_state {
                            let traced = match copy_record(&output) {
                                Some(code) => TraceOutput::Bytes(code),
                                None => TraceOutput::Prepared,
                            };
                            emit(
                                &mut commands,
                                Command::TraceCreate {
                                    gas_used: params.gas.minus(finished.gas_left),
                                    output: traced,
                                    address: params.address,
                                    traces: Subtraces::Drained,
                                },
                            );
                        } else {
                            emit(
                                &mut commands,
                                Command::TraceFailedCreate {
                                    error: VmError::Reverted,
                                    traces: Subtraces::Drained,
                                },
                            );
                        }
                    },
                    Err(error) => {
                        emit(
                            &mut commands,
                            Command::TraceFailedCreate {
                                error: error.clone(),
                                traces: Subtraces::Drained,
                            },
                        );
                    },
                }
                emit_all(&mut commands, Executive::enact_result(&result));
                CreateStage::Done(result)
            },
            (stage, _) => stage,
        };
        let run = CreateRun { executive, params, output, stage };
        assert(commands_view(commands) =~= before.next(reply@).1);
        (run, commands)
    }
}

} // verus!
