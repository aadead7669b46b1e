//! The messages between a run and its host.
//!
//! A run decides; the host owns the state, the substates, the tracers, the built-in contracts and
//! the virtual machines. Each step of a run yields commands, which the host carries out in order,
//! and then what the run asks of the host. The host answers with a reply, which resumes the run.
use crate::bytes::{copy_bytes, BytesRef};
use crate::hash::Address;
use crate::uint::U256;
use crate::vm::{result_view, ActionParams, ActionResult, EnvInfo, Machine, VmError};
use std::sync::Arc;
use vstd::prelude::*;

verus! {

/// A record of output that may not be kept, over a sequence of bytes.
pub open spec fn record_view(record: Option<Vec<u8>>) -> Option<Seq<u8>> {
    match record {
        Some(bytes) => Some(bytes@),
        None => None,
    }
}

/// What happens to an account that is empty after a change of its balance.
#[derive(Clone, Copy, Debug, PartialEq, Eq, Structural)]
pub enum Cleanup {
    /// The account is taken not to be empty.
    NoEmpty,
    /// What the confirmed substate of the transaction gives for the schedule.
    OfSubstate,
}

/// Where a copy of returned data goes.
#[derive(Debug, PartialEq, Eq)]
pub enum OutputCopy<B = Vec<u8>> {
    /// To a record.
    Record(B),
    /// To the output that the tracer has prepared, where it has prepared one.
    Prepared,
}

impl View for OutputCopy {
    type V = OutputCopy<Seq<u8>>;

    open spec fn view(&self) -> OutputCopy<Seq<u8>> {
        match self {
            OutputCopy::Record(bytes) => OutputCopy::Record(bytes@),
            OutputCopy::Prepared => OutputCopy::Prepared,
        }
    }
}

impl OutputCopy<Seq<u8>> {
    /// To the record where there is one, and to the prepared output where there is none.
    pub open spec fn of_record(record: Option<Seq<u8>>) -> Self {
        match record {
            Some(bytes) => OutputCopy::Record(bytes),
            None => OutputCopy::Prepared,
        }
    }

    /// The record, where there is one.
    pub open spec fn record(self) -> Option<Seq<u8>> {
        match self {
            OutputCopy::Record(bytes) => Some(bytes),
            OutputCopy::Prepared => None,
        }
    }

    /// Whether both go to the same place.
    pub open spec fn same_shape(self, later: Self) -> bool {
        self is Record <==> later is Record
    }
}

impl OutputCopy {
    /// To a copy of the record where there is one, and to the prepared output where there is none.
    pub fn to_record(record: &Option<Vec<u8>>) -> (r: OutputCopy)
        ensures
            r@ == OutputCopy::of_record(record_view(*record)),
    {
        match record {
            Some(bytes) => OutputCopy::Record(copy_bytes(bytes)),
            None => OutputCopy::Prepared,
        }
    }

    /// The record, where there is one.
    pub fn into_record(self) -> (r: Option<Vec<u8>>)
        ensures
            record_view(r) == self@.record(),
    {
        match self {
            OutputCopy::Record(bytes) => Some(bytes),
            OutputCopy::Prepared => None,
        }
    }

    /// Whether this goes to a record.
    pub fn is_record(&self) -> (r: bool)
        ensures
            r == (self@ is Record),
    {
        match self {
            OutputCopy::Record(_) => true,
            OutputCopy::Prepared => false,
        }
    }
}

/// Where the output of an action goes.
#[derive(Debug, PartialEq, Eq)]
pub enum OutputPolicy<B = Vec<u8>> {
    /// The returned data goes to the buffer, and is copied.
    Return(BytesRef<B>, OutputCopy<B>),
    /// The returned data becomes the code of a contract, and is copied.
    InitContract(OutputCopy<B>),
}

impl View for OutputPolicy {
    type V = OutputPolicy<Seq<u8>>;

    open spec fn view(&self) -> OutputPolicy<Seq<u8>> {
        match self {
            OutputPolicy::Return(output, copy) => OutputPolicy::Return(output@, copy@),
            OutputPolicy::InitContract(copy) => OutputPolicy::InitContract(copy@),
        }
    }
}

impl OutputPolicy<Seq<u8>> {
    /// Whether `later` can be what became of this policy's output when code ran.
    pub open spec fn same_shape(self, later: Self) -> bool {
        match (self, later) {
            (OutputPolicy::Return(a, copy), OutputPolicy::Return(b, later_copy)) => a.same_shape(b)
                && copy.same_shape(later_copy),
            (OutputPolicy::InitContract(a), OutputPolicy::InitContract(b)) => a.same_shape(b),
            _ => false,
        }
    }
}

/// The execution of code that a run asks for.
#[derive(Debug, PartialEq, Eq)]
pub struct VmCall<B = Vec<u8>> {
    /// The block.
    pub info: EnvInfo,
    /// The machine whose rules hold.
    pub machine: Machine,
    /// What is executed.
    pub params: ActionParams,
    /// The depth of the execution.
    pub depth: usize,
    /// Whether the execution must leave the state as it is.
    pub static_flag: bool,
    /// Where the output goes.
    pub output: OutputPolicy<B>,
}

impl View for VmCall {
    type V = VmCall<Seq<u8>>;

    open spec fn view(&self) -> VmCall<Seq<u8>> {
        VmCall {
            info: self.info,
            machine: self.machine,
            params: self.params,
            depth: self.depth,
            static_flag: self.static_flag,
            output: self.output@,
        }
    }
}

/// What a call or a creation asks of the host.
#[derive(Debug, PartialEq, Eq)]
pub enum Ask<B = Vec<u8>> {
    /// When does the storage of the account expire?
    StorageExpiry(Address),
    /// Move the value.
    TransferBalance { from: Address, to: Address, value: U256, cleanup: Cleanup },
    /// Is there a built-in contract at the address in this block, and is it active?
    Builtin { address: Address, number: u64 },
    /// What does the built-in contract cost on the data?
    BuiltinCost { data: B },
    /// Execute the built-in contract on the data.
    BuiltinExecute { data: B },
    /// Execute code.
    ExecVm(VmCall<B>),
    /// Does the account exist with code or a nonce?
    ExistsAndHasCodeOrNonce(Address),
    /// What is the balance of the account?
    Balance(Address),
    /// Take the value from the account.
    SubBalance { address: Address, value: U256, cleanup: Cleanup },
}

impl View for Ask {
    type V = Ask<Seq<u8>>;

    open spec fn view(&self) -> Ask<Seq<u8>> {
        match self {
            Ask::StorageExpiry(address) => Ask::StorageExpiry(*address),
            Ask::TransferBalance { from, to, value, cleanup } => Ask::TransferBalance {
                from: *from,
                to: *to,
                value: *value,
                cleanup: *cleanup,
            },
            Ask::Builtin { address, number } => Ask::Builtin { address: *address, number: *number },
            Ask::BuiltinCost { data } => Ask::BuiltinCost { data: data@ },
            Ask::BuiltinExecute { data } => Ask::BuiltinExecute { data: data@ },
            Ask::ExecVm(call) => Ask::ExecVm(call@),
            Ask::ExistsAndHasCodeOrNonce(address) => Ask::ExistsAndHasCodeOrNonce(*address),
            Ask::Balance(address) => Ask::Balance(*address),
            Ask::SubBalance { address, value, cleanup } => Ask::SubBalance {
                address: *address,
                value: *value,
                cleanup: *cleanup,
            },
        }
    }
}

/// What the host answers to a call or a creation.
#[derive(Debug, PartialEq, Eq)]
pub enum Reply<B = Vec<u8>> {
    /// A time.
    Time(Result<u64, VmError>),
    /// Done, or failed.
    Unit(Result<(), VmError>),
    /// Whether there is a built-in contract, and then whether it is active.
    Builtin(Option<bool>),
    /// The cost of a built-in contract.
    Cost(U256),
    /// What a built-in contract wrote, or why it failed.
    BuiltinOutput(Result<B, String>),
    /// How the execution of code ended and what became of its output.
    Vm { result: ActionResult<B>, output: OutputPolicy<B> },
    /// Yes or no.
    Flag(Result<bool, VmError>),
    /// An amount.
    Amount(Result<U256, VmError>),
}

impl View for Reply {
    type V = Reply<Seq<u8>>;

    open spec fn view(&self) -> Reply<Seq<u8>> {
        match self {
            Reply::Time(time) => Reply::Time(*time),
            Reply::Unit(done) => Reply::Unit(*done),
            Reply::Builtin(found) => Reply::Builtin(*found),
            Reply::Cost(cost) => Reply::Cost(*cost),
            Reply::BuiltinOutput(Ok(output)) => Reply::BuiltinOutput(Ok(output@)),
            Reply::BuiltinOutput(Err(error)) => Reply::BuiltinOutput(Err(*error)),
            Reply::Vm { result, output } => Reply::Vm {
                result: result_view(*result),
                output: output@,
            },
            Reply::Flag(flag) => Reply::Flag(*flag),
            Reply::Amount(amount) => Reply::Amount(*amount),
        }
    }
}

/// The output that a trace shows, where the tracer has prepared one.
#[derive(Debug, PartialEq, Eq)]
pub enum TraceOutput<B = Vec<u8>> {
    /// The prepared output as it is: untouched, or as the executed code filled it.
    Prepared,
    /// These bytes in place of the prepared output.
    Bytes(B),
}

impl View for TraceOutput {
    type V = TraceOutput<Seq<u8>>;

    open spec fn view(&self) -> TraceOutput<Seq<u8>> {
        match self {
            TraceOutput::Prepared => TraceOutput::Prepared,
            TraceOutput::Bytes(bytes) => TraceOutput::Bytes(bytes@),
        }
    }
}

/// The traces that go under a trace.
#[derive(Clone, Copy, Debug, PartialEq, Eq, Structural)]
pub enum Subtraces {
    /// None.
    Nothing,
    /// Those that the subtracer has collected.
    Drained,
}

/// What the host has to do.
#[derive(Debug, PartialEq, Eq)]
pub enum Command<B = Vec<u8>> {
    /// Take a checkpoint of the state.
    Checkpoint,
    /// Return the state to the last checkpoint.
    RevertToCheckpoint,
    /// Forget the last checkpoint and keep the state.
    DiscardCheckpoint,
    /// Start the substate of the transaction.
    NewSubstate,
    /// Start the part of the substate that may be reverted.
    NewUnconfirmedSubstate,
    /// Merge the part that may be reverted into the substate.
    AccrueSubstate,
    /// Make the account a new contract.
    NewContract { address: Address, balance: U256, nonce_offset: U256, storage_expiry: u64 },
    /// Remove the account.
    KillAccount(Address),
    /// Have the tracer prepare the trace of a call.
    PrepareTraceCall(ActionParams),
    /// Have the tracer prepare the trace of a creation.
    PrepareTraceCreate(ActionParams),
    /// Have the tracer prepare the output of a trace.
    PrepareTraceOutput,
    /// Split a subtracer off the tracer.
    Subtracer,
    /// Have the machine tracer prepare for the code.
    PrepareSubtrace(Arc<Vec<u8>>),
    /// Split a subtracer off the externalities tracer.
    ExtSubtracer(Address),
    /// Give the machine tracer its subtrace back.
    DoneSubtrace,
    /// Trace a call.
    TraceCall { gas_used: U256, output: TraceOutput<B>, traces: Subtraces },
    /// Trace a call that failed.
    TraceFailedCall { error: VmError, traces: Subtraces },
    /// Trace a creation.
    TraceCreate { gas_used: U256, output: TraceOutput<B>, address: Address, traces: Subtraces },
    /// Trace a creation that failed.
    TraceFailedCreate { error: VmError, traces: Subtraces },
}

impl View for Command {
    type V = Command<Seq<u8>>;

    open spec fn view(&self) -> Command<Seq<u8>> {
        match self {
            Command::Checkpoint => Command::Checkpoint,
            Command::RevertToCheckpoint => Command::RevertToCheckpoint,
            Command::DiscardCheckpoint => Command::DiscardCheckpoint,
            Command::NewSubstate => Command::NewSubstate,
            Command::NewUnconfirmedSubstate => Command::NewUnconfirmedSubstate,
            Command::AccrueSubstate => Command::AccrueSubstate,
            Command::NewContract { address, balance, nonce_offset, storage_expiry } => {
                Command::NewContract {
                    address: *address,
                    balance: *balance,
                    nonce_offset: *nonce_offset,
                    storage_expiry: *storage_expiry,
                }
            },
            Command::KillAccount(address) => Command::KillAccount(*address),
            Command::PrepareTraceCall(params) => Command::PrepareTraceCall(*params),
            Command::PrepareTraceCreate(params) => Command::PrepareTraceCreate(*params),
            Command::PrepareTraceOutput => Command::PrepareTraceOutput,
            Command::Subtracer => Command::Subtracer,
            Command::PrepareSubtrace(code) => Command::PrepareSubtrace(*code),
            Command::ExtSubtracer(address) => Command::ExtSubtracer(*address),
            Command::DoneSubtrace => Command::DoneSubtrace,
            Command::TraceCall { gas_used, output, traces } => Command::TraceCall {
                gas_used: *gas_used,
                output: output@,
                traces: *traces,
            },
            Command::TraceFailedCall { error, traces } => Command::TraceFailedCall {
                error: *error,
                traces: *traces,
            },
            Command::TraceCreate { gas_used, output, address, traces } => Command::TraceCreate {
                gas_used: *gas_used,
                output: output@,
                address: *address,
                traces: *traces,
            },
            Command::TraceFailedCreate { error, traces } => Command::TraceFailedCreate {
                error: *error,
                traces: *traces,
            },
        }
    }
}

/// A list of commands, over sequences of bytes.
pub open spec fn commands_view(commands: Vec<Command>) -> Seq<Command<Seq<u8>>> {
    Seq::new(commands@.len(), |i: int| commands@[i]@)
}

/// No commands.
pub fn no_commands() -> (r: Vec<Command>)
    ensures
        commands_view(r) == Seq::<Command<Seq<u8>>>::empty(),
{
    let r: Vec<Command> = Vec::new();
    assert(commands_view(r) =~= Seq::<Command<Seq<u8>>>::empty());
    r
}

/// Adds a command at the end.
pub fn emit(commands: &mut Vec<Command>, command: Command)
    ensures
        commands_view(*final(commands)) == commands_view(*old(commands)).push(command@),
{
    commands.push(command);
    assert(commands_view(*commands) =~= commands_view(*old(commands)).push(command@));
}

/// Adds the commands of `more` at the end.
pub fn emit_all(commands: &mut Vec<Command>, more: Vec<Command>)
    ensures
        commands_view(*final(commands)) == commands_view(*old(commands)) + commands_view(more),
{
    let mut more = more;
    let ghost added = more;
    commands.append(&mut more);
    assert(commands_view(*commands) =~= commands_view(*old(commands)) + commands_view(added));
}

/// A copy of a record of output.
pub fn copy_record(record: &Option<Vec<u8>>) -> (r: Option<Vec<u8>>)
    ensures
        record_view(r) == record_view(*record),
{
    match record {
        Some(bytes) => Some(copy_bytes(bytes)),
        None => None,
    }
}

} // verus!
