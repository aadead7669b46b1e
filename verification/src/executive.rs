//! The executive.
use crate::bytes::BytesRef;
use crate::call::CallRun;
use crate::create::CreateRun;
use crate::finalize::FinalizeRun;
use crate::options::TransactOptions;
use crate::protocol::{
    commands_view, emit, no_commands, record_view, Command, OutputPolicy, VmCall,
};
use crate::transact::{TransactRun, TransactStage};
use crate::transaction::SignedTransaction;
use crate::uint::u256_range;
use crate::vm::{
    result_view, ActionParams, ActionResult, CallType, EnvInfo, FinalizationResult, Machine, VmError,
};
use vstd::prelude::*;

verus! {

/// What code sees of its surroundings while it runs.
///
/// The executive fixes the block, the machine, the depth and whether the state may change. The
/// other parts belong to the host and pass through.
pub struct Externalities<O, S, P, T, V, X> {
    /// The block.
    pub info: EnvInfo,
    /// The machine.
    pub machine: Machine,
    /// The depth of the execution.
    pub depth: usize,
    /// What is known of the transaction.
    pub origin_info: O,
    /// The part of the substate that may be reverted.
    pub substate: S,
    /// Where the output goes.
    pub output: P,
    /// The tracer.
    pub tracer: T,
    /// The machine tracer.
    pub vm_tracer: V,
    /// The externalities tracer.
    pub ext_tracer: X,
    /// Whether the state must stay as it is.
    pub static_flag: bool,
}

/// Transaction executor.
///
/// It decides what happens in which order; the state itself belongs to the host.
#[derive(Clone, Copy, Debug, PartialEq, Eq)]
pub struct Executive {
    /// The block.
    pub info: EnvInfo,
    /// The machine.
    pub machine: Machine,
    /// The depth: zero for a transaction, and one more for each action inside another.
    pub depth: usize,
    /// Whether the state must stay as it is.
    pub static_flag: bool,
}

/// Whether the changes that an action made are taken back: always when it failed, except for a
/// failure of the host, and when it asked for it.
pub open spec fn reverts<B>(result: ActionResult<B>) -> bool {
    match result {
        Ok(finished) => !finished.apply_state,
        Err(error) => !(error is Internal),
    }
}

/// What follows from the result of an action.
pub open spec fn enactment<B>(result: ActionResult<B>) -> Seq<Command<Seq<u8>>> {
    if reverts(result) {
        seq![Command::RevertToCheckpoint]
    } else {
        seq![Command::DiscardCheckpoint, Command::AccrueSubstate]
    }
}

impl Executive {
    /// Basic constructor.
    pub fn new(info: EnvInfo, machine: Machine) -> (r: Self)
        ensures
            r == (Executive { info, machine, depth: 0, static_flag: false }),
    {
        Executive { info, machine, depth: 0, static_flag: false }
    }

    /// Populates executive from parent properties. Increments executive depth.
    pub fn from_parent(info: EnvInfo, machine: Machine, parent_depth: usize, static_flag: bool) -> (r:
        Self)
        requires
            parent_depth < usize::MAX,
        ensures
            r.info == info,
            r.machine == machine,
            r.depth == parent_depth + 1,
            r.static_flag == static_flag,
    {
        Executive { info, machine, depth: parent_depth + 1, static_flag }
    }

    /// Creates `Externalities` from `Executive`.
    pub fn as_externalities<O, S, P, T, V, X>(
        &self,
        origin_info: O,
        substate: S,
        output: P,
        tracer: T,
        vm_tracer: V,
        ext_tracer: X,
        static_call: bool,
    ) -> (r: Externalities<O, S, P, T, V, X>)
        ensures
            r == (Externalities {
                info: self.info,
                machine: self.machine,
                depth: self.depth,
                origin_info,
                substate,
                output,
                tracer,
                vm_tracer,
                ext_tracer,
                static_flag: self.static_flag || static_call,
            }),
    {
        let is_static = self.static_flag || static_call;
        Externalities {
            info: self.info,
            machine: self.machine,
            depth: self.depth,
            origin_info,
            substate,
            output,
            tracer,
            vm_tracer,
            ext_tracer,
            static_flag: is_static,
        }
    }

    /// This function should be used to execute transaction.
    /// Returns the run of the transaction. The tracers of the options stay with the host.
    pub fn transact<T, V, X>(&self, t: &SignedTransaction, options: &TransactOptions<T, V, X>) -> (r:
        TransactRun)
        ensures
            r@ == TransactRun::begin(
                *self,
                *t,
                options.check_nonce,
                options.output_from_init_contract,
            ),
            r@.wf(),
    {
        self.transact_with_tracer(t, options.check_nonce, options.output_from_init_contract)
    }

    /// Execute a transaction in a "virtual" context.
    /// This will ensure the caller has enough balance to execute the desired transaction.
    /// Used for extra-block executions for things like consensus contracts and RPCs
    pub fn transact_virtual<T, V, X>(
        &self,
        t: &SignedTransaction,
        options: &TransactOptions<T, V, X>,
    ) -> (r: TransactRun)
        ensures
            r@ == TransactRun::begin_virtual(
                *self,
                *t,
                options.check_nonce,
                options.output_from_init_contract,
            ),
            r@.wf(),
    {
        let run = self.transact(t, options);
        TransactRun { stage: TransactStage::VirtualBalance, ..run }
    }

    /// Execute transaction/call with tracing enabled
    pub fn transact_with_tracer(
        &self,
        t: &SignedTransaction,
        check_nonce: bool,
        output_from_create: bool,
    ) -> (r: TransactRun)
        ensures
            r@ == TransactRun::begin(*self, *t, check_nonce, output_from_create),
            r@.wf(),
    {
        TransactRun::start(*self, t.clone(), check_nonce, output_from_create)
    }

    /// The execution of the code of `params` at this depth. It is static where this executive is,
    /// and where the action is a static call.
    pub open spec fn vm_call(
        self,
        params: ActionParams,
        output: OutputPolicy<Seq<u8>>,
    ) -> VmCall<Seq<u8>> {
        VmCall {
            info: self.info,
            machine: self.machine,
            params,
            depth: self.depth,
            static_flag: self.static_flag || params.call_type == CallType::StaticCall,
            output,
        }
    }

    /// Prepares the execution of the code of `params`.
    pub fn exec_vm(&self, params: ActionParams, output_policy: OutputPolicy) -> (r: VmCall)
        ensures
            r@ == self.vm_call(params, output_policy@),
    {
        let static_call = params.call_type == CallType::StaticCall;
        let ext = self.as_externalities((), (), output_policy, (), (), (), static_call);
        VmCall {
            info: ext.info,
            machine: ext.machine,
            params,
            depth: ext.depth,
            static_flag: ext.static_flag,
            output: ext.output,
        }
    }

    /// Whether a call would move value where the state must stay as it is.
    pub open spec fn refuses_call(self, params: ActionParams) -> bool {
        &&& params.call_type == CallType::StaticCall || (params.call_type == CallType::Call
            && self.static_flag)
        &&& params.value.amount()@ > 0
    }

    /// Whether a creation would happen where the state must stay as it is.
    pub open spec fn refuses_create(self, params: ActionParams) -> bool {
        params.call_type == CallType::StaticCall || self.static_flag
    }

    /// Calls contract function with given contract params.
    /// NOTE. It does not finalize the transaction (doesn't do refunds, nor suicides).
    /// Returns the run of the call and what the host has to do first.
    pub fn call(&self, params: ActionParams, output: BytesRef) -> (r: (CallRun, Vec<Command>))
        ensures
            (r.0@, commands_view(r.1)) == CallRun::begin(*self, params, output@),
            r.0@.wf(),
    {
        CallRun::start(*self, params, output)
    }

    /// Creates contract with given contract params.
    /// NOTE. It does not finalize the transaction (doesn't do refunds, nor suicides).
    /// Returns the run of the creation.
    pub fn create(&self, params: ActionParams, output: Option<Vec<u8>>) -> (r: CreateRun)
        ensures
            r@ == CreateRun::begin(*self, params, record_view(output)),
    {
        CreateRun::start(*self, params, output)
    }

    /// Finalizes the transaction (does refunds and suicides).
    /// Returns the run of the finalization. The gas can be paid for, and fits the block.
    pub fn finalize(
        &self,
        t: &SignedTransaction,
        result: ActionResult<Vec<u8>>,
        output: Vec<u8>,
    ) -> (r: FinalizeRun)
        requires
            t.gas@ * t.gas_price@ < u256_range(),
            self.info.gas_used@ + t.gas@ < u256_range(),
        ensures
            r@ == FinalizeRun::begin(*self, *t, result_view(result), output@),
            r@.wf(),
    {
        FinalizeRun::start(*self, t.clone(), result, output)
    }

    /// Commits or takes back what an action did.
    pub fn enact_result(result: &ActionResult<Vec<u8>>) -> (r: Vec<Command>)
        ensures
            commands_view(r) == enactment(*result),
            commands_view(r) == enactment(result_view(*result)),
    {
        let mut commands = no_commands();
        match result {
            Err(VmError::OutOfGas)
            | Err(VmError::BadJumpDestination { .. })
            | Err(VmError::BadInstruction { .. })
            | Err(VmError::StackUnderflow { .. })
            | Err(VmError::BuiltIn(_))
            | Err(VmError::Wasm(_))
            | Err(VmError::OutOfStack { .. })
            | Err(VmError::MutableCallInStaticContext)
            | Err(VmError::OutOfBounds)
            | Err(VmError::Reverted)
            | Err(VmError::ContractExpired)
            | Err(VmError::Confidential(_))
            | Ok(FinalizationResult { apply_state: false, .. }) => {
                emit(&mut commands, Command::RevertToCheckpoint);
            },
            Ok(_) | Err(VmError::Internal(_)) => {
                emit(&mut commands, Command::DiscardCheckpoint);
                emit(&mut commands, Command::AccrueSubstate);
            },
        }
        commands
    }
}

} // verus!
