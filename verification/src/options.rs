//! The options of executing a transaction.
use vstd::prelude::*;
use vstd::std_specs::cmp::{PartialEqSpec, PartialEqSpecImpl};

verus! {

/// The choice to trace no calls.
#[derive(Clone, Copy, Debug)]
pub struct NoopTracer;

impl PartialEq for NoopTracer {
    fn eq(&self, other: &NoopTracer) -> (r: bool) {
        true
    }
}

impl PartialEqSpecImpl for NoopTracer {
    open spec fn obeys_eq_spec() -> bool {
        true
    }

    open spec fn eq_spec(&self, other: &NoopTracer) -> bool {
        true
    }
}

impl Eq for NoopTracer {

}

/// The choice to trace calls.
#[derive(Clone, Copy, Debug)]
pub struct ExecutiveTracer;

impl PartialEq for ExecutiveTracer {
    fn eq(&self, other: &ExecutiveTracer) -> (r: bool) {
        true
    }
}

impl PartialEqSpecImpl for ExecutiveTracer {
    open spec fn obeys_eq_spec() -> bool {
        true
    }

    open spec fn eq_spec(&self, other: &ExecutiveTracer) -> bool {
        true
    }
}

impl Eq for ExecutiveTracer {

}

/// The choice to trace no instructions.
#[derive(Clone, Copy, Debug)]
pub struct NoopVMTracer;

impl PartialEq for NoopVMTracer {
    fn eq(&self, other: &NoopVMTracer) -> (r: bool) {
        true
    }
}

impl PartialEqSpecImpl for NoopVMTracer {
    open spec fn obeys_eq_spec() -> bool {
        true
    }

    open spec fn eq_spec(&self, other: &NoopVMTracer) -> bool {
        true
    }
}

impl Eq for NoopVMTracer {

}

/// The choice to trace instructions, from the top level on.
#[derive(Clone, Copy, Debug)]
pub struct ExecutiveVMTracer;

impl PartialEq for ExecutiveVMTracer {
    fn eq(&self, other: &ExecutiveVMTracer) -> (r: bool) {
        true
    }
}

impl PartialEqSpecImpl for ExecutiveVMTracer {
    open spec fn obeys_eq_spec() -> bool {
        true
    }

    open spec fn eq_spec(&self, other: &ExecutiveVMTracer) -> bool {
        true
    }
}

impl Eq for ExecutiveVMTracer {

}

/// The choice to trace no accesses to the state.
#[derive(Clone, Copy, Debug)]
pub struct NoopExtTracer;

impl PartialEq for NoopExtTracer {
    fn eq(&self, other: &NoopExtTracer) -> (r: bool) {
        true
    }
}

impl PartialEqSpecImpl for NoopExtTracer {
    open spec fn obeys_eq_spec() -> bool {
        true
    }

    open spec fn eq_spec(&self, other: &NoopExtTracer) -> bool {
        true
    }
}

impl Eq for NoopExtTracer {

}

/// Transaction execution options.
#[derive(Debug)]
pub struct TransactOptions<T, V, X> {
    /// Enable call tracing.
    pub tracer: T,
    /// Enable VM tracing.
    pub vm_tracer: V,
    /// Enable Externalties tracing.
    pub ext_tracer: X,
    /// Check transaction nonce before execution.
    pub check_nonce: bool,
    /// Records the output from init contract calls.
    pub output_from_init_contract: bool,
}

impl<T: PartialEq, V: PartialEq, X: PartialEq> PartialEq for TransactOptions<T, V, X> {
    fn eq(&self, other: &TransactOptions<T, V, X>) -> (r: bool) {
        self.tracer == other.tracer && self.vm_tracer == other.vm_tracer && self.ext_tracer
            == other.ext_tracer && self.check_nonce == other.check_nonce
            && self.output_from_init_contract == other.output_from_init_contract
    }
}

impl<T: PartialEq, V: PartialEq, X: PartialEq> PartialEqSpecImpl for TransactOptions<T, V, X> {
    open spec fn obeys_eq_spec() -> bool {
        <T as PartialEqSpec>::obeys_eq_spec() && <V as PartialEqSpec>::obeys_eq_spec() && <X as PartialEqSpec>::obeys_eq_spec()
    }

    open spec fn eq_spec(&self, other: &TransactOptions<T, V, X>) -> bool {
        &&& self.tracer.eq_spec(&other.tracer)
        &&& self.vm_tracer.eq_spec(&other.vm_tracer)
        &&& self.ext_tracer.eq_spec(&other.ext_tracer)
        &&& self.check_nonce == other.check_nonce
        &&& self.output_from_init_contract == other.output_from_init_contract
    }
}

impl<T: Clone, V: Clone, X: Clone> Clone for TransactOptions<T, V, X> {
    fn clone(&self) -> (r: Self)
        ensures
            cloned(self.tracer, r.tracer),
            cloned(self.vm_tracer, r.vm_tracer),
            cloned(self.ext_tracer, r.ext_tracer),
            r.check_nonce == self.check_nonce,
            r.output_from_init_contract == self.output_from_init_contract,
    {
        TransactOptions {
            tracer: self.tracer.clone(),
            vm_tracer: self.vm_tracer.clone(),
            ext_tracer: self.ext_tracer.clone(),
            check_nonce: self.check_nonce,
            output_from_init_contract: self.output_from_init_contract,
        }
    }
}

impl<T, V, X> TransactOptions<T, V, X> {
    /// Create new `TransactOptions` with given tracer and VM tracer.
    pub fn new(tracer: T, vm_tracer: V, ext_tracer: X) -> (r: Self)
        ensures
            r == (TransactOptions {
                tracer,
                vm_tracer,
                ext_tracer,
                check_nonce: true,
                output_from_init_contract: false,
            }),
    {
        TransactOptions {
            tracer,
            vm_tracer,
            ext_tracer,
            check_nonce: true,
            output_from_init_contract: false,
        }
    }

    /// Disables the nonce check
    pub fn dont_check_nonce(self) -> (r: Self)
        ensures
            r == (TransactOptions { check_nonce: false, ..self }),
    {
        let mut options = self;
        options.check_nonce = false;
        options
    }

    /// Saves the output from contract creation.
    pub fn save_output_from_contract(self) -> (r: Self)
        ensures
            r == (TransactOptions { output_from_init_contract: true, ..self }),
    {
        let mut options = self;
        options.output_from_init_contract = true;
        options
    }
}

impl TransactOptions<ExecutiveTracer, ExecutiveVMTracer, NoopExtTracer> {
    /// Creates new `TransactOptions` with default tracing and VM tracing.
    pub fn with_tracing_and_vm_tracing() -> (r: Self)
        ensures
            r == (TransactOptions {
                tracer: ExecutiveTracer,
                vm_tracer: ExecutiveVMTracer,
                ext_tracer: NoopExtTracer,
                check_nonce: true,
                output_from_init_contract: false,
            }),
    {
        TransactOptions {
            tracer: ExecutiveTracer,
            vm_tracer: ExecutiveVMTracer,
            ext_tracer: NoopExtTracer,
            check_nonce: true,
            output_from_init_contract: false,
        }
    }
}

impl TransactOptions<ExecutiveTracer, NoopVMTracer, NoopExtTracer> {
    /// Creates new `TransactOptions` with default tracing and no VM tracing.
    pub fn with_tracing() -> (r: Self)
        ensures
            r == (TransactOptions {
                tracer: ExecutiveTracer,
                vm_tracer: NoopVMTracer,
                ext_tracer: NoopExtTracer,
                check_nonce: true,
                output_from_init_contract: false,
            }),
    {
        TransactOptions {
            tracer: ExecutiveTracer,
            vm_tracer: NoopVMTracer,
            ext_tracer: NoopExtTracer,
            check_nonce: true,
            output_from_init_contract: false,
        }
    }
}

impl TransactOptions<NoopTracer, ExecutiveVMTracer, NoopExtTracer> {
    /// Creates new `TransactOptions` with no tracing and default VM tracing.
    pub fn with_vm_tracing() -> (r: Self)
        ensures
            r == (TransactOptions {
                tracer: NoopTracer,
                vm_tracer: ExecutiveVMTracer,
                ext_tracer: NoopExtTracer,
                check_nonce: true,
                output_from_init_contract: false,
            }),
    {
        TransactOptions {
            tracer: NoopTracer,
            vm_tracer: ExecutiveVMTracer,
            ext_tracer: NoopExtTracer,
            check_nonce: true,
            output_from_init_contract: false,
        }
    }
}

impl TransactOptions<NoopTracer, NoopVMTracer, NoopExtTracer> {
    /// Creates new `TransactOptions` without any tracing.
    pub fn with_no_tracing() -> (r: Self)
        ensures
            r == (TransactOptions {
                tracer: NoopTracer,
                vm_tracer: NoopVMTracer,
                ext_tracer: NoopExtTracer,
                check_nonce: true,
                output_from_init_contract: false,
            }),
    {
        TransactOptions {
            tracer: NoopTracer,
            vm_tracer: NoopVMTracer,
            ext_tracer: NoopExtTracer,
            check_nonce: true,
            output_from_init_contract: false,
        }
    }
}

} // verus!
