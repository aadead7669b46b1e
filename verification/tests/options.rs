//! The options of a transaction.
use executive::options::{
    ExecutiveTracer, ExecutiveVMTracer, NoopExtTracer, NoopTracer, NoopVMTracer, TransactOptions,
};

#[test]
fn new_options_check_the_nonce_and_keep_no_output() {
    let options = TransactOptions::new(1, 2, 3);
    assert_eq!((options.tracer, options.vm_tracer, options.ext_tracer), (1, 2, 3));
    assert!(options.check_nonce);
    assert!(!options.output_from_init_contract);
}

#[test]
fn options_can_be_changed() {
    let options = TransactOptions::new(1, 2, 3).dont_check_nonce();
    assert!(!options.check_nonce);
    assert!(!options.output_from_init_contract);
    let options = TransactOptions::new(1, 2, 3).save_output_from_contract();
    assert!(options.check_nonce);
    assert!(options.output_from_init_contract);
}

#[test]
fn options_choose_tracers() {
    let all = TransactOptions::with_tracing_and_vm_tracing();
    assert!(all == TransactOptions::new(ExecutiveTracer, ExecutiveVMTracer, NoopExtTracer));
    let calls = TransactOptions::with_tracing();
    assert!(calls == TransactOptions::new(ExecutiveTracer, NoopVMTracer, NoopExtTracer));
    let instructions = TransactOptions::with_vm_tracing();
    assert!(instructions == TransactOptions::new(NoopTracer, ExecutiveVMTracer, NoopExtTracer));
    let nothing = TransactOptions::with_no_tracing();
    assert!(nothing == TransactOptions::new(NoopTracer, NoopVMTracer, NoopExtTracer));
}

#[test]
fn options_are_compared_by_all_parts() {
    let options = TransactOptions::new(1, 2, 3);
    assert!(options == options.clone());
    assert!(options != TransactOptions::new(0, 2, 3));
    assert!(options != TransactOptions::new(1, 0, 3));
    assert!(options != TransactOptions::new(1, 2, 0));
    assert!(options != options.clone().dont_check_nonce());
    assert!(options != options.clone().save_output_from_contract());
}
