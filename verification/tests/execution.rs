//! Executions against a host in memory: accounts with balances, nonces, code and storage, tracers,
//! a built-in contract and a small interpreter for the instructions that the contracts here use.
use ethereum_types::U256 as Number;
use executive::bytes::BytesRef;
use executive::call::CallStage;
use executive::contract_address::{contract_address, CreateContractAddress};
use executive::create::CreateStage;
use executive::executive::Executive;
use executive::hash::{Address, H256};
use executive::options::TransactOptions;
use executive::protocol::{
    Ask, Cleanup, Command, OutputCopy, OutputPolicy, Reply, Subtraces, TraceOutput, VmCall,
};
use executive::transact_protocol::{TransactAsk, TransactReply};
use executive::transaction::{
    Action, Effects, Executed, ExecutionError, SignedTransaction, SubstateSummary,
};
use executive::uint::{U256, U512};
use executive::vm::{
    ActionParams, ActionValue, CallType, CleanDustMode, EnvInfo, FinalizationResult, Machine,
    OasisContract, ParamsType, ReturnData, Schedule, VmError,
};
use std::collections::BTreeMap;
use std::sync::Arc;

// ---------------------------------------------------------------------------------------------
// Values

fn hex_digit(c: u8) -> u8 {
    match c {
        b'0'..=b'9' => c - b'0',
        b'a'..=b'f' => c - b'a' + 10,
        _ => panic!("not a hexadecimal digit"),
    }
}

fn from_hex(text: &str) -> Vec<u8> {
    let digits = text.as_bytes();
    (0..digits.len() / 2)
        .map(|i| hex_digit(digits[2 * i]) * 16 + hex_digit(digits[2 * i + 1]))
        .collect()
}

fn address(text: &str) -> Address {
    let mut bytes = [0u8; 20];
    bytes.copy_from_slice(&from_hex(text));
    Address { bytes }
}

fn word(n: u128) -> U256 {
    U256 { limbs: [n as u64, (n >> 64) as u64, 0, 0] }
}

fn number(w: U256) -> u128 {
    assert_eq!((w.limbs[2], w.limbs[3]), (0, 0));
    (w.limbs[0] as u128) | ((w.limbs[1] as u128) << 64)
}

fn wide(n: u64) -> U512 {
    U512 { limbs: [n, 0, 0, 0, 0, 0, 0, 0] }
}

fn address_as_number(address: &Address) -> Number {
    Number::from(&address.bytes[..])
}

fn number_as_address(n: Number) -> Address {
    let mut buffer = [0u8; 32];
    n.to_big_endian(&mut buffer);
    let mut bytes = [0u8; 20];
    bytes.copy_from_slice(&buffer[12..]);
    Address { bytes }
}

fn default_params() -> ActionParams {
    let zero = Address { bytes: [0; 20] };
    ActionParams {
        code_address: zero,
        code_hash: None,
        address: zero,
        sender: zero,
        origin: zero,
        origin_nonce: word(0),
        gas: word(0),
        gas_price: word(0),
        value: ActionValue::Transfer(word(0)),
        code: None,
        data: None,
        call_type: CallType::Creation,
        params_type: ParamsType::Separate,
        oasis_contract: None,
        aad: None,
    }
}

fn default_info() -> EnvInfo {
    EnvInfo {
        number: 0,
        author: Address { bytes: [0; 20] },
        timestamp: 0,
        gas_used: word(0),
        gas_limit: word(0),
    }
}

const DEFAULT_STORAGE_DURATION: u64 = 3_153_600_000;

fn frontier_machine() -> Machine {
    Machine {
        schedule: Schedule {
            kill_dust: CleanDustMode::Off,
            kill_empty: false,
            no_empty: false,
            suicide_refund_gas: 24_000,
            tx_gas: 21_000,
            default_storage_duration: DEFAULT_STORAGE_DURATION,
        },
        create_address_scheme: CreateContractAddress::FromSenderAndNonce,
    }
}

fn byzantium_machine() -> Machine {
    let mut machine = frontier_machine();
    machine.schedule.kill_empty = true;
    machine.schedule.no_empty = true;
    machine
}

// ---------------------------------------------------------------------------------------------
// Tracers

#[derive(Debug, PartialEq)]
enum TraceAction {
    Call { from: Address, to: Address, value: u128, gas: u128, input: Vec<u8>, call_type: CallType },
    Create { from: Address, value: u128, gas: u128, init: Vec<u8> },
}

#[derive(Debug, PartialEq)]
enum Res {
    Call { gas_used: u128, output: Vec<u8> },
    Create { gas_used: u128, address: Address, code: Vec<u8> },
    FailedCall(VmError),
    FailedCreate(VmError),
}

#[derive(Debug, PartialEq)]
struct FlatTrace {
    trace_address: Vec<usize>,
    subtraces: usize,
    action: TraceAction,
    result: Res,
}

fn push_trace(traces: &mut Vec<FlatTrace>, action: TraceAction, result: Res, subs: Vec<FlatTrace>) {
    let subtraces = subs.iter().filter(|sub| sub.trace_address.is_empty()).count();
    traces.push(FlatTrace { trace_address: vec![], subtraces, action, result });
    let mut top = 0;
    for mut sub in subs {
        if sub.trace_address.is_empty() {
            top += 1;
        }
        sub.trace_address.insert(0, top - 1);
        traces.push(sub);
    }
}

#[derive(Debug, PartialEq)]
struct MemoryDiff {
    offset: usize,
    data: Vec<u8>,
}

#[derive(Debug, PartialEq)]
struct StorageDiff {
    location: Number,
    value: Number,
}

#[derive(Debug, PartialEq)]
struct VMExecutedOperation {
    gas_used: u128,
    stack_push: Vec<Number>,
    mem_diff: Option<MemoryDiff>,
    store_diff: Option<StorageDiff>,
}

#[derive(Debug, PartialEq)]
struct VMOperation {
    pc: usize,
    instruction: u8,
    gas_cost: u128,
    executed: Option<VMExecutedOperation>,
}

#[derive(Debug, PartialEq)]
struct VMTrace {
    parent_step: usize,
    code: Vec<u8>,
    operations: Vec<VMOperation>,
    subs: Vec<VMTrace>,
}

impl VMTrace {
    /// A trace at the top, with one operation so that its subtraces have a parent.
    fn toplevel() -> VMTrace {
        VMTrace {
            parent_step: 0,
            code: vec![],
            operations: vec![VMOperation { pc: 0, instruction: 0, gas_cost: 0, executed: None }],
            subs: vec![],
        }
    }

    fn drain(mut self) -> Option<VMTrace> {
        self.subs.pop()
    }
}

/// An operation that was executed, as the expected traces write it.
fn operation(
    pc: usize,
    instruction: u8,
    gas_cost: u128,
    gas_used: u128,
    stack_push: Vec<Number>,
    mem_diff: Option<MemoryDiff>,
    store_diff: Option<StorageDiff>,
) -> VMOperation {
    VMOperation {
        pc,
        instruction,
        gas_cost,
        executed: Some(VMExecutedOperation { gas_used, stack_push, mem_diff, store_diff }),
    }
}

// ---------------------------------------------------------------------------------------------
// The state

#[derive(Clone, Debug, Default, PartialEq)]
struct Account {
    balance: u128,
    nonce: u64,
    code: Vec<u8>,
    storage: BTreeMap<[u64; 4], Number>,
    storage_expiry: u64,
}

#[derive(Default)]
struct Substate {
    sstore_clears_refund: u128,
    suicides: Vec<Address>,
    contracts_created: Vec<Address>,
}

struct World {
    accounts: BTreeMap<[u8; 20], Account>,
    checkpoints: Vec<BTreeMap<[u8; 20], Account>>,
    max_depth: usize,
    byzantium: bool,
}

impl World {
    fn new(max_depth: usize, byzantium: bool) -> World {
        World { accounts: BTreeMap::new(), checkpoints: vec![], max_depth, byzantium }
    }

    fn account(&mut self, address: &Address) -> &mut Account {
        self.accounts.entry(address.bytes).or_default()
    }

    fn is_known(&self, address: &Address) -> bool {
        self.accounts.contains_key(&address.bytes)
    }

    fn balance(&self, address: &Address) -> u128 {
        self.accounts.get(&address.bytes).map_or(0, |account| account.balance)
    }

    fn nonce(&self, address: &Address) -> u64 {
        self.accounts.get(&address.bytes).map_or(0, |account| account.nonce)
    }

    fn storage_at(&self, address: &Address, key: u64) -> Number {
        self.accounts
            .get(&address.bytes)
            .and_then(|account| account.storage.get(&Number::from(key).0).cloned())
            .unwrap_or_default()
    }

    fn add_balance(&mut self, address: &Address, value: u128) {
        self.account(address).balance += value;
    }

    fn sub_balance(&mut self, address: &Address, value: u128) {
        let account = self.account(address);
        account.balance = account.balance.checked_sub(value).expect("enough balance");
    }

    fn new_contract(&mut self, address: &Address, balance: u128, nonce: u64, storage_expiry: u64) {
        let fresh = Account { balance, nonce, storage_expiry, ..Account::default() };
        self.accounts.insert(address.bytes, fresh);
    }
}

// ---------------------------------------------------------------------------------------------
// The host of one call or creation

struct Frame {
    action: Option<TraceAction>,
    trace_output: Option<Vec<u8>>,
    subtraces: Vec<FlatTrace>,
    vm_trace: Option<VMTrace>,
    unconfirmed: Substate,
}

fn bytes_of(bytes: &Option<Arc<Vec<u8>>>) -> Vec<u8> {
    bytes.as_ref().map_or(vec![], |bytes| bytes.to_vec())
}

/// Copies returned data to where it has to go.
fn copy_output(prepared: &mut Option<Vec<u8>>, copy: OutputCopy, data: &Vec<u8>) -> OutputCopy {
    match copy {
        OutputCopy::Record(_) => OutputCopy::Record(data.clone()),
        OutputCopy::Prepared => {
            if let Some(traced) = prepared.as_mut() {
                *traced = data.clone();
            }
            OutputCopy::Prepared
        }
    }
}

impl Frame {
    fn new() -> Frame {
        Frame {
            action: None,
            trace_output: None,
            subtraces: vec![],
            vm_trace: None,
            unconfirmed: Substate::default(),
        }
    }

    fn traced_output(&mut self, output: TraceOutput) -> Vec<u8> {
        let prepared = self.trace_output.take().expect("output was prepared");
        match output {
            TraceOutput::Prepared => prepared,
            TraceOutput::Bytes(bytes) => bytes,
        }
    }

    fn drained(&mut self, traces: Subtraces) -> Vec<FlatTrace> {
        match traces {
            Subtraces::Nothing => vec![],
            Subtraces::Drained => std::mem::take(&mut self.subtraces),
        }
    }

    fn carry_out(
        &mut self,
        world: &mut World,
        commands: Vec<Command>,
        substate: &mut Substate,
        traces: &mut Vec<FlatTrace>,
        vm_trace: &mut VMTrace,
    ) {
        for command in commands {
            match command {
                Command::Checkpoint => {
                    let saved = world.accounts.clone();
                    world.checkpoints.push(saved);
                }
                Command::RevertToCheckpoint => {
                    world.accounts = world.checkpoints.pop().expect("a checkpoint");
                }
                Command::DiscardCheckpoint => {
                    world.checkpoints.pop().expect("a checkpoint");
                }
                Command::NewSubstate => *substate = Substate::default(),
                Command::NewUnconfirmedSubstate => self.unconfirmed = Substate::default(),
                Command::AccrueSubstate => {
                    substate.sstore_clears_refund += self.unconfirmed.sstore_clears_refund;
                    substate.suicides.append(&mut self.unconfirmed.suicides);
                    substate.contracts_created.append(&mut self.unconfirmed.contracts_created);
                }
                Command::NewContract { address, balance, nonce_offset, storage_expiry } => {
                    world.new_contract(
                        &address,
                        number(balance),
                        number(nonce_offset) as u64,
                        storage_expiry,
                    );
                }
                Command::KillAccount(address) => {
                    world.accounts.remove(&address.bytes);
                }
                Command::PrepareTraceCall(params) => {
                    self.action = Some(TraceAction::Call {
                        from: params.sender,
                        to: params.address,
                        value: number(params.value.value()),
                        gas: number(params.gas),
                        input: bytes_of(&params.data),
                        call_type: params.call_type,
                    });
                }
                Command::PrepareTraceCreate(params) => {
                    self.action = Some(TraceAction::Create {
                        from: params.sender,
                        value: number(params.value.value()),
                        gas: number(params.gas),
                        init: bytes_of(&params.code),
                    });
                }
                Command::PrepareTraceOutput => self.trace_output = Some(vec![]),
                Command::Subtracer => self.subtraces = vec![],
                Command::PrepareSubtrace(code) => {
                    self.vm_trace = Some(VMTrace {
                        parent_step: vm_trace.operations.len() - 1,
                        code: code.to_vec(),
                        operations: vec![],
                        subs: vec![],
                    });
                }
                Command::ExtSubtracer(_) => {}
                Command::DoneSubtrace => {
                    vm_trace.subs.push(self.vm_trace.take().expect("a subtrace"));
                }
                Command::TraceCall { gas_used, output, traces: subs } => {
                    let output = self.traced_output(output);
                    let result = Res::Call { gas_used: number(gas_used), output };
                    let subs = self.drained(subs);
                    push_trace(traces, self.action.take().expect("an action"), result, subs);
                }
                Command::TraceFailedCall { error, traces: subs } => {
                    let subs = self.drained(subs);
                    let action = self.action.take().expect("an action");
                    push_trace(traces, action, Res::FailedCall(error), subs);
                }
                Command::TraceCreate { gas_used, output, address, traces: subs } => {
                    let code = self.traced_output(output);
                    let result = Res::Create { gas_used: number(gas_used), address, code };
                    let subs = self.drained(subs);
                    push_trace(traces, self.action.take().expect("an action"), result, subs);
                }
                Command::TraceFailedCreate { error, traces: subs } => {
                    let subs = self.drained(subs);
                    let action = self.action.take().expect("an action");
                    push_trace(traces, action, Res::FailedCreate(error), subs);
                }
            }
        }
    }

    fn answer(&mut self, world: &mut World, executive: &Executive, ask: Ask) -> Reply {
        match ask {
            Ask::StorageExpiry(address) => Reply::Time(Ok(world.account(&address).storage_expiry)),
            Ask::TransferBalance { from, to, value, cleanup } => {
                assert_eq!(cleanup, Cleanup::OfSubstate);
                world.sub_balance(&from, number(value));
                world.add_balance(&to, number(value));
                Reply::Unit(Ok(()))
            }
            Ask::Builtin { address, .. } => {
                let low = address.bytes[..19].iter().all(|byte| *byte == 0);
                Reply::Builtin(if low && address.bytes[19] == 3 { Some(true) } else { None })
            }
            Ask::BuiltinCost { data } => {
                Reply::Cost(word(600 + 120 * ((data.len() as u128 + 31) / 32)))
            }
            Ask::BuiltinExecute { data } => {
                assert!(data.is_empty());
                let mut hash = vec![0u8; 12];
                hash.append(&mut from_hex("9c1185a5c5e9fc54612808977ee8f548b2258d31"));
                Reply::BuiltinOutput(Ok(hash))
            }
            Ask::ExecVm(call) => self.execute(world, executive, call),
            Ask::ExistsAndHasCodeOrNonce(address) => {
                let taken = world
                    .accounts
                    .get(&address.bytes)
                    .map_or(false, |account| account.nonce != 0 || !account.code.is_empty());
                Reply::Flag(Ok(taken))
            }
            Ask::Balance(address) => Reply::Amount(Ok(word(world.balance(&address)))),
            Ask::SubBalance { address, value, cleanup } => {
                assert_eq!(cleanup, Cleanup::OfSubstate);
                world.sub_balance(&address, number(value));
                Reply::Unit(Ok(()))
            }
        }
    }

    /// Executes code and hands its output on.
    fn execute(&mut self, world: &mut World, executive: &Executive, call: VmCall) -> Reply {
        let VmCall { info, machine, params, depth, static_flag, output } = call;
        assert_eq!(depth, executive.depth);
        let inner = Executive { info, machine, depth, static_flag };
        let address = params.address;
        let mut vm = Vm {
            world,
            executive: inner,
            code: bytes_of(&params.code),
            params,
            stack: vec![],
            memory: vec![],
            gas: 0,
        };
        let ended = vm.run(
            &mut self.unconfirmed,
            &mut self.subtraces,
            self.vm_trace.as_mut().expect("a subtrace"),
        );
        match ended {
            Err(error) => Reply::Vm { result: Err(error), output },
            Ok(Ended { gas_left, data: None, .. }) => Reply::Vm {
                result: Ok(FinalizationResult {
                    gas_left: word(gas_left),
                    return_data: ReturnData { mem: vec![], offset: 0, size: 0 },
                    apply_state: true,
                }),
                output,
            },
            Ok(Ended { gas_left, data: Some(data), apply_state }) => {
                let mut gas_left = gas_left;
                let output = match output {
                    OutputPolicy::Return(buffer, copy) => {
                        let copy = copy_output(&mut self.trace_output, copy, &data);
                        let buffer = match buffer {
                            BytesRef::Flexible(_) => BytesRef::Flexible(data.clone()),
                            BytesRef::Fixed(mut slice) => {
                                let len = slice.len().min(data.len());
                                slice[..len].copy_from_slice(&data[..len]);
                                BytesRef::Fixed(slice)
                            }
                        };
                        OutputPolicy::Return(buffer, copy)
                    }
                    OutputPolicy::InitContract(copy) if apply_state => {
                        gas_left -= data.len() as u128;
                        vm.world.account(&address).code = data.clone();
                        let copy = copy_output(&mut self.trace_output, copy, &data);
                        OutputPolicy::InitContract(copy)
                    }
                    other => other,
                };
                let size = data.len();
                Reply::Vm {
                    result: Ok(FinalizationResult {
                        gas_left: word(gas_left),
                        return_data: ReturnData { mem: data, offset: 0, size },
                        apply_state,
                    }),
                    output,
                }
            }
        }
    }
}

type ActionEnd = Result<FinalizationResult, VmError>;

fn drive_call(
    world: &mut World,
    executive: &Executive,
    params: ActionParams,
    output: BytesRef,
    substate: &mut Substate,
    traces: &mut Vec<FlatTrace>,
    vm_trace: &mut VMTrace,
) -> (ActionEnd, BytesRef) {
    let mut frame = Frame::new();
    let (mut run, mut commands) = executive.call(params, output);
    loop {
        frame.carry_out(world, commands, substate, traces, vm_trace);
        match run.ask() {
            Some(ask) => {
                let reply = frame.answer(world, executive, ask);
                assert!(run.takes(&reply));
                let (later, more) = run.resume(reply);
                run = later;
                commands = more;
            }
            None => match run.stage {
                CallStage::Done(result) => return (result, run.output),
                _ => unreachable!(),
            },
        }
    }
}

fn drive_create(
    world: &mut World,
    executive: &Executive,
    params: ActionParams,
    output: Option<Vec<u8>>,
    substate: &mut Substate,
    traces: &mut Vec<FlatTrace>,
    vm_trace: &mut VMTrace,
) -> (ActionEnd, Option<Vec<u8>>) {
    let mut frame = Frame::new();
    let mut run = executive.create(params, output);
    while let Some(ask) = run.ask() {
        let reply = frame.answer(world, executive, ask);
        assert!(run.takes(&reply));
        let (later, commands) = run.resume(reply);
        run = later;
        frame.carry_out(world, commands, substate, traces, vm_trace);
    }
    match run.stage {
        CreateStage::Done(result) => (result, run.output),
        _ => unreachable!(),
    }
}

// ---------------------------------------------------------------------------------------------
// The interpreter

struct Ended {
    gas_left: u128,
    data: Option<Vec<u8>>,
    apply_state: bool,
}

struct Vm<'a> {
    world: &'a mut World,
    executive: Executive,
    code: Vec<u8>,
    params: ActionParams,
    stack: Vec<Number>,
    memory: Vec<u8>,
    gas: u128,
}

impl<'a> Vm<'a> {
    fn pop(&mut self) -> Number {
        self.stack.pop().expect("a stack item")
    }

    /// The gas for memory up to `end`, which is then there.
    fn expansion(&mut self, offset: Number, size: Number) -> Result<u128, VmError> {
        if size.is_zero() {
            return Ok(0);
        }
        let end = offset + size;
        if end > Number::from(1_000_000) {
            return Err(VmError::OutOfGas);
        }
        let words = (end.as_u64() as usize + 31) / 32;
        let cost = |words: usize| (3 * words + words * words / 512) as u128;
        let extra = cost(words).saturating_sub(cost(self.memory.len() / 32));
        if words * 32 > self.memory.len() {
            self.memory.resize(words * 32, 0);
        }
        Ok(extra)
    }

    fn run(
        &mut self,
        substate: &mut Substate,
        traces: &mut Vec<FlatTrace>,
        vm_trace: &mut VMTrace,
    ) -> Result<Ended, VmError> {
        self.gas = number(self.params.gas);
        let mut pc = 0;
        while pc < self.code.len() {
            let at = pc;
            let instruction = self.code[pc];
            pc += 1;
            let peek = |depth: usize, stack: &Vec<Number>| stack[stack.len() - 1 - depth];
            // The cost, and the gas that goes to a call or a creation.
            let (cost, provided) = match instruction {
                0x01 | 0x54 | 0x60..=0x7f | 0x80 => {
                    (if instruction == 0x54 { 50 } else { 3 }, 0)
                }
                0x20 => {
                    let (offset, size) = (peek(0, &self.stack), peek(1, &self.stack));
                    (30 + self.expansion(offset, size)?, 0)
                }
                0x30 | 0x33 | 0x50 => (2, 0),
                0x31 => (20, 0),
                0x39 => {
                    let (offset, size) = (peek(0, &self.stack), peek(2, &self.stack));
                    let words = (size.as_u64() as u128 + 31) / 32;
                    (3 + 3 * words + self.expansion(offset, size)?, 0)
                }
                0x52 => {
                    let offset = peek(0, &self.stack);
                    (3 + self.expansion(offset, Number::from(32))?, 0)
                }
                0x55 => {
                    let (key, value) = (peek(0, &self.stack), peek(1, &self.stack));
                    let present = self.world.storage_at(&self.params.address, key.as_u64());
                    (if present.is_zero() && !value.is_zero() { 20_000 } else { 5_000 }, 0)
                }
                0xf0 => {
                    let (offset, size) = (peek(1, &self.stack), peek(2, &self.stack));
                    let cost = 32_000 + self.expansion(offset, size)?;
                    let rest = self.gas.checked_sub(cost).ok_or(VmError::OutOfGas)?;
                    (cost, if self.world.byzantium { rest - rest / 64 } else { rest })
                }
                0xf1 => {
                    let (requested, to) = (peek(0, &self.stack), peek(1, &self.stack));
                    let value = peek(2, &self.stack);
                    let known = self.world.is_known(&number_as_address(to));
                    let cost = 700
                        + if value.is_zero() { 0 } else { 9_000 }
                        + if value.is_zero() || known { 0 } else { 25_000 };
                    let rest = self.gas.checked_sub(cost).ok_or(VmError::OutOfGas)?;
                    (cost, (rest - rest / 64).min(requested.as_u64() as u128))
                }
                0xf3 | 0xfd => {
                    let (offset, size) = (peek(0, &self.stack), peek(1, &self.stack));
                    (self.expansion(offset, size)?, 0)
                }
                _ => return Err(VmError::BadInstruction { instruction }),
            };
            let gas_cost = cost + provided;
            vm_trace.operations.push(VMOperation { pc: at, instruction, gas_cost, executed: None });
            self.gas = self.gas.checked_sub(gas_cost).ok_or(VmError::OutOfGas)?;
            let mut pushed = 1;
            let mut mem_diff = None;
            let mut store_diff = None;
            let mut ended = None;
            match instruction {
                0x01 => {
                    let sum = self.pop() + self.pop();
                    self.stack.push(sum);
                }
                0x20 => panic!("no contract here hashes within its gas"),
                0x30 => self.stack.push(address_as_number(&self.params.address)),
                0x31 => {
                    let account = number_as_address(self.pop());
                    self.stack.push(Number::from(self.world.balance(&account) as u64));
                }
                0x33 => self.stack.push(address_as_number(&self.params.sender)),
                0x39 => {
                    let (to, from, size) = (self.pop(), self.pop(), self.pop());
                    let (to, from) = (to.as_u64() as usize, from.as_u64() as usize);
                    let size = size.as_u64() as usize;
                    for i in 0..size {
                        self.memory[to + i] = self.code.get(from + i).cloned().unwrap_or(0);
                    }
                    let data = self.memory[to..to + size].to_vec();
                    mem_diff = Some(MemoryDiff { offset: to, data });
                    pushed = 0;
                }
                0x50 => {
                    self.pop();
                    pushed = 0;
                }
                0x52 => {
                    let (offset, value) = (self.pop().as_u64() as usize, self.pop());
                    value.to_big_endian(&mut self.memory[offset..offset + 32]);
                    let data = self.memory[offset..offset + 32].to_vec();
                    mem_diff = Some(MemoryDiff { offset, data });
                    pushed = 0;
                }
                0x54 => {
                    let key = self.pop();
                    let value = self.world.storage_at(&self.params.address, key.as_u64());
                    self.stack.push(value);
                }
                0x55 => {
                    let (location, value) = (self.pop(), self.pop());
                    assert!(!self.executive.static_flag);
                    let own = self.params.address;
                    self.world.account(&own).storage.insert(location.0, value);
                    store_diff = Some(StorageDiff { location, value });
                    pushed = 0;
                }
                0x60..=0x7f => {
                    let len = (instruction - 0x5f) as usize;
                    self.stack.push(Number::from(&self.code[pc..pc + len]));
                    pc += len;
                }
                0x80 => {
                    let top = peek(0, &self.stack);
                    self.stack.push(top);
                    pushed = 2;
                }
                0xf0 => self.create(provided, substate, traces, vm_trace),
                0xf1 => self.call(provided, substate, traces, vm_trace),
                0xf3 | 0xfd => {
                    let (offset, size) = (self.pop().as_u64() as usize, self.pop().as_u64());
                    let data = self.memory[offset..offset + size as usize].to_vec();
                    ended = Some((data, instruction == 0xf3));
                    pushed = 0;
                }
                _ => unreachable!(),
            }
            let stack_push = self.stack[self.stack.len() - pushed..].to_vec();
            let step = vm_trace.operations.last_mut().expect("the operation");
            step.executed =
                Some(VMExecutedOperation { gas_used: self.gas, stack_push, mem_diff, store_diff });
            if let Some((data, apply_state)) = ended {
                return Ok(Ended { gas_left: self.gas, data: Some(data), apply_state });
            }
        }
        Ok(Ended { gas_left: self.gas, data: None, apply_state: true })
    }

    fn child(&self) -> Executive {
        Executive::from_parent(
            self.executive.info,
            self.executive.machine,
            self.executive.depth,
            self.executive.static_flag,
        )
    }

    fn create(
        &mut self,
        provided: u128,
        substate: &mut Substate,
        traces: &mut Vec<FlatTrace>,
        vm_trace: &mut VMTrace,
    ) {
        let (value, offset, size) = (self.pop(), self.pop(), self.pop());
        let value = value.as_u64() as u128;
        let own = self.params.address;
        let (offset, size) = (offset.as_u64() as usize, size.as_u64() as usize);
        let code = self.memory[offset..offset + size].to_vec();
        if self.world.balance(&own) < value || self.executive.depth >= self.world.max_depth {
            self.gas += provided;
            self.stack.push(Number::zero());
            return;
        }
        let nonce = word(self.world.nonce(&own) as u128);
        let (new_address, code_hash) = contract_address(
            self.executive.machine.create_address_scheme,
            &own,
            &nonce,
            &code,
        );
        self.world.account(&own).nonce += 1;
        let params = ActionParams {
            code_address: new_address,
            address: new_address,
            sender: own,
            origin: self.params.origin,
            origin_nonce: self.params.origin_nonce,
            gas: word(provided),
            gas_price: self.params.gas_price,
            value: ActionValue::Transfer(word(value)),
            code: Some(Arc::new(code)),
            code_hash,
            data: None,
            call_type: CallType::Creation,
            params_type: ParamsType::Embedded,
            oasis_contract: None,
            aad: None,
        };
        let child = self.child();
        let (result, _) =
            drive_create(self.world, &child, params, None, substate, traces, vm_trace);
        match result {
            Ok(finished) => {
                self.gas += number(finished.gas_left);
                if finished.apply_state {
                    substate.contracts_created.push(new_address);
                    self.stack.push(address_as_number(&new_address));
                } else {
                    self.stack.push(Number::zero());
                }
            }
            Err(_) => self.stack.push(Number::zero()),
        }
    }

    fn call(
        &mut self,
        provided: u128,
        substate: &mut Substate,
        traces: &mut Vec<FlatTrace>,
        vm_trace: &mut VMTrace,
    ) {
        let (_, to, value) = (self.pop(), self.pop(), self.pop());
        let (in_offset, in_size) = (self.pop().as_u64() as usize, self.pop().as_u64() as usize);
        let (_, out_size) = (self.pop(), self.pop().as_u64() as usize);
        let to = number_as_address(to);
        let value = value.as_u64() as u128;
        let code = match self.world.accounts.get(&to.bytes) {
            Some(account) => Some(Arc::new(account.code.clone())),
            None => None,
        };
        let params = ActionParams {
            code_address: to,
            address: to,
            sender: self.params.address,
            origin: self.params.origin,
            origin_nonce: self.params.origin_nonce,
            gas: word(provided + if value == 0 { 0 } else { 2_300 }),
            gas_price: self.params.gas_price,
            value: ActionValue::Transfer(word(value)),
            code,
            code_hash: None,
            data: Some(Arc::new(self.memory[in_offset..in_offset + in_size].to_vec())),
            call_type: CallType::Call,
            params_type: ParamsType::Separate,
            oasis_contract: None,
            aad: None,
        };
        let child = self.child();
        let output = BytesRef::Fixed(vec![0; out_size]);
        let (result, _) =
            drive_call(self.world, &child, params, output, substate, traces, vm_trace);
        match result {
            Ok(finished) => {
                self.gas += number(finished.gas_left);
                self.stack.push(Number::from(if finished.apply_state { 1 } else { 0 }));
            }
            Err(_) => self.stack.push(Number::zero()),
        }
    }
}

// ---------------------------------------------------------------------------------------------
// Transactions

fn gas_required(world: &World, transaction: &SignedTransaction) -> u64 {
    let base = match transaction.action {
        Action::Create if world.byzantium => 53_000,
        _ => 21_000,
    };
    transaction.data.iter().fold(base, |gas, byte| gas + if *byte == 0 { 4 } else { 68 })
}

fn drive_transaction<T, V, X>(
    world: &mut World,
    executive: &Executive,
    transaction: &SignedTransaction,
    options: &TransactOptions<T, V, X>,
    virtually: bool,
) -> Result<Executed<FlatTrace, VMTrace>, ExecutionError> {
    let mut frame = Frame::new();
    let mut substate = Substate::default();
    let mut traces = vec![];
    let mut vm_trace = VMTrace::toplevel();
    let mut run = if virtually {
        executive.transact_virtual(transaction, options)
    } else {
        executive.transact(transaction, options)
    };
    while let Some(ask) = run.ask() {
        let reply = match ask {
            TransactAsk::Nonce(account) => {
                TransactReply::Amount(Ok(word(world.nonce(&account) as u128)))
            }
            TransactAsk::OasisContract => TransactReply::Oasis(Ok(None)),
            TransactAsk::GasRequired { .. } => TransactReply::Gas(gas_required(world, transaction)),
            TransactAsk::Exists(account) => TransactReply::Flag(Ok(world.is_known(&account))),
            TransactAsk::Balance(account) => {
                TransactReply::Amount(Ok(word(world.balance(&account))))
            }
            TransactAsk::AddBalance { address, value, .. } => {
                world.add_balance(&address, number(value));
                TransactReply::Unit(Ok(()))
            }
            TransactAsk::SubBalance { address, value, cleanup } => {
                assert_eq!(cleanup, Cleanup::OfSubstate);
                world.sub_balance(&address, number(value));
                TransactReply::Unit(Ok(()))
            }
            TransactAsk::IncNonce(account) => {
                world.account(&account).nonce += 1;
                TransactReply::Unit(Ok(()))
            }
            TransactAsk::Code(account) => {
                let code = world.accounts.get(&account.bytes);
                TransactReply::Code(Ok(code.map(|account| Arc::new(account.code.clone()))))
            }
            TransactAsk::CodeHash(_) => TransactReply::Hash(Ok(H256 { bytes: [7; 32] })),
            TransactAsk::Act(ask) => TransactReply::Act(frame.answer(world, executive, ask)),
            TransactAsk::Substate => TransactReply::Substate(SubstateSummary {
                sstore_clears_refund: word(substate.sstore_clears_refund),
                suicides: std::mem::take(&mut substate.suicides),
                effects: Effects {
                    logs: vec![],
                    contracts_created: std::mem::take(&mut substate.contracts_created),
                },
            }),
            TransactAsk::Touched => TransactReply::Touched(Arc::new(vec![])),
            TransactAsk::KillGarbage { .. } => TransactReply::Unit(Ok(())),
        };
        assert!(run.takes(&reply));
        let (later, commands) = run.resume(reply);
        run = later;
        frame.carry_out(world, commands, &mut substate, &mut traces, &mut vm_trace);
    }
    run.conclude(traces, vm_trace.drain()).expect("the transaction is over")
}

// ---------------------------------------------------------------------------------------------
// Contracts

fn address_of(sender: &Address, nonce: u128) -> Address {
    contract_address(CreateContractAddress::FromSenderAndNonce, sender, &word(nonce), &[]).0
}

/// Code that creates a contract by copying what follows it.
const COPYING: &str = "601080600c6000396000f3006000355415600957005b60203560003555";

fn copied() -> Vec<u8> {
    vec![96, 0, 53, 84, 21, 96, 9, 87, 0, 91, 96, 32, 53, 96, 0, 53]
}

#[test]
fn test_sender_balance() {
    let sender = address("0f572e5295c57f15886f9b263e2f6d2d6c7b5ec6");
    let address = address_of(&sender, 0);
    let mut params = default_params();
    params.address = address;
    params.sender = sender;
    params.gas = word(100_000);
    params.code = Some(Arc::new(from_hex("3331600055")));
    params.value = ActionValue::Transfer(word(0x7));
    let mut world = World::new(0, false);
    world.add_balance(&sender, 0x100);
    let executive = Executive::new(default_info(), frontier_machine());
    let mut substate = Substate::default();

    let (result, _) = drive_create(
        &mut world,
        &executive,
        params,
        None,
        &mut substate,
        &mut vec![],
        &mut VMTrace::toplevel(),
    );

    assert_eq!(result.unwrap().gas_left, word(79_975));
    assert_eq!(world.storage_at(&address, 0), Number::from(0xf9));
    assert_eq!(world.balance(&sender), 0xf9);
    assert_eq!(world.balance(&address), 0x7);
    assert_eq!(substate.contracts_created.len(), 0);
}

/// Creates the contract of the code with a gas of 100000 and a value of 100.
fn create_with(code: &str, max_depth: usize) -> (World, ActionEnd, Substate, Address) {
    let sender = address("cd1722f3947def4cf144679da39c4c32bdc35681");
    let address = address_of(&sender, 0);
    let mut params = default_params();
    params.address = address;
    params.sender = sender;
    params.origin = sender;
    params.gas = word(100_000);
    params.code = Some(Arc::new(from_hex(code)));
    params.value = ActionValue::Transfer(word(100));
    let mut world = World::new(max_depth, false);
    world.add_balance(&sender, 100);
    let executive = Executive::new(default_info(), frontier_machine());
    let mut substate = Substate::default();
    let (result, _) = drive_create(
        &mut world,
        &executive,
        params,
        None,
        &mut substate,
        &mut vec![],
        &mut VMTrace::toplevel(),
    );
    (world, result, substate, address)
}

#[test]
fn test_create_contract_out_of_depth() {
    let (_, result, substate, _) = create_with(
        "7c601080600c6000396000f3006000355415600957005b60203560003555600052601d60036017f0600055",
        0,
    );
    assert_eq!(result.unwrap().gas_left, word(62_976));
    assert_eq!(substate.contracts_created.len(), 0);
}

#[test]
fn test_create_contract_value_too_high() {
    let (_, result, substate, _) = create_with(
        "7c601080600c6000396000f3006000355415600957005b60203560003555600052601d600360e6f0600055",
        0,
    );
    assert_eq!(result.unwrap().gas_left, word(62_976));
    assert_eq!(substate.contracts_created.len(), 0);
}

#[test]
fn test_create_contract_without_max_depth() {
    let (_, result, substate, address) = create_with(
        "7c601080600c6000396000f3006000355415600957005b60203560003555600052601d60036017f0",
        1024,
    );
    assert!(result.is_ok());
    assert_eq!(substate.contracts_created.len(), 1);
    assert_eq!(substate.contracts_created[0], address_of(&address, 0));
}

#[test]
fn test_call_to_precompiled_tracing() {
    let code = from_hex("60006000600060006001600361fffff1");
    let sender = address("4444444444444444444444444444444444444444");
    let receiver = address("5555555555555555555555555555555555555555");

    let mut params = default_params();
    params.address = receiver;
    params.code_address = receiver;
    params.sender = sender;
    params.origin = sender;
    params.gas = word(100_000);
    params.code = Some(Arc::new(code));
    params.value = ActionValue::Transfer(word(100));
    params.call_type = CallType::Call;
    let mut world = World::new(5, true);
    world.add_balance(&sender, 100);
    let executive = Executive::new(default_info(), byzantium_machine());
    let mut traces = vec![];
    let (result, _) = drive_call(
        &mut world,
        &executive,
        params,
        BytesRef::Fixed(vec![]),
        &mut Substate::default(),
        &mut traces,
        &mut VMTrace::toplevel(),
    );
    assert!(result.is_ok());

    assert_eq!(
        traces,
        vec![
            FlatTrace {
                action: TraceAction::Call {
                    from: address("4444444444444444444444444444444444444444"),
                    to: address("5555555555555555555555555555555555555555"),
                    value: 100,
                    gas: 100_000,
                    input: vec![],
                    call_type: CallType::Call,
                },
                result: Res::Call { gas_used: 33021, output: vec![] },
                subtraces: 1,
                trace_address: vec![],
            },
            FlatTrace {
                action: TraceAction::Call {
                    from: address("5555555555555555555555555555555555555555"),
                    to: address("0000000000000000000000000000000000000003"),
                    value: 1,
                    gas: 66560,
                    input: vec![],
                    call_type: CallType::Call,
                },
                result: Res::Call { gas_used: 600, output: vec![] },
                subtraces: 0,
                trace_address: vec![0],
            },
        ]
    );
    assert_eq!(world.balance(&receiver), 99);
    assert_eq!(world.balance(&address("0000000000000000000000000000000000000003")), 1);
}

#[test]
fn test_call_to_create() {
    let code = from_hex(
        "7c601080600c6000396000f3006000355415600957005b60203560003555600052601d60036017f0600055",
    );
    let sender = address("cd1722f3947def4cf144679da39c4c32bdc35681");
    let receiver = address_of(&sender, 0);
    let mut params = default_params();
    params.address = receiver;
    params.code_address = receiver;
    params.sender = sender;
    params.origin = sender;
    params.gas = word(100_000);
    params.code = Some(Arc::new(code));
    params.value = ActionValue::Transfer(word(100));
    params.call_type = CallType::Call;
    let mut world = World::new(5, false);
    world.add_balance(&sender, 100);
    let info = default_info();
    world.new_contract(&receiver, 0, 0, info.timestamp + DEFAULT_STORAGE_DURATION);
    let executive = Executive::new(info, frontier_machine());
    let mut traces = vec![];
    let mut vm_trace = VMTrace::toplevel();
    let (result, _) = drive_call(
        &mut world,
        &executive,
        params,
        BytesRef::Fixed(vec![]),
        &mut Substate::default(),
        &mut traces,
        &mut vm_trace,
    );

    assert_eq!(result.unwrap().gas_left, word(47_936));

    let expected_trace = vec![
        FlatTrace {
            trace_address: vec![],
            subtraces: 1,
            action: TraceAction::Call {
                from: address("cd1722f3947def4cf144679da39c4c32bdc35681"),
                to: address("b010143a42d5980c7e5ef0e4a4416dc098a4fed3"),
                value: 100,
                gas: 100000,
                input: vec![],
                call_type: CallType::Call,
            },
            result: Res::Call { gas_used: 52_064, output: vec![] },
        },
        FlatTrace {
            trace_address: vec![0],
            subtraces: 0,
            action: TraceAction::Create {
                from: address("b010143a42d5980c7e5ef0e4a4416dc098a4fed3"),
                value: 23,
                gas: 67979,
                init: vec![
                    96, 16, 128, 96, 12, 96, 0, 57, 96, 0, 243, 0, 96, 0, 53, 84, 21, 96, 9, 87, 0,
                    91, 96, 32, 53, 96, 0, 53, 85,
                ],
            },
            result: Res::Create {
                gas_used: 40,
                address: address("c6d80f262ae5e0f164e5fde365044d7ada2bfa34"),
                code: vec![96, 0, 53, 84, 21, 96, 9, 87, 0, 91, 96, 32, 53, 96, 0, 53],
            },
        },
    ];
    assert_eq!(traces, expected_trace);

    let n = |value: u64| Number::from(value);
    let big = |text: &str| Number::from_dec_str(text).unwrap();
    let created = "1135198453258042933984631383966629874710669425204";
    let expected_vm_trace = VMTrace {
        parent_step: 0,
        code: vec![
            124, 96, 16, 128, 96, 12, 96, 0, 57, 96, 0, 243, 0, 96, 0, 53, 84, 21, 96, 9, 87, 0, 91,
            96, 32, 53, 96, 0, 53, 85, 96, 0, 82, 96, 29, 96, 3, 96, 23, 240, 96, 0, 85,
        ],
        operations: vec![
            operation(
                0,
                124,
                3,
                99997,
                vec![big("2589892687202724018173567190521546555304938078595079151649957320078677")],
                None,
                None,
            ),
            operation(30, 96, 3, 99994, vec![n(0)], None, None),
            operation(
                32,
                82,
                6,
                99988,
                vec![],
                Some(MemoryDiff {
                    offset: 0,
                    data: vec![
                        0, 0, 0, 96, 16, 128, 96, 12, 96, 0, 57, 96, 0, 243, 0, 96, 0, 53, 84, 21,
                        96, 9, 87, 0, 91, 96, 32, 53, 96, 0, 53, 85,
                    ],
                }),
                None,
            ),
            operation(33, 96, 3, 99985, vec![n(29)], None, None),
            operation(35, 96, 3, 99982, vec![n(3)], None, None),
            operation(37, 96, 3, 99979, vec![n(23)], None, None),
            operation(39, 240, 99979, 67939, vec![big(created)], None, None),
            operation(40, 96, 3, 67936, vec![n(0)], None, None),
            operation(
                42,
                85,
                20000,
                47936,
                vec![],
                None,
                Some(StorageDiff { location: n(0), value: big(created) }),
            ),
        ],
        subs: vec![VMTrace {
            parent_step: 6,
            code: vec![
                96, 16, 128, 96, 12, 96, 0, 57, 96, 0, 243, 0, 96, 0, 53, 84, 21, 96, 9, 87, 0, 91,
                96, 32, 53, 96, 0, 53, 85,
            ],
            operations: vec![
                operation(0, 96, 3, 67976, vec![n(16)], None, None),
                operation(2, 128, 3, 67973, vec![n(16), n(16)], None, None),
                operation(3, 96, 3, 67970, vec![n(12)], None, None),
                operation(5, 96, 3, 67967, vec![n(0)], None, None),
                operation(
                    7,
                    57,
                    9,
                    67958,
                    vec![],
                    Some(MemoryDiff {
                        offset: 0,
                        data: vec![96, 0, 53, 84, 21, 96, 9, 87, 0, 91, 96, 32, 53, 96, 0, 53],
                    }),
                    None,
                ),
                operation(8, 96, 3, 67955, vec![n(0)], None, None),
                operation(10, 243, 0, 67955, vec![], None, None),
            ],
            subs: vec![],
        }],
    };
    assert_eq!(vm_trace.drain().unwrap(), expected_vm_trace);
}

#[test]
fn test_trace_reverted_create() {
    let code = from_hex("6460016000fd6000526005601b6017f0600055");
    let sender = address("cd1722f3947def4cf144679da39c4c32bdc35681");
    let receiver = address_of(&sender, 0);
    let mut params = default_params();
    params.address = receiver;
    params.code_address = receiver;
    params.sender = sender;
    params.origin = sender;
    params.gas = word(100_000);
    params.code = Some(Arc::new(code));
    params.value = ActionValue::Transfer(word(100));
    params.call_type = CallType::Call;
    let mut world = World::new(1024, true);
    world.add_balance(&sender, 100);
    let info = default_info();
    world.new_contract(&receiver, 0, 0, info.timestamp + DEFAULT_STORAGE_DURATION);
    let executive = Executive::new(info, byzantium_machine());
    let mut traces = vec![];
    let mut substate = Substate::default();
    let (result, _) = drive_call(
        &mut world,
        &executive,
        params,
        BytesRef::Fixed(vec![]),
        &mut substate,
        &mut traces,
        &mut VMTrace::toplevel(),
    );

    assert_eq!(result.unwrap().gas_left, word(62967));

    let expected_trace = vec![
        FlatTrace {
            trace_address: vec![],
            subtraces: 1,
            action: TraceAction::Call {
                from: address("cd1722f3947def4cf144679da39c4c32bdc35681"),
                to: address("b010143a42d5980c7e5ef0e4a4416dc098a4fed3"),
                value: 100,
                gas: 100_000,
                input: vec![],
                call_type: CallType::Call,
            },
            result: Res::Call { gas_used: 37_033, output: vec![] },
        },
        FlatTrace {
            trace_address: vec![0],
            subtraces: 0,
            action: TraceAction::Create {
                from: address("b010143a42d5980c7e5ef0e4a4416dc098a4fed3"),
                value: 23,
                gas: 66_917,
                init: vec![0x60, 0x01, 0x60, 0x00, 0xfd],
            },
            result: Res::FailedCreate(VmError::Reverted),
        },
    ];
    assert_eq!(traces, expected_trace);
    // The value of the reverted creation is back.
    assert_eq!(world.balance(&receiver), 100);
    assert_eq!(substate.contracts_created.len(), 0);
    assert!(world.checkpoints.is_empty());
}

#[test]
fn test_create_contract() {
    let code = from_hex("601080600c6000396000f3006000355415600957005b60203560003555");
    let sender = address("cd1722f3947def4cf144679da39c4c32bdc35681");
    let created = address_of(&sender, 0);
    let mut params = default_params();
    params.address = created;
    params.sender = sender;
    params.origin = sender;
    params.gas = word(100_000);
    params.code = Some(Arc::new(code));
    params.value = ActionValue::Transfer(word(100));
    let mut world = World::new(5, false);
    world.add_balance(&sender, 100);
    let executive = Executive::new(default_info(), frontier_machine());
    let mut traces = vec![];
    let mut vm_trace = VMTrace::toplevel();
    let (result, _) = drive_create(
        &mut world,
        &executive,
        params.clone(),
        None,
        &mut Substate::default(),
        &mut traces,
        &mut vm_trace,
    );

    assert_eq!(result.unwrap().gas_left, word(99_960));

    let expected_trace = vec![FlatTrace {
        trace_address: vec![],
        subtraces: 0,
        action: TraceAction::Create {
            from: params.sender,
            value: 100,
            gas: number(params.gas),
            init: vec![
                96, 16, 128, 96, 12, 96, 0, 57, 96, 0, 243, 0, 96, 0, 53, 84, 21, 96, 9, 87, 0, 91,
                96, 32, 53, 96, 0, 53, 85,
            ],
        },
        result: Res::Create {
            gas_used: 40,
            address: params.address,
            code: vec![96, 0, 53, 84, 21, 96, 9, 87, 0, 91, 96, 32, 53, 96, 0, 53],
        },
    }];
    assert_eq!(traces, expected_trace);

    let n = |value: u64| Number::from(value);
    let expected_vm_trace = VMTrace {
        parent_step: 0,
        code: vec![
            96, 16, 128, 96, 12, 96, 0, 57, 96, 0, 243, 0, 96, 0, 53, 84, 21, 96, 9, 87, 0, 91, 96,
            32, 53, 96, 0, 53, 85,
        ],
        operations: vec![
            operation(0, 96, 3, 99997, vec![n(16)], None, None),
            operation(2, 128, 3, 99994, vec![n(16), n(16)], None, None),
            operation(3, 96, 3, 99991, vec![n(12)], None, None),
            operation(5, 96, 3, 99988, vec![n(0)], None, None),
            operation(
                7,
                57,
                9,
                99979,
                vec![],
                Some(MemoryDiff {
                    offset: 0,
                    data: vec![96, 0, 53, 84, 21, 96, 9, 87, 0, 91, 96, 32, 53, 96, 0, 53],
                }),
                None,
            ),
            operation(8, 96, 3, 99976, vec![n(0)], None, None),
            operation(10, 243, 0, 99976, vec![], None, None),
        ],
        subs: vec![],
    };
    assert_eq!(vm_trace.drain().unwrap(), expected_vm_trace);
    assert_eq!(world.balance(&created), 100);
    assert_eq!(world.account(&created).code, copied());
    assert_eq!(world.account(&created).storage_expiry, DEFAULT_STORAGE_DURATION);
}

#[test]
fn test_keccak() {
    let sender = address("0f572e5295c57f15886f9b263e2f6d2d6c7b5ec6");
    let created = address_of(&sender, 0);
    let mut params = default_params();
    params.address = created;
    params.sender = sender;
    params.origin = sender;
    params.gas = word(0x0186a0);
    params.code = Some(Arc::new(from_hex("6064640fffffffff20600055")));
    params.value = ActionValue::Transfer(word(0x0de0b6b3a7640000));
    let mut world = World::new(0, false);
    world.add_balance(&sender, 0x152d02c7e14af6800000);
    let before = world.accounts.clone();
    let executive = Executive::new(default_info(), frontier_machine());
    let (result, _) = drive_create(
        &mut world,
        &executive,
        params,
        None,
        &mut Substate::default(),
        &mut vec![],
        &mut VMTrace::toplevel(),
    );
    assert_eq!(result, Err(VmError::OutOfGas));
    assert_eq!(world.accounts, before);
}

#[test]
fn creation_with_passed_expiry_leaves_the_state() {
    let sender = address("0f572e5295c57f15886f9b263e2f6d2d6c7b5ec6");
    let mut info = default_info();
    info.timestamp = 1_000;
    for (expiry, open) in [(999, 1), (1_000, 0)].iter() {
        let mut params = default_params();
        params.address = address_of(&sender, 0);
        params.sender = sender;
        params.gas = word(100_000);
        // Code that fails.
        params.code = Some(Arc::new(vec![0xfe]));
        params.value = ActionValue::Transfer(word(7));
        params.oasis_contract = Some(OasisContract {
            confidential: false,
            expiry: Some(*expiry),
            code: Arc::new(vec![0xfe]),
        });
        let mut world = World::new(0, false);
        world.add_balance(&sender, 100);
        let before = world.accounts.clone();
        let (result, _) = drive_create(
            &mut world,
            &Executive::new(info, frontier_machine()),
            params,
            None,
            &mut Substate::default(),
            &mut vec![],
            &mut VMTrace::toplevel(),
        );
        let expected = if *open == 1 {
            VmError::ContractExpired
        } else {
            VmError::BadInstruction { instruction: 0xfe }
        };
        assert_eq!(result, Err(expected));
        assert_eq!(world.accounts, before);
        assert_eq!(world.checkpoints.len(), *open);
    }
}

#[test]
fn test_revert() {
    let contract = address("cd1722f3947def4cf144679da39c4c32bdc35681");
    let sender = address("0f572e5295c57f15886f9b263e2f6d2d6c7b5ec6");
    let code = from_hex("6c726576657274656420646174616000557f726576657274206d657373616765000000000000000000000000000000000000600052600e6000fd");
    let returns = from_hex("726576657274206d657373616765");
    let mut world = World::new(1024, true);
    world.add_balance(&sender, 0x152d02c7e14af68000000);
    let mut params = default_params();
    params.address = contract;
    params.sender = sender;
    params.origin = sender;
    params.gas = word(20025);
    params.code = Some(Arc::new(code));
    params.value = ActionValue::Transfer(word(0));
    let info = default_info();
    world.new_contract(&contract, 0, 0, info.timestamp + DEFAULT_STORAGE_DURATION);
    let executive = Executive::new(info, byzantium_machine());
    let (result, output) = drive_call(
        &mut world,
        &executive,
        params,
        BytesRef::Fixed(vec![0u8; 14]),
        &mut Substate::default(),
        &mut vec![],
        &mut VMTrace::toplevel(),
    );
    assert_eq!(result.unwrap().gas_left, word(1));
    assert_eq!(output, BytesRef::Fixed(returns));
    assert_eq!(world.storage_at(&contract, 0), Number::zero());
}

fn creation(gas: u128, gas_price: u128, value: u128, nonce: u128) -> SignedTransaction {
    SignedTransaction {
        sender: address("0f572e5295c57f15886f9b263e2f6d2d6c7b5ec6"),
        unsigned: false,
        nonce: word(nonce),
        gas_price: word(gas_price),
        gas: word(gas),
        action: Action::Create,
        value: word(value),
        data: Arc::new(from_hex("3331600055")),
    }
}

#[test]
fn test_transact_invalid_nonce() {
    let t = creation(100_000, 0, 17, 1);
    let mut world = World::new(0, false);
    world.add_balance(&t.sender, 17);
    let mut info = default_info();
    info.gas_limit = word(100_000);
    let executive = Executive::new(info, frontier_machine());
    let options = TransactOptions::with_no_tracing();
    let result = drive_transaction(&mut world, &executive, &t, &options, false);
    assert_eq!(
        result,
        Err(ExecutionError::InvalidNonce { expected: word(0), got: word(1) })
    );
    // Without the check the transaction is executed.
    let result =
        drive_transaction(&mut world, &executive, &t, &options.dont_check_nonce(), false);
    assert!(result.is_ok());
}

#[test]
fn test_transact_gas_limit_reached() {
    let t = creation(80_001, 0, 17, 0);
    let mut world = World::new(0, false);
    world.add_balance(&t.sender, 17);
    let mut info = default_info();
    info.gas_used = word(20_000);
    info.gas_limit = word(100_000);
    let executive = Executive::new(info, frontier_machine());
    let options = TransactOptions::with_no_tracing();
    let result = drive_transaction(&mut world, &executive, &t, &options, false);
    assert_eq!(
        result,
        Err(ExecutionError::BlockGasLimitReached {
            gas_limit: word(100_000),
            gas_used: word(20_000),
            gas: word(80_001),
        })
    );
}

#[test]
fn test_not_enough_cash() {
    let t = creation(100_000, 1, 18, 0);
    let mut world = World::new(0, false);
    world.add_balance(&t.sender, 100_017);
    let mut info = default_info();
    info.gas_limit = word(100_000);
    let executive = Executive::new(info, frontier_machine());
    let options = TransactOptions::with_no_tracing();
    let before = world.accounts.clone();
    let result = drive_transaction(&mut world, &executive, &t, &options, false);
    assert_eq!(
        result,
        Err(ExecutionError::NotEnoughCash { required: wide(100_018), got: wide(100_017) })
    );
    assert_eq!(world.accounts, before);
}

#[test]
fn transaction_creates_a_contract() {
    let mut t = creation(100_000, 2, 17, 0);
    t.data = Arc::new(from_hex(COPYING));
    let author = address("00000000000000000000000000000000000000aa");
    let mut world = World::new(0, false);
    world.add_balance(&t.sender, 200_017);
    let mut info = default_info();
    info.author = author;
    info.gas_used = word(500);
    info.gas_limit = word(100_500);
    let executive = Executive::new(info, frontier_machine());
    let options = TransactOptions::with_tracing_and_vm_tracing().save_output_from_contract();
    let executed = drive_transaction(&mut world, &executive, &t, &options, false).unwrap();

    // 21000, 4 for each of the 5 zero bytes and 68 for each of the other 24 bytes.
    let zeros = t.data.iter().filter(|byte| **byte == 0).count() as u128;
    let used = 21_000 + 4 * zeros + 68 * (29 - zeros) + 40;
    assert_eq!(executed.exception, None);
    assert_eq!(executed.gas, word(100_000));
    assert_eq!(executed.gas_used, word(used));
    assert_eq!(executed.refunded, word(0));
    assert_eq!(executed.cumulative_gas_used, word(500 + used));
    assert_eq!(executed.output, copied());
    assert_eq!(executed.trace.len(), 1);
    assert!(executed.vm_trace.is_some());
    assert!(executed.state_diff.is_none());
    let created = address_of(&t.sender, 0);
    assert_eq!(world.account(&created).code, copied());
    assert_eq!(world.balance(&created), 17);
    assert_eq!(world.nonce(&t.sender), 1);
    assert_eq!(world.balance(&author), 2 * used);
    assert_eq!(world.balance(&t.sender), 200_017 - 17 - 2 * used);
    assert!(world.checkpoints.is_empty());
}

#[test]
fn failed_transaction_pays_and_changes_nothing_else() {
    let mut t = creation(100_000, 1, 17, 0);
    // An instruction that is none.
    t.data = Arc::new(vec![0xfe]);
    let author = address("00000000000000000000000000000000000000aa");
    let mut world = World::new(0, false);
    world.add_balance(&t.sender, 100_017);
    let mut info = default_info();
    info.author = author;
    info.gas_limit = word(100_000);
    let executive = Executive::new(info, frontier_machine());
    let options = TransactOptions::with_tracing();
    let executed = drive_transaction(&mut world, &executive, &t, &options, false).unwrap();
    assert_eq!(executed.exception, Some(VmError::BadInstruction { instruction: 0xfe }));
    assert_eq!(executed.gas_used, word(100_000));
    assert_eq!(executed.cumulative_gas_used, word(100_000));
    assert_eq!(executed.output, vec![]);
    assert!(executed.logs.is_empty());
    assert!(executed.contracts_created.is_empty());
    assert_eq!(world.nonce(&t.sender), 1);
    assert_eq!(world.balance(&t.sender), 17);
    assert_eq!(world.balance(&author), 100_000);
    assert_eq!(world.balance(&address_of(&t.sender, 0)), 0);
}

#[test]
fn transaction_calls_an_account_without_code() {
    let mut t = creation(30_000, 1, 17, 0);
    let receiver = address("5555555555555555555555555555555555555555");
    t.action = Action::Call(receiver);
    t.data = Arc::new(vec![]);
    let mut world = World::new(0, false);
    world.add_balance(&t.sender, 40_000);
    let mut info = default_info();
    info.author = address("00000000000000000000000000000000000000aa");
    info.gas_limit = word(100_000);
    let executive = Executive::new(info, frontier_machine());
    let options = TransactOptions::with_tracing();
    let executed = drive_transaction(&mut world, &executive, &t, &options, false).unwrap();
    assert_eq!(executed.exception, None);
    assert_eq!(executed.gas_used, word(21_000));
    assert_eq!(executed.trace[0].result, Res::Call { gas_used: 0, output: vec![] });
    assert_eq!(world.balance(&receiver), 17);
    assert_eq!(world.balance(&t.sender), 40_000 - 17 - 21_000);
}

#[test]
fn virtual_transaction_needs_no_balance() {
    let t = creation(100_000, 1, 17, 0);
    let mut info = default_info();
    info.gas_limit = word(100_000);
    let executive = Executive::new(info, frontier_machine());
    let options = TransactOptions::with_no_tracing();
    let mut world = World::new(0, false);
    world.add_balance(&t.sender, 5);
    assert_eq!(
        drive_transaction(&mut world, &executive, &t, &options, false),
        Err(ExecutionError::NotEnoughCash { required: wide(100_017), got: wide(5) })
    );
    let executed = drive_transaction(&mut world, &executive, &t, &options, true).unwrap();
    assert_eq!(executed.exception, None);
    assert_eq!(world.balance(&address_of(&t.sender, 0)), 17);
}
