//! Transaction execution.
//!
//! An executive decides what happens, and in which order, when a transaction is executed, an
//! account is called or a contract is created. It owns no state. The host does: accounts and
//! their balances, substates, tracers, built-in contracts and virtual machines. So every
//! execution is a run. A run asks, the host answers, and the run goes on with a list of commands
//! that the host has to carry out before it answers again. When the run is over it holds the
//! result.
//!
//! - `executive` has the `Executive` and the entry points to all runs.
//! - `call`, `create`, `finalize` and `transact` have the runs: of calls, of creations, of what
//!   follows the action of a transaction, and of whole transactions. `protocol` and
//!   `transact_protocol` have what they ask, what they are answered and what they command.
//! - `contract_address` derives the addresses of new contracts.
//! - `options` has the options of a transaction, `transaction` what goes in and comes out.
//! - `vm`, `bytes`, `hash` and `uint` have the values that all of them handle.
//! - `basic_authority` has the parameters of an engine with fixed authorities.
//! - `history` says what a whole conversation with a host is, and `laws` what holds of every one.
//!
//! The state of a run has a mathematical model, the same type over sequences of bytes. A run's
//! `asks`, `accepts` and `next` are stated on the model, and `ask`, `takes` and `resume` are
//! proved to agree with them. Arithmetic on words, hashing, the encoding that is hashed for an
//! address and writes into output buffers are those of the crates `ethereum-types`,
//! `keccak-hash`, `rlp` and `parity-bytes`.
pub mod basic_authority;
pub mod bytes;
pub mod call;
pub mod contract_address;
pub mod create;
pub mod executive;
pub mod finalize;
pub mod hash;
pub mod history;
pub mod laws;
pub mod options;
pub mod protocol;
pub mod transact;
pub mod transact_protocol;
pub mod transaction;
pub mod uint;
pub mod vm;
