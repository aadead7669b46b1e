//! The messages between the run of a transaction and its host.
use crate::hash::{Address, H256};
use crate::protocol::{Ask, Cleanup, Reply};
use crate::transaction::SubstateSummary;
use crate::uint::U256;
use crate::vm::OasisContract;
use std::sync::Arc;
use vstd::prelude::*;

verus! {

/// What a transaction asks of the host.
#[derive(Debug, PartialEq, Eq)]
pub enum TransactAsk<B = Vec<u8>> {
    /// What is the nonce of the account?
    Nonce(Address),
    /// Does the data of the transaction start with the header of a contract, and what does the
    /// header say?
    OasisContract,
    /// How much gas does the transaction need before anything is executed?
    GasRequired { confidential: bool },
    /// Does the account exist?
    Exists(Address),
    /// What is the balance of the account?
    Balance(Address),
    /// Give the value to the account.
    AddBalance { address: Address, value: U256, cleanup: Cleanup },
    /// Take the value from the account.
    SubBalance { address: Address, value: U256, cleanup: Cleanup },
    /// Increment the nonce of the account.
    IncNonce(Address),
    /// What is the code of the account?
    Code(Address),
    /// What is the hash of the account's code?
    CodeHash(Address),
    /// What the call or the creation of the transaction asks.
    Act(Ask<B>),
    /// What does the substate of the transaction hold?
    Substate,
    /// Which accounts has the substate of the transaction touched by now?
    Touched,
    /// Of the touched accounts, remove those that are empty, where this is wanted, and those whose
    /// balance is below the minimum, where there is one; those with code and storage too where
    /// this is wanted.
    KillGarbage {
        touched: Arc<Vec<Address>>,
        remove_empty: bool,
        min_balance: Option<U256>,
        kill_contracts: bool,
    },
}

impl View for TransactAsk {
    type V = TransactAsk<Seq<u8>>;

    open spec fn view(&self) -> TransactAsk<Seq<u8>> {
        match self {
            TransactAsk::Nonce(address) => TransactAsk::Nonce(*address),
            TransactAsk::OasisContract => TransactAsk::OasisContract,
            TransactAsk::GasRequired { confidential } => TransactAsk::GasRequired {
                confidential: *confidential,
            },
            TransactAsk::Exists(address) => TransactAsk::Exists(*address),
            TransactAsk::Balance(address) => TransactAsk::Balance(*address),
            TransactAsk::AddBalance { address, value, cleanup } => TransactAsk::AddBalance {
                address: *address,
                value: *value,
                cleanup: *cleanup,
            },
            TransactAsk::SubBalance { address, value, cleanup } => TransactAsk::SubBalance {
                address: *address,
                value: *value,
                cleanup: *cleanup,
            },
            TransactAsk::IncNonce(address) => TransactAsk::IncNonce(*address),
            TransactAsk::Code(address) => TransactAsk::Code(*address),
            TransactAsk::CodeHash(address) => TransactAsk::CodeHash(*address),
            TransactAsk::Act(ask) => TransactAsk::Act(ask@),
            TransactAsk::Substate => TransactAsk::Substate,
            TransactAsk::Touched => TransactAsk::Touched,
            TransactAsk::KillGarbage { touched, remove_empty, min_balance, kill_contracts } => {
                TransactAsk::KillGarbage {
                    touched: *touched,
                    remove_empty: *remove_empty,
                    min_balance: *min_balance,
                    kill_contracts: *kill_contracts,
                }
            },
        }
    }
}

/// What the host answers to a transaction. Where the host failed it says why.
#[derive(Debug, PartialEq, Eq)]
pub enum TransactReply<B = Vec<u8>> {
    /// An amount.
    Amount(Result<U256, String>),
    /// The header of a contract, where there is one, or why it is malformed.
    Oasis(Result<Option<OasisContract>, String>),
    /// An amount of gas.
    Gas(u64),
    /// Yes or no.
    Flag(Result<bool, String>),
    /// Done, or failed.
    Unit(Result<(), String>),
    /// Code.
    Code(Result<Option<Arc<Vec<u8>>>, String>),
    /// A hash.
    Hash(Result<H256, String>),
    /// The answer to a call or a creation.
    Act(Reply<B>),
    /// What the substate holds.
    Substate(SubstateSummary),
    /// Accounts.
    Touched(Arc<Vec<Address>>),
}

impl View for TransactReply {
    type V = TransactReply<Seq<u8>>;

    open spec fn view(&self) -> TransactReply<Seq<u8>> {
        match self {
            TransactReply::Amount(amount) => TransactReply::Amount(*amount),
            TransactReply::Oasis(contract) => TransactReply::Oasis(*contract),
            TransactReply::Gas(gas) => TransactReply::Gas(*gas),
            TransactReply::Flag(flag) => TransactReply::Flag(*flag),
            TransactReply::Unit(done) => TransactReply::Unit(*done),
            TransactReply::Code(code) => TransactReply::Code(*code),
            TransactReply::Hash(hash) => TransactReply::Hash(*hash),
            TransactReply::Act(reply) => TransactReply::Act(reply@),
            TransactReply::Substate(substate) => TransactReply::Substate(*substate),
            TransactReply::Touched(touched) => TransactReply::Touched(*touched),
        }
    }
}

} // verus!
