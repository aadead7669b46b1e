//! How often a host had to do something.
use crate::protocol::Command;
use vstd::prelude::*;

verus! {

/// Kinds of commands.
pub enum Kind {
    /// Checkpoints.
    Checkpoint,
    /// Returns to a checkpoint.
    Revert,
    /// Checkpoints forgotten, with the state kept.
    Discard,
    /// Merges of a substate that might have been reverted.
    Accrual,
    /// New contracts.
    Contract,
    /// Removals of accounts.
    Removal,
    /// Traces of calls and creations, failed ones included.
    Trace,
}

/// Whether the command is of the kind.
pub open spec fn is_kind(command: Command<Seq<u8>>, kind: Kind) -> bool {
    match kind {
        Kind::Checkpoint => command is Checkpoint,
        Kind::Revert => command is RevertToCheckpoint,
        Kind::Discard => command is DiscardCheckpoint,
        Kind::Accrual => command is AccrueSubstate,
        Kind::Contract => command is NewContract,
        Kind::Removal => command is KillAccount,
        Kind::Trace => command is TraceCall || command is TraceFailedCall || command is TraceCreate
            || command is TraceFailedCreate,
    }
}

/// How many of the commands are of the kind.
pub open spec fn count(commands: Seq<Command<Seq<u8>>>, kind: Kind) -> nat
    decreases commands.len(),
{
    if commands.len() == 0 {
        0
    } else {
        count(commands.drop_last(), kind) + if is_kind(commands.last(), kind) {
            1nat
        } else {
            0
        }
    }
}

/// How many checkpoints were closed, in either way.
pub open spec fn closings(commands: Seq<Command<Seq<u8>>>) -> nat {
    count(commands, Kind::Revert) + count(commands, Kind::Discard)
}

/// The counts of two lists add up.
pub broadcast proof fn lemma_count_concat(
    first: Seq<Command<Seq<u8>>>,
    second: Seq<Command<Seq<u8>>>,
    kind: Kind,
)
    ensures
        #[trigger] count(first + second, kind) == count(first, kind) + count(second, kind),
    decreases second.len(),
{
    if second.len() == 0 {
        assert(first + second =~= first);
    } else {
        lemma_count_concat(first, second.drop_last(), kind);
        assert((first + second).drop_last() =~= first + second.drop_last());
    }
}

/// One for a command of the kind at the place, and nothing otherwise.
pub open spec fn at_place(commands: Seq<Command<Seq<u8>>>, kind: Kind, i: int) -> nat {
    if i < commands.len() && is_kind(commands[i], kind) {
        1
    } else {
        0
    }
}

/// A short list is counted place by place.
pub broadcast proof fn lemma_count_short(commands: Seq<Command<Seq<u8>>>, kind: Kind)
    requires
        commands.len() <= 6,
    ensures
        #[trigger] count(commands, kind) == at_place(commands, kind, 0) + at_place(
            commands,
            kind,
            1,
        ) + at_place(commands, kind, 2) + at_place(commands, kind, 3) + at_place(commands, kind, 4)
            + at_place(commands, kind, 5),
{
    reveal_with_fuel(count, 7);
}

pub broadcast group group_counts {
    lemma_count_short,
    lemma_count_concat,
}

} // verus!
