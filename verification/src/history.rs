//! What all runs have in common, and how they go on over several replies.
use crate::protocol::Command;
use vstd::prelude::*;

verus! {

/// A run: it asks, and goes on when the host has answered.
pub trait Run: Sized {
    /// What the run asks.
    type Ask;

    /// What the host answers.
    type Reply;

    /// What the run asks of the host, until it is over.
    spec fn asks(self) -> Option<Self::Ask>;

    /// The replies that answer what the run asks.
    spec fn accepts(self, reply: Self::Reply) -> bool;

    /// The run after a reply, and what the host has to do.
    spec fn next(self, reply: Self::Reply) -> (Self, Seq<Command<Seq<u8>>>);
}

/// Whether each of the replies answers what the run asks when its turn has come.
pub open spec fn conversation<R: Run>(run: R, replies: Seq<R::Reply>) -> bool
    decreases replies.len(),
{
    if replies.len() == 0 {
        true
    } else {
        &&& conversation(run, replies.drop_last())
        &&& after(run, replies.drop_last()).accepts(replies.last())
    }
}

/// The run after the replies.
pub open spec fn after<R: Run>(run: R, replies: Seq<R::Reply>) -> R
    decreases replies.len(),
{
    if replies.len() == 0 {
        run
    } else {
        after(run, replies.drop_last()).next(replies.last()).0
    }
}

/// What the host had to do between the replies.
pub open spec fn commanded<R: Run>(run: R, replies: Seq<R::Reply>) -> Seq<Command<Seq<u8>>>
    decreases replies.len(),
{
    if replies.len() == 0 {
        Seq::empty()
    } else {
        commanded(run, replies.drop_last()) + after(run, replies.drop_last()).next(
            replies.last(),
        ).1
    }
}

/// What the host had to do after the last of the replies.
pub open spec fn told<R: Run>(run: R, replies: Seq<R::Reply>) -> Seq<Command<Seq<u8>>> {
    after(run, replies.drop_last()).next(replies.last()).1
}

/// What the replies answered.
pub open spec fn asked<R: Run>(run: R, replies: Seq<R::Reply>) -> Seq<R::Ask>
    decreases replies.len(),
{
    if replies.len() == 0 {
        Seq::empty()
    } else {
        asked(run, replies.drop_last()).push(after(run, replies.drop_last()).asks()->0)
    }
}

/// A conversation turn by turn: each reply answers the run as the replies before it have left it,
/// and the run goes on from there.
pub proof fn lemma_turn<R: Run>(run: R, replies: Seq<R::Reply>, n: int)
    requires
        conversation(run, replies),
        0 <= n < replies.len(),
    ensures
        conversation(run, replies.take(n)),
        after(run, replies.take(n)).accepts(replies[n]),
        after(run, replies.take(n + 1)) == after(run, replies.take(n)).next(replies[n]).0,
        commanded(run, replies.take(n + 1)) == commanded(run, replies.take(n)) + after(
            run,
            replies.take(n),
        ).next(replies[n]).1,
        asked(run, replies).len() == replies.len(),
        asked(run, replies)[n] == after(run, replies.take(n)).asks()->0,
    decreases replies.len(),
{
    assert(replies.take(n + 1).drop_last() =~= replies.take(n));
    lemma_asked_len(run, replies);
    if n == replies.len() - 1 {
        assert(replies.take(n) =~= replies.drop_last());
        lemma_asked_len(run, replies.drop_last());
    } else {
        lemma_turn(run, replies.drop_last(), n);
        assert(replies.drop_last().take(n) =~= replies.take(n));
    }
}

/// Each reply answers one question.
pub proof fn lemma_asked_len<R: Run>(run: R, replies: Seq<R::Reply>)
    ensures
        asked(run, replies).len() == replies.len(),
    decreases replies.len(),
{
    if replies.len() > 0 {
        lemma_asked_len(run, replies.drop_last());
    }
}

} // verus!
