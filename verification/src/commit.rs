//! One commit cycle: the pending counts that were taken out of the store are
//! handed to storage inside a transaction, one operation at a time.

use crate::pending::{pairs_view, Tally};
use crate::shortcode::ShortCode;
use vstd::prelude::*;

verus! {

/// One operation that a commit cycle asks of storage.
#[derive(Clone, Debug, PartialEq, Eq)]
pub enum StoreCall {
    /// Begin a transaction.
    Begin,
    /// Add the count to the hit counter of the clip.
    Increase(ShortCode, u32),
    /// Commit the transaction.
    End,
}

/// A storage operation as plain values.
pub enum StoreOp {
    Begin,
    Increase(Seq<char>, nat),
    End,
}

impl View for StoreCall {
    type V = StoreOp;

    open spec fn view(&self) -> StoreOp {
        match self {
            StoreCall::Begin => StoreOp::Begin,
            StoreCall::Increase(code, count) => StoreOp::Increase(code@, *count as nat),
            StoreCall::End => StoreOp::End,
        }
    }
}

/// How a commit cycle ended.
#[derive(Clone, Copy, Debug, PartialEq, Eq, Structural)]
pub enum Outcome {
    /// The transaction was committed.
    Committed,
    /// No transaction could be begun: nothing was asked of storage after that.
    BeginFailed,
    /// The transaction could not be committed.
    EndFailed,
}

/// Where a commit cycle stands.
pub enum Stage {
    /// The transaction is to be begun.
    Begin,
    /// The pair at this position of the batch is to be added next.
    Increase(nat),
    /// The transaction is to be committed.
    End,
    /// The cycle is over.
    Done(Outcome),
}

/// A commit cycle as plain values: the batch it writes and its stage.
pub struct CommitState {
    pub batch: Tally,
    pub stage: Stage,
}

/// The cycle that is about to begin its transaction for `batch`.
pub open spec fn started(batch: Tally) -> CommitState {
    CommitState { batch, stage: Stage::Begin }
}

/// The operation that the cycle asks for in state `s`; none once it is over.
pub open spec fn pending_op(s: CommitState) -> Option<StoreOp> {
    match s.stage {
        Stage::Begin => Some(StoreOp::Begin),
        Stage::Increase(i) => Some(StoreOp::Increase(s.batch[i as int].0, s.batch[i as int].1)),
        Stage::End => Some(StoreOp::End),
        Stage::Done(_) => None,
    }
}

/// The stage at which the pair at position `i` is due: its increase, or the
/// end of the transaction when the batch has no such pair.
pub open spec fn stage_at(batch: Tally, i: nat) -> Stage {
    if i < batch.len() {
        Stage::Increase(i)
    } else {
        Stage::End
    }
}

/// The state after storage has answered the pending operation, with success
/// (`ok`) or failure. A failed begin ends the cycle; a failed increase is
/// passed over; the end of the transaction decides the outcome.
pub open spec fn after(s: CommitState, ok: bool) -> CommitState {
    match s.stage {
        Stage::Begin => if ok {
            CommitState { batch: s.batch, stage: stage_at(s.batch, 0) }
        } else {
            CommitState { batch: s.batch, stage: Stage::Done(Outcome::BeginFailed) }
        },
        Stage::Increase(i) => CommitState { batch: s.batch, stage: stage_at(s.batch, i + 1) },
        Stage::End => if ok {
            CommitState { batch: s.batch, stage: Stage::Done(Outcome::Committed) }
        } else {
            CommitState { batch: s.batch, stage: Stage::Done(Outcome::EndFailed) }
        },
        Stage::Done(_) => s,
    }
}

/// The operations that the cycle asks for, in order, while storage gives the
/// answers `results`, one for each operation.
pub open spec fn asked(s: CommitState, results: Seq<bool>) -> Seq<StoreOp>
    decreases results.len(),
{
    if results.len() == 0 || pending_op(s) is None {
        Seq::empty()
    } else {
        seq![pending_op(s)->0] + asked(after(s, results[0]), results.drop_first())
    }
}

/// The state after storage has given the answers `results`, one after another.
pub open spec fn after_all(s: CommitState, results: Seq<bool>) -> CommitState
    decreases results.len(),
{
    if results.len() == 0 {
        s
    } else {
        after_all(after(s, results[0]), results.drop_first())
    }
}

/// One increase for each pair of the batch, in the batch's order.
pub open spec fn increases_of(batch: Tally) -> Seq<StoreOp> {
    Seq::new(batch.len(), |i: int| StoreOp::Increase(batch[i].0, batch[i].1))
}

#[derive(Debug)]
enum Phase {
    Begin,
    Increase,
    End,
    Done(Outcome),
}

/// A commit cycle in progress. The caller performs the operation that `call`
/// names and reports how it went with `advance`, until `call` names none.
#[derive(Debug)]
pub struct Commit {
    batch: Vec<(ShortCode, u32)>,
    phase: Phase,
    next: usize,
}

impl View for Commit {
    type V = CommitState;

    closed spec fn view(&self) -> CommitState {
        CommitState {
            batch: pairs_view(self.batch@),
            stage: match self.phase {
                Phase::Begin => Stage::Begin,
                Phase::Increase => Stage::Increase(self.next as nat),
                Phase::End => Stage::End,
                Phase::Done(outcome) => Stage::Done(outcome),
            },
        }
    }
}

impl Commit {
    #[verifier::type_invariant]
    spec fn next_in_batch(&self) -> bool {
        self.phase is Increase ==> self.next < self.batch@.len()
    }

    /// Starts the cycle that writes `batch`.
    pub fn start(batch: Vec<(ShortCode, u32)>) -> (commit: Commit)
        ensures
            commit@ == started(pairs_view(batch@)),
    {
        Commit { batch, phase: Phase::Begin, next: 0 }
    }

    /// The operation to perform next; `None` once the cycle is over.
    pub fn call(&self) -> (call: Option<StoreCall>)
        ensures
            call is Some <==> pending_op(self@) is Some,
            call is Some ==> call->0@ == pending_op(self@)->0,
    {
        proof {
            use_type_invariant(self);
        }
        match self.phase {
            Phase::Begin => Some(StoreCall::Begin),
            Phase::Increase => {
                let code = self.batch[self.next].0.duplicate();
                Some(StoreCall::Increase(code, self.batch[self.next].1))
            },
            Phase::End => Some(StoreCall::End),
            Phase::Done(_) => None,
        }
    }

    /// Takes storage's answer to the pending operation: `ok` says whether it
    /// succeeded. Once the cycle is over nothing changes any more.
    pub fn advance(&mut self, ok: bool)
        ensures
            final(self)@ == after(old(self)@, ok),
    {
        proof {
            use_type_invariant(&*self);
        }
        match self.phase {
            Phase::Begin => {
                if !ok {
                    self.phase = Phase::Done(Outcome::BeginFailed);
                } else if self.batch.len() > 0 {
                    self.next = 0;
                    self.phase = Phase::Increase;
                } else {
                    self.phase = Phase::End;
                }
            },
            Phase::Increase => {
                let len: usize = self.batch.len();
                if self.next + 1 < len {
                    self.next = self.next + 1;
                } else {
                    self.phase = Phase::End;
                }
            },
            Phase::End => {
                if ok {
                    self.phase = Phase::Done(Outcome::Committed);
                } else {
                    self.phase = Phase::Done(Outcome::EndFailed);
                }
            },
            Phase::Done(_) => {},
        }
    }

    /// How the cycle ended; `None` while it is under way.
    pub fn outcome(&self) -> (outcome: Option<Outcome>)
        ensures
            outcome == match self@.stage {
                Stage::Done(o) => Some(o),
                _ => None,
            },
    {
        match self.phase {
            Phase::Done(o) => Some(o),
            _ => None,
        }
    }
}

proof fn lemma_increases_from(batch: Tally, i: nat, results: Seq<bool>)
    requires
        i <= batch.len(),
        results.len() == batch.len() - i + 1,
    ensures
        asked(CommitState { batch, stage: stage_at(batch, i) }, results) == increases_of(
            batch,
        ).skip(i as int) + seq![StoreOp::End],
        after_all(CommitState { batch, stage: stage_at(batch, i) }, results) == (CommitState {
            batch,
            stage: Stage::Done(
                if results.last() {
                    Outcome::Committed
                } else {
                    Outcome::EndFailed
                },
            ),
        }),
    decreases batch.len() - i,
{
    let s = CommitState { batch, stage: stage_at(batch, i) };
    let rest = results.drop_first();
    if i < batch.len() {
        lemma_increases_from(batch, i + 1, rest);
        assert(after(s, results[0]) == CommitState { batch, stage: stage_at(batch, i + 1) });
        assert(rest.last() == results.last());
        assert(increases_of(batch).skip(i as int) =~= seq![increases_of(batch)[i as int]]
            + increases_of(batch).skip(i as int + 1));
        assert(asked(s, results) =~= increases_of(batch).skip(i as int) + seq![StoreOp::End]);
    } else {
        assert(rest.len() == 0);
        assert(results.last() == results[0]);
        assert(asked(after(s, results[0]), rest) =~= Seq::<StoreOp>::empty());
        assert(after_all(after(s, results[0]), rest) == after(s, results[0]));
        assert(increases_of(batch).skip(i as int) =~= Seq::<StoreOp>::empty());
        assert(asked(s, results) =~= increases_of(batch).skip(i as int) + seq![StoreOp::End]);
    }
}

/// Once its transaction has begun, a commit cycle asks storage for one
/// increase for each pair of its batch, whichever of them fail, and then for
/// the end of the transaction, which alone decides the outcome.
pub proof fn lemma_failed_increase_is_contained(
    batch: Tally,
    increases: Seq<bool>,
    end: bool,
)
    requires
        increases.len() == batch.len(),
    ensures
        asked(started(batch), seq![true] + increases + seq![end]) == seq![StoreOp::Begin]
            + increases_of(batch) + seq![StoreOp::End],
        after_all(started(batch), seq![true] + increases + seq![end]).stage == Stage::Done(
            if end {
                Outcome::Committed
            } else {
                Outcome::EndFailed
            },
        ),
{
    let results = seq![true] + increases + seq![end];
    let s = started(batch);
    assert(results[0]);
    assert(results.last() == end);
    assert(results.drop_first().last() == end);
    assert(after(s, results[0]) == CommitState { batch, stage: stage_at(batch, 0) });
    lemma_increases_from(batch, 0, results.drop_first());
    assert(increases_of(batch).skip(0) =~= increases_of(batch));
    assert(asked(s, results) =~= seq![StoreOp::Begin] + increases_of(batch) + seq![StoreOp::End]);
}

/// A commit cycle whose transaction cannot be begun asks storage for nothing
/// more.
pub proof fn lemma_failed_begin_ends_cycle(batch: Tally, later: Seq<bool>)
    ensures
        asked(started(batch), seq![false] + later) == seq![StoreOp::Begin],
        after_all(started(batch), seq![false] + later) == (CommitState {
            batch,
            stage: Stage::Done(Outcome::BeginFailed),
        }),
{
    let results = seq![false] + later;
    let s = started(batch);
    let done = CommitState { batch, stage: Stage::Done(Outcome::BeginFailed) };
    assert(!results[0]);
    assert(after(s, results[0]) == done);
    assert(asked(done, results.drop_first()) =~= Seq::<StoreOp>::empty());
    lemma_done_stays(done, results.drop_first());
    assert(asked(s, results) =~= seq![StoreOp::Begin]);
}

/// A cycle that is over stays as it is, whatever it is told.
pub proof fn lemma_done_stays(s: CommitState, results: Seq<bool>)
    requires
        s.stage is Done,
    ensures
        after_all(s, results) == s,
    decreases results.len(),
{
    if results.len() > 0 {
        lemma_done_stays(s, results.drop_first());
    }
}

/// A commit cycle with nothing pending is a transaction without increases:
/// it begins, ends, and is committed.
pub proof fn lemma_idle_commit()
    ensures
        asked(started(Seq::empty()), seq![true, true]) == seq![StoreOp::Begin, StoreOp::End],
        after_all(started(Seq::empty()), seq![true, true]).stage == Stage::Done(
            Outcome::Committed,
        ),
{
    let batch = Tally::empty();
    lemma_failed_increase_is_contained(batch, Seq::empty(), true);
    assert(seq![true] + Seq::<bool>::empty() + seq![true] =~= seq![true, true]);
    assert(seq![StoreOp::Begin] + increases_of(batch) + seq![StoreOp::End] =~= seq![
        StoreOp::Begin,
        StoreOp::End,
    ]);
}

} // verus!
