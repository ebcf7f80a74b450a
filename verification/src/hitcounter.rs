//! The hit counter's worker: what it decides on each message of its queue.
//!
//! The worker owns the pending counts. Its caller receives from the queue,
//! sleeps, and performs the storage operations of a commit cycle; what to do
//! next is decided here.

use crate::commit::{
    asked, increases_of, lemma_failed_increase_is_contained, started, Commit, StoreOp,
};
use crate::pending::{
    distinct, lemma_hits_coalesce, lemma_recorded, mentions, recorded, recorded_all, slot, total,
    HitStore, Tally,
};
use crate::shortcode::ShortCode;
use vstd::prelude::*;

verus! {

/// The seconds for which the worker sleeps when its queue is empty, before it
/// queues a commit for itself.
pub const COMMIT_INTERVAL_SECS: u64 = 5;

/// A message of the worker's queue.
#[derive(Clone, Debug, PartialEq, Eq)]
pub enum HitCountMsg {
    /// Hand the pending counts to storage.
    Commit,
    /// The clip was accessed this many times.
    Hit(ShortCode, u32),
}

/// What an attempt to receive from the queue gave.
#[derive(Clone, Debug, PartialEq, Eq)]
pub enum Received {
    /// A message was waiting.
    Msg(HitCountMsg),
    /// The queue is empty.
    Empty,
    /// The queue is empty and no sender is left.
    Disconnected,
}

/// What the worker does next.
#[derive(Debug)]
pub enum Step {
    /// Receive the next message.
    Receive,
    /// Run this commit cycle, then receive the next message.
    Flush(Commit),
    /// Sleep for this many seconds, queue a `Commit`, then receive the next
    /// message.
    Idle(u64),
    /// The hit was not merged: the pending count of its short code would no
    /// longer fit.
    Full(ShortCode, u32),
    /// Stop for good.
    Stop,
}

/// Whether the message can be handled with `pending` as the pending pairs:
/// the pending count of a hit's short code, raised by the hit, must fit in
/// `u32`.
pub open spec fn has_room_for(pending: Tally, msg: HitCountMsg) -> bool {
    match msg {
        HitCountMsg::Hit(code, count) => total(pending, code@) + count <= u32::MAX,
        HitCountMsg::Commit => true,
    }
}

/// The pending pairs after one message: a hit is merged into them, a commit
/// leaves none.
pub open spec fn after_msg(pending: Tally, msg: HitCountMsg) -> Tally {
    match msg {
        HitCountMsg::Hit(code, count) => recorded(pending, code@, count as nat),
        HitCountMsg::Commit => Seq::empty(),
    }
}

/// The pending pairs after the messages `msgs`, first to last.
pub open spec fn after_msgs(pending: Tally, msgs: Seq<HitCountMsg>) -> Tally
    decreases msgs.len(),
{
    if msgs.len() == 0 {
        pending
    } else {
        after_msg(after_msgs(pending, msgs.drop_last()), msgs.last())
    }
}

/// The hits of `id` that the messages `msgs` report.
pub open spec fn reported(msgs: Seq<HitCountMsg>, id: Seq<char>) -> nat
    decreases msgs.len(),
{
    if msgs.len() == 0 {
        0
    } else {
        reported(msgs.drop_last(), id) + match msgs.last() {
            HitCountMsg::Hit(code, count) => if code@ == id {
                count as nat
            } else {
                0
            },
            HitCountMsg::Commit => 0,
        }
    }
}

/// The hits of `id` that the commits among `msgs` took out of the pending
/// pairs, which were `pending` before the first message.
pub open spec fn detached(pending: Tally, msgs: Seq<HitCountMsg>, id: Seq<char>) -> nat
    decreases msgs.len(),
{
    if msgs.len() == 0 {
        0
    } else {
        detached(pending, msgs.drop_last(), id) + match msgs.last() {
            HitCountMsg::Hit(_, _) => 0,
            HitCountMsg::Commit => total(after_msgs(pending, msgs.drop_last()), id),
        }
    }
}

/// The accounting of hits: whatever messages the worker handles, the hits of
/// a short code that are pending and those that commits took out add up to
/// the hits that were pending at first and those that were reported since.
/// No hit is counted twice and none is dropped, and no short code ever has
/// two pending pairs.
pub proof fn lemma_hits_are_accounted_for(pending: Tally, msgs: Seq<HitCountMsg>, id: Seq<char>)
    requires
        distinct(pending),
    ensures
        distinct(after_msgs(pending, msgs)),
        total(after_msgs(pending, msgs), id) + detached(pending, msgs, id) == total(pending, id)
            + reported(msgs, id),
    decreases msgs.len(),
{
    if msgs.len() > 0 {
        let before = after_msgs(pending, msgs.drop_last());
        lemma_hits_are_accounted_for(pending, msgs.drop_last(), id);
        match msgs.last() {
            HitCountMsg::Hit(code, count) => {
                lemma_recorded(before, code@, count as nat);
            },
            HitCountMsg::Commit => {},
        }
    }
}

/// Hits reach storage coalesced: when `hits` were merged since the last
/// commit, the next commit cycle, once its transaction has begun, asks for
/// exactly one increase for each short code that was hit, by the sum of the
/// counts of its hits, and for none for any other short code, whichever
/// increases fail.
pub proof fn lemma_one_increase_for_each_code(
    hits: Tally,
    id: Seq<char>,
    increases: Seq<bool>,
    end: bool,
)
    requires
        increases.len() == recorded_all(Seq::empty(), hits).len(),
    ensures
        ({
            let ops = asked(
                started(recorded_all(Seq::empty(), hits)),
                seq![true] + increases + seq![end],
            );
            &&& mentions(hits, id) ==> exists|k: int|
                0 <= k < ops.len() && #[trigger] ops[k] == StoreOp::Increase(id, total(hits, id))
            &&& forall|k: int|
                0 <= k < ops.len() && (#[trigger] ops[k]) is Increase && ops[k]->Increase_0 == id
                    ==> mentions(hits, id) && ops[k]->Increase_1 == total(hits, id)
            &&& forall|k: int, l: int|
                0 <= k < ops.len() && 0 <= l < ops.len() && (#[trigger] ops[k]) is Increase
                    && ops[k]->Increase_0 == id && (#[trigger] ops[l]) is Increase
                    && ops[l]->Increase_0 == id ==> k == l
        }),
{
    let batch = recorded_all(Seq::empty(), hits);
    let ops = asked(started(batch), seq![true] + increases + seq![end]);
    lemma_hits_coalesce(hits, id);
    lemma_failed_increase_is_contained(batch, increases, end);
    assert(ops == seq![StoreOp::Begin] + increases_of(batch) + seq![StoreOp::End]);
    assert(ops.len() == batch.len() + 2);
    assert forall|k: int| 0 <= k < ops.len() && (#[trigger] ops[k]) is Increase implies 1 <= k
        <= batch.len() && ops[k] == StoreOp::Increase(batch[k - 1].0, batch[k - 1].1) by {
        if k == 0 {
        } else if k <= batch.len() {
            assert(ops[k] == increases_of(batch)[k - 1]);
        } else {
        }
    }
    if mentions(hits, id) {
        let i = slot(batch, id);
        assert(0 <= i < batch.len() && batch[i].0 == id);
        assert(ops[i + 1] == increases_of(batch)[i]);
        assert(ops[i + 1] == StoreOp::Increase(id, total(hits, id)));
    }
    assert forall|k: int|
        0 <= k < ops.len() && (#[trigger] ops[k]) is Increase && ops[k]->Increase_0
            == id implies mentions(hits, id) && ops[k]->Increase_1 == total(hits, id) by {
        assert(batch[k - 1].0 == id);
    }
    assert forall|k: int, l: int|
        0 <= k < ops.len() && 0 <= l < ops.len() && (#[trigger] ops[k]) is Increase
            && ops[k]->Increase_0 == id && (#[trigger] ops[l]) is Increase && ops[l]->Increase_0
            == id implies k == l by {
        assert(batch[k - 1].0 == id);
        assert(batch[l - 1].0 == id);
        if k < l {
            assert(batch[k - 1].0 != batch[l - 1].0);
        } else if l < k {
            assert(batch[l - 1].0 != batch[k - 1].0);
        }
    }
}

/// Takes the pending counts out of `hits` and starts the commit cycle that
/// writes them. New hits are counted afresh from here on.
pub fn commit_hits(hits: &mut HitStore) -> (commit: Commit)
    ensures
        commit@ == started(old(hits)@),
        distinct(commit@.batch),
        final(hits)@ == Tally::empty(),
{
    Commit::start(hits.take())
}

/// Handles one message: a hit is merged into the pending counts, a commit
/// detaches them and starts the cycle that writes them.
pub fn process_msg(msg: HitCountMsg, hits: &mut HitStore) -> (commit: Option<Commit>)
    requires
        has_room_for(old(hits)@, msg),
    ensures
        final(hits)@ == after_msg(old(hits)@, msg),
        distinct(old(hits)@) && distinct(final(hits)@),
        match msg {
            HitCountMsg::Hit(_, _) => commit is None,
            HitCountMsg::Commit => commit is Some && commit->0@ == started(old(hits)@),
        },
{
    match msg {
        HitCountMsg::Commit => Some(commit_hits(hits)),
        HitCountMsg::Hit(shortcode, count) => {
            hits.record(shortcode, count);
            None
        },
    }
}

/// Decides what the worker does after an attempt to receive from its queue.
///
/// A hit is merged and the next message is received; a hit for which the
/// pending count has no room is handed back and changes nothing. A commit
/// detaches the pending counts into a cycle to run. On an empty queue the
/// worker idles for the commit interval; once the queue is disconnected it
/// stops.
pub fn step(hits: &mut HitStore, received: Received) -> (next: Step)
    ensures
        received is Msg ==> distinct(old(hits)@) && distinct(final(hits)@),
        match received {
            Received::Msg(msg) => if has_room_for(old(hits)@, msg) {
                final(hits)@ == after_msg(old(hits)@, msg) && match msg {
                    HitCountMsg::Hit(_, _) => next is Receive,
                    HitCountMsg::Commit => next is Flush && next->Flush_0@ == started(old(hits)@),
                }
            } else {
                final(hits)@ == old(hits)@ && next is Full && msg is Hit && next->Full_0@
                    == msg->Hit_0@ && next->Full_1 == msg->Hit_1
            },
            Received::Empty => final(hits)@ == old(hits)@ && next is Idle && next->Idle_0
                == COMMIT_INTERVAL_SECS,
            Received::Disconnected => final(hits)@ == old(hits)@ && next is Stop,
        },
{
    match received {
        Received::Msg(HitCountMsg::Hit(shortcode, count)) => {
            if hits.has_room(&shortcode, count) {
                hits.record(shortcode, count);
                Step::Receive
            } else {
                Step::Full(shortcode, count)
            }
        },
        Received::Msg(HitCountMsg::Commit) => Step::Flush(commit_hits(hits)),
        Received::Empty => Step::Idle(COMMIT_INTERVAL_SECS),
        Received::Disconnected => Step::Stop,
    }
}

} // verus!
