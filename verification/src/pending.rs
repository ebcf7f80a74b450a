//! Pending hit counts: hits reported for clips are summed per short code in
//! memory until a commit cycle takes them out for storage.

use crate::shortcode::ShortCode;
use vstd::prelude::*;

verus! {

/// A list of pairs of a short code and a count of hits.
pub type Tally = Seq<(Seq<char>, nat)>;

/// What a list of `(short code, count)` pairs holds, as plain values.
pub open spec fn pairs_view(pairs: Seq<(ShortCode, u32)>) -> Tally {
    Seq::new(pairs.len(), |i: int| (pairs[i].0@, pairs[i].1 as nat))
}

/// Whether some pair of the list is for short code `id`.
pub open spec fn mentions(pairs: Tally, id: Seq<char>) -> bool {
    exists|i: int| 0 <= i < pairs.len() && (#[trigger] pairs[i]).0 == id
}

/// Whether no short code has two pairs in the list.
pub open spec fn distinct(pairs: Tally) -> bool {
    forall|i: int, j: int|
        0 <= i < j < pairs.len() ==> (#[trigger] pairs[i]).0 != (#[trigger] pairs[j]).0
}

/// The sum of the counts of all pairs for short code `id`.
pub open spec fn total(pairs: Tally, id: Seq<char>) -> nat
    decreases pairs.len(),
{
    if pairs.len() == 0 {
        0
    } else if pairs.last().0 == id {
        total(pairs.drop_last(), id) + pairs.last().1
    } else {
        total(pairs.drop_last(), id)
    }
}

/// The position of a pair for short code `id`, where the list has one.
pub open spec fn slot(pairs: Tally, id: Seq<char>) -> int {
    choose|i: int| 0 <= i < pairs.len() && (#[trigger] pairs[i]).0 == id
}

/// The pending pairs after `n` hits of `id` are merged into `pending`: the
/// pair of `id` grows by `n` where there is one, else a new pair is added
/// behind the others.
pub open spec fn recorded(pending: Tally, id: Seq<char>, n: nat) -> Tally {
    if mentions(pending, id) {
        pending.update(slot(pending, id), (id, pending[slot(pending, id)].1 + n))
    } else {
        pending.push((id, n))
    }
}

/// The pending pairs after all of `hits` are merged, first to last, into
/// `pending`.
pub open spec fn recorded_all(pending: Tally, hits: Tally) -> Tally
    decreases hits.len(),
{
    if hits.len() == 0 {
        pending
    } else {
        recorded(recorded_all(pending, hits.drop_last()), hits.last().0, hits.last().1)
    }
}

/// In a list without repeated short codes the pair of `id` is found at one
/// position only.
pub proof fn lemma_slot_unique(pairs: Tally, id: Seq<char>, i: int)
    requires
        distinct(pairs),
        0 <= i < pairs.len(),
        pairs[i].0 == id,
    ensures
        mentions(pairs, id),
        slot(pairs, id) == i,
{
    let k = slot(pairs, id);
    assert(0 <= k < pairs.len() && pairs[k].0 == id);
    if k < i {
        assert(pairs[k].0 != pairs[i].0);
    } else if i < k {
        assert(pairs[i].0 != pairs[k].0);
    }
}

/// A short code without a pair has total 0.
pub proof fn lemma_total_absent(pairs: Tally, id: Seq<char>)
    requires
        !mentions(pairs, id),
    ensures
        total(pairs, id) == 0,
    decreases pairs.len(),
{
    if pairs.len() > 0 {
        let front = pairs.drop_last();
        assert(pairs[pairs.len() - 1].0 != id);
        assert forall|i: int| 0 <= i < front.len() implies (#[trigger] front[i]).0 != id by {
            assert(pairs[i].0 != id);
        }
        lemma_total_absent(front, id);
    }
}

/// In a list without repeated short codes the total of a short code is the
/// count of its one pair.
pub proof fn lemma_total_at(pairs: Tally, i: int)
    requires
        distinct(pairs),
        0 <= i < pairs.len(),
    ensures
        total(pairs, pairs[i].0) == pairs[i].1,
    decreases pairs.len(),
{
    let id = pairs[i].0;
    let front = pairs.drop_last();
    assert forall|a: int, b: int| 0 <= a < b < front.len() implies (#[trigger] front[a]).0
        != (#[trigger] front[b]).0 by {
        assert(pairs[a].0 != pairs[b].0);
    }
    if i == pairs.len() - 1 {
        assert forall|a: int| 0 <= a < front.len() implies (#[trigger] front[a]).0 != id by {
            assert(pairs[a].0 != pairs[i].0);
        }
        lemma_total_absent(front, id);
    } else {
        assert(pairs[i].0 != pairs[pairs.len() - 1].0);
        assert(front[i] == pairs[i]);
        lemma_total_at(front, i);
    }
}

/// Changing the count of one pair changes the total of its short code by as
/// much and no other total.
pub proof fn lemma_total_update(pairs: Tally, i: int, count: nat, id: Seq<char>)
    requires
        0 <= i < pairs.len(),
    ensures
        total(pairs.update(i, (pairs[i].0, count)), id) + (if pairs[i].0 == id {
            pairs[i].1
        } else {
            0
        }) == total(pairs, id) + (if pairs[i].0 == id {
            count
        } else {
            0
        }),
    decreases pairs.len(),
{
    let after = pairs.update(i, (pairs[i].0, count));
    if i == pairs.len() - 1 {
        assert(after.drop_last() =~= pairs.drop_last());
    } else {
        assert(after.drop_last() =~= pairs.drop_last().update(i, (pairs[i].0, count)));
        assert(pairs.drop_last()[i] == pairs[i]);
        lemma_total_update(pairs.drop_last(), i, count, id);
    }
}

/// Merging `n` hits of `id` raises the total of `id` by `n`, leaves every
/// other total as it was, gives `id` a pair, and repeats no short code.
pub proof fn lemma_recorded(pending: Tally, id: Seq<char>, n: nat)
    requires
        distinct(pending),
    ensures
        distinct(recorded(pending, id, n)),
        mentions(recorded(pending, id, n), id),
        total(recorded(pending, id, n), id) == total(pending, id) + n,
        forall|other: Seq<char>|
            other != id ==> total(recorded(pending, id, n), other) == total(pending, other),
        forall|other: Seq<char>|
            other != id ==> mentions(recorded(pending, id, n), other) == mentions(pending, other),
{
    let after = recorded(pending, id, n);
    if mentions(pending, id) {
        let k = slot(pending, id);
        assert(0 <= k < pending.len() && pending[k].0 == id);
        assert(after[k].0 == id);
        assert forall|i: int, j: int| 0 <= i < j < after.len() implies (#[trigger] after[i]).0
            != (#[trigger] after[j]).0 by {
            assert(pending[i].0 != pending[j].0);
        }
        lemma_total_update(pending, k, pending[k].1 + n, id);
        assert forall|other: Seq<char>| other != id implies total(after, other)
            == total(pending, other) by {
            lemma_total_update(pending, k, pending[k].1 + n, other);
        }
        assert forall|other: Seq<char>| other != id implies mentions(after, other)
            == mentions(pending, other) by {
            if mentions(pending, other) {
                let w = slot(pending, other);
                assert(after[w].0 == other);
            }
            if mentions(after, other) {
                let w = slot(after, other);
                assert(pending[w].0 == other);
            }
        }
    } else {
        assert(after.drop_last() =~= pending);
        assert(after[after.len() - 1].0 == id);
        assert forall|i: int, j: int| 0 <= i < j < after.len() implies (#[trigger] after[i]).0
            != (#[trigger] after[j]).0 by {
            if j < pending.len() {
                assert(pending[i].0 != pending[j].0);
            } else {
                assert(pending[i].0 != id);
            }
        }
        assert forall|other: Seq<char>| other != id implies mentions(after, other)
            == mentions(pending, other) by {
            if mentions(pending, other) {
                let w = slot(pending, other);
                assert(after[w].0 == other);
            }
            if mentions(after, other) {
                let w = slot(after, other);
                assert(pending[w].0 == other);
            }
        }
    }
}

/// Taking one pair out of a list lowers the total of its short code by its
/// count and no other total.
pub proof fn lemma_total_remove(pairs: Tally, j: int, id: Seq<char>)
    requires
        0 <= j < pairs.len(),
    ensures
        total(pairs, id) == total(pairs.remove(j), id) + (if pairs[j].0 == id {
            pairs[j].1
        } else {
            0
        }),
    decreases pairs.len(),
{
    if j == pairs.len() - 1 {
        assert(pairs.remove(j) =~= pairs.drop_last());
    } else {
        assert(pairs.remove(j).drop_last() =~= pairs.drop_last().remove(j));
        assert(pairs.remove(j).last() == pairs.last());
        assert(pairs.drop_last()[j] == pairs[j]);
        lemma_total_remove(pairs.drop_last(), j, id);
    }
}

/// Two lists that hold the same pairs, each as often as the other, give every
/// short code the same total and mention the same short codes.
pub proof fn lemma_total_of_rearranged(a: Tally, b: Tally, id: Seq<char>)
    requires
        a.to_multiset() == b.to_multiset(),
    ensures
        total(a, id) == total(b, id),
        mentions(a, id) == mentions(b, id),
    decreases a.len(),
{
    a.to_multiset_ensures();
    b.to_multiset_ensures();
    if mentions(a, id) {
        let i = slot(a, id);
        assert(a.contains(a[i]));
        assert(b.to_multiset().count(a[i]) > 0);
        assert(b.contains(a[i]));
        let j = choose|j: int| 0 <= j < b.len() && b[j] == a[i];
        assert(b[j].0 == id);
    }
    if mentions(b, id) {
        let i = slot(b, id);
        assert(b.contains(b[i]));
        assert(a.to_multiset().count(b[i]) > 0);
        assert(a.contains(b[i]));
        let j = choose|j: int| 0 <= j < a.len() && a[j] == b[i];
        assert(a[j].0 == id);
    }
    if a.len() > 0 {
        let last = a.len() - 1;
        let x = a[last];
        assert(a.contains(x));
        assert(b.to_multiset().count(x) > 0);
        assert(b.contains(x));
        let j = choose|j: int| 0 <= j < b.len() && b[j] == x;
        assert(a.remove(last) =~= a.drop_last());
        assert(a.remove(last).to_multiset() =~= b.remove(j).to_multiset());
        lemma_total_of_rearranged(a.drop_last(), b.remove(j), id);
        lemma_total_remove(b, j, id);
    } else {
        assert(b.len() == 0);
    }
}

/// The accounting of pending hits: after `hits` are merged into `pending`,
/// no short code has two pairs, the total of each short code has grown by
/// the sum of its hits, and a short code has a pair exactly if it had one or
/// was hit.
pub proof fn lemma_recorded_all(pending: Tally, hits: Tally, id: Seq<char>)
    requires
        distinct(pending),
    ensures
        distinct(recorded_all(pending, hits)),
        total(recorded_all(pending, hits), id) == total(pending, id) + total(hits, id),
        mentions(recorded_all(pending, hits), id) == (mentions(pending, id) || mentions(hits, id)),
    decreases hits.len(),
{
    if hits.len() > 0 {
        let front = hits.drop_last();
        let before = recorded_all(pending, front);
        lemma_recorded_all(pending, front, id);
        lemma_recorded(before, hits.last().0, hits.last().1);
        if mentions(hits, id) {
            let i = slot(hits, id);
            if i < front.len() {
                assert(front[i].0 == id);
            }
        }
        if mentions(front, id) {
            let i = slot(front, id);
            assert(hits[i].0 == id);
        }
        if hits.last().0 == id {
            assert(hits[hits.len() - 1].0 == id);
        }
    }
}

/// Hits coalesce: when hits are merged one after another into an empty
/// store, each short code that was hit gets exactly one pending pair, whose
/// count is the sum of the counts of all its hits, and no other short code
/// gets a pair.
pub proof fn lemma_hits_coalesce(hits: Tally, id: Seq<char>)
    ensures
        distinct(recorded_all(Seq::empty(), hits)),
        mentions(recorded_all(Seq::empty(), hits), id) == mentions(hits, id),
        total(recorded_all(Seq::empty(), hits), id) == total(hits, id),
        ({
            let pending = recorded_all(Seq::empty(), hits);
            forall|i: int|
                0 <= i < pending.len() && (#[trigger] pending[i]).0 == id ==> pending[i].1
                    == total(hits, id)
        }),
{
    let pending = recorded_all(Seq::empty(), hits);
    lemma_recorded_all(Seq::empty(), hits, id);
    assert forall|i: int|
        0 <= i < pending.len() && (#[trigger] pending[i]).0 == id implies pending[i].1 == total(
        hits,
        id,
    ) by {
        lemma_total_at(pending, i);
    }
}

/// The order of hits does not matter: two runs of the same hits, in any two
/// orders, leave every short code with the same pending count, and the same
/// short codes with a pending pair.
pub proof fn lemma_order_of_hits_is_irrelevant(first: Tally, second: Tally, id: Seq<char>)
    requires
        first.to_multiset() == second.to_multiset(),
    ensures
        total(recorded_all(Seq::empty(), first), id)
            == total(recorded_all(Seq::empty(), second), id),
        mentions(recorded_all(Seq::empty(), first), id)
            == mentions(recorded_all(Seq::empty(), second), id),
{
    lemma_hits_coalesce(first, id);
    lemma_hits_coalesce(second, id);
    lemma_total_of_rearranged(first, second, id);
}

/// The hits that were reported and not yet handed to storage: one count per
/// short code, in the order in which the short codes were first hit.
#[derive(Debug)]
pub struct HitStore {
    entries: Vec<(ShortCode, u32)>,
}

impl View for HitStore {
    type V = Tally;

    closed spec fn view(&self) -> Tally {
        pairs_view(self.entries@)
    }
}

impl HitStore {
    #[verifier::type_invariant]
    spec fn no_code_twice(&self) -> bool {
        distinct(pairs_view(self.entries@))
    }

    /// A store with nothing pending.
    pub fn new() -> (store: HitStore)
        ensures
            store@ == Tally::empty(),
    {
        let store = HitStore { entries: Vec::new() };
        assert(store@ =~= Seq::empty());
        store
    }

    /// The number of short codes with a pending count.
    pub fn len(&self) -> (n: usize)
        ensures
            n == self@.len(),
            distinct(self@),
    {
        proof {
            use_type_invariant(self);
        }
        self.entries.len()
    }

    /// The pending count of `shortcode`, if it has one.
    pub fn pending(&self, shortcode: &ShortCode) -> (count: Option<u32>)
        ensures
            distinct(self@),
            count is Some <==> mentions(self@, shortcode@),
            count is Some ==> count->0 == total(self@, shortcode@),
            count is None ==> total(self@, shortcode@) == 0,
    {
        proof {
            use_type_invariant(self);
        }
        let mut i: usize = 0;
        while i < self.entries.len()
            invariant
                i <= self.entries.len(),
                distinct(self@),
                self@ == pairs_view(self.entries@),
                forall|k: int| 0 <= k < i ==> (#[trigger] self@[k]).0 != shortcode@,
            decreases self.entries.len() - i,
        {
            if self.entries[i].0.same(shortcode) {
                proof {
                    lemma_slot_unique(self@, shortcode@, i as int);
                    lemma_total_at(self@, i as int);
                }
                return Some(self.entries[i].1);
            }
            i += 1;
        }
        proof {
            lemma_total_absent(self@, shortcode@);
        }
        None
    }

    /// Whether `count` more hits of `shortcode` can be recorded: the pending
    /// count must stay within `u32`.
    pub fn has_room(&self, shortcode: &ShortCode, count: u32) -> (room: bool)
        ensures
            room == (total(self@, shortcode@) + count <= u32::MAX),
            distinct(self@),
    {
        match self.pending(shortcode) {
            Some(pending) => count <= u32::MAX - pending,
            None => true,
        }
    }

    /// Merges `count` hits of `shortcode` into the pending counts: added to the
    /// count of `shortcode` where it has one, else recorded as a new count
    /// behind the others.
    pub fn record(&mut self, shortcode: ShortCode, count: u32)
        requires
            total(old(self)@, shortcode@) + count <= u32::MAX,
        ensures
            final(self)@ == recorded(old(self)@, shortcode@, count as nat),
            distinct(old(self)@),
            distinct(final(self)@),
            mentions(final(self)@, shortcode@),
            total(final(self)@, shortcode@) == total(old(self)@, shortcode@) + count,
            forall|other: Seq<char>|
                other != shortcode@ ==> total(final(self)@, other) == total(old(self)@, other),
            forall|other: Seq<char>|
                other != shortcode@ ==> mentions(final(self)@, other)
                    == mentions(old(self)@, other),
    {
        proof {
            use_type_invariant(&*self);
            lemma_recorded(self@, shortcode@, count as nat);
        }
        let mut entries: Vec<(ShortCode, u32)> = Vec::new();
        std::mem::swap(&mut self.entries, &mut entries);
        let mut i: usize = 0;
        while i < entries.len()
            invariant
                i <= entries.len(),
                entries@ == old(self).entries@,
                old(self)@ == pairs_view(entries@),
                distinct(old(self)@),
                total(old(self)@, shortcode@) + count <= u32::MAX,
                forall|k: int| 0 <= k < i ==> (#[trigger] old(self)@[k]).0 != shortcode@,
            decreases entries.len() - i,
        {
            if entries[i].0.same(&shortcode) {
                proof {
                    assert(old(self)@[i as int] == (entries[i as int].0@, entries[i as int].1 as nat));
                    lemma_slot_unique(old(self)@, shortcode@, i as int);
                    lemma_total_at(old(self)@, i as int);
                }
                let sum: u32 = entries[i].1 + count;
                entries.set(i, (shortcode, sum));
                assert(pairs_view(entries@) =~= recorded(old(self)@, shortcode@, count as nat));
                proof {
                    lemma_recorded(old(self)@, shortcode@, count as nat);
                }
                self.entries = entries;
                return ;
            }
            i += 1;
        }
        entries.push((shortcode, count));
        assert(pairs_view(entries@) =~= recorded(old(self)@, shortcode@, count as nat));
        self.entries = entries;
    }

    /// Takes every pending count out of the store, which is left empty. The
    /// pairs keep their order.
    pub fn take(&mut self) -> (batch: Vec<(ShortCode, u32)>)
        ensures
            pairs_view(batch@) == old(self)@,
            distinct(pairs_view(batch@)),
            final(self)@ == Tally::empty(),
    {
        proof {
            use_type_invariant(&*self);
        }
        let mut batch: Vec<(ShortCode, u32)> = Vec::new();
        std::mem::swap(&mut self.entries, &mut batch);
        assert(self@ =~= Seq::empty());
        batch
    }
}

} // verus!
