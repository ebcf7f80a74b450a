//! What the storage queries do, stated on rows that are held in memory.

use crate::model::Clip;
use crate::pending::{total, Tally};
use crate::shortcode::ShortCode;
use vstd::prelude::*;

verus! {

/// Why a query failed.
#[derive(Clone, Debug, PartialEq, Eq)]
pub enum DataError {
    /// Storage refused the query; the text says why.
    Database(String),
}

/// What became of an API key that was to be revoked.
#[derive(Clone, Copy, Debug, PartialEq, Eq)]
pub enum RevocationStatus {
    /// The key was revoked.
    Revoked,
    /// The key was not found, so nothing was revoked.
    NotFound,
}

/// The status of a revocation that removed `rows_affected` keys.
pub fn revocation_status(rows_affected: u64) -> (status: RevocationStatus)
    ensures
        status is NotFound <==> rows_affected == 0,
{
    if rows_affected == 0 {
        RevocationStatus::NotFound
    } else {
        RevocationStatus::Revoked
    }
}

/// Whether an API key is valid that storage holds `count` times.
pub fn key_is_valid(count: u32) -> (valid: bool)
    ensures
        valid == (count > 0),
{
    count > 0
}

/// The clip after `n` hits of the clip named `code` are counted: its hit
/// counter is raised if it is that clip, and it is unchanged if not.
pub open spec fn counted(clip: Clip, code: Seq<char>, n: nat) -> Clip {
    if clip.shortcode@ == code {
        Clip { hits: (clip.hits + n) as i64, ..clip }
    } else {
        clip
    }
}

/// Whether the hit counter of every clip named `code` has room for `n` more.
pub open spec fn counters_have_room(clips: Seq<Clip>, code: Seq<char>, n: nat) -> bool {
    forall|i: int|
        0 <= i < clips.len() && (#[trigger] clips[i]).shortcode@ == code ==> clips[i].hits + n
            <= i64::MAX
}

/// Adds `hits` to the hit counter of the clip named `shortcode`. Where no
/// clip has that name nothing changes, and that is no error. Where a counter
/// has no room for the hits, the query fails and nothing changes.
pub fn increase_hit_count(shortcode: &ShortCode, hits: u32, clips: &mut Vec<Clip>) -> (done:
    Result<(), DataError>)
    ensures
        done is Ok <==> counters_have_room(old(clips)@, shortcode@, hits as nat),
        done is Ok ==> final(clips)@ == old(clips)@.map_values(
            |clip: Clip| counted(clip, shortcode@, hits as nat),
        ),
        done is Err ==> final(clips)@ == old(clips)@,
{
    let mut i: usize = 0;
    while i < clips.len()
        invariant
            i <= clips@.len(),
            clips@ == old(clips)@,
            forall|k: int|
                0 <= k < i && (#[trigger] clips@[k]).shortcode@ == shortcode@ ==> clips@[k].hits
                    + hits <= i64::MAX,
        decreases clips@.len() - i,
    {
        if shortcode.is_text(&clips[i].shortcode)
            && clips[i].hits > i64::MAX - (hits as i64) {
            return Err(DataError::Database("bigint out of range".to_owned()));
        }
        i += 1;
    }
    let mut j: usize = 0;
    while j < clips.len()
        invariant
            j <= clips@.len(),
            clips@.len() == old(clips)@.len(),
            counters_have_room(old(clips)@, shortcode@, hits as nat),
            forall|k: int|
                0 <= k < j ==> #[trigger] clips@[k] == counted(
                    old(clips)@[k],
                    shortcode@,
                    hits as nat,
                ),
            forall|k: int| j <= k < clips@.len() ==> #[trigger] clips@[k] == old(clips)@[k],
        decreases clips@.len() - j,
    {
        if shortcode.is_text(&clips[j].shortcode) {
            clips[j].hits = clips[j].hits + (hits as i64);
        }
        j += 1;
    }
    assert(clips@ =~= old(clips)@.map_values(|clip: Clip| counted(clip, shortcode@, hits as nat)));
    Ok(())
}

/// The clips after the hits of every pair of `batch` are counted, pair by
/// pair in the batch's order.
pub open spec fn counted_all(clips: Seq<Clip>, batch: Tally) -> Seq<Clip>
    decreases batch.len(),
{
    if batch.len() == 0 {
        clips
    } else {
        counted_all(clips, batch.drop_last()).map_values(
            |clip: Clip| counted(clip, batch.last().0, batch.last().1),
        )
    }
}

/// Counting a batch raises the hit counter of each clip by the total that
/// the batch holds for its short code, provided the counter has room for
/// that, and changes nothing else of the clip.
pub proof fn lemma_counted_all(clips: Seq<Clip>, batch: Tally, i: int)
    requires
        0 <= i < clips.len(),
        clips[i].hits + total(batch, clips[i].shortcode@) <= i64::MAX,
    ensures
        counted_all(clips, batch).len() == clips.len(),
        counted_all(clips, batch)[i] == (Clip {
            hits: (clips[i].hits + total(batch, clips[i].shortcode@)) as i64,
            ..clips[i]
        }),
    decreases batch.len(),
{
    if batch.len() > 0 {
        lemma_counted_all(clips, batch.drop_last(), i);
    }
}

/// Whether a clip with expiry `expires` has expired at time `now`: it has an
/// expiry, and that lies before `now`.
pub open spec fn expired(expires: Option<i64>, now: i64) -> bool {
    expires is Some && expires->0 < now
}

/// Whether the clip is still kept at time `now`.
pub open spec fn kept(clip: Clip, now: i64) -> bool {
    !expired(clip.expires, now)
}

/// The clips that a sweep at time `now` leaves of `clips`: those that have
/// not expired, in their order.
pub open spec fn swept(clips: Seq<Clip>, now: i64) -> Seq<Clip> {
    clips.filter(|clip: Clip| kept(clip, now))
}

/// A sweep is exact: a clip is left after the sweep exactly if it was there
/// before and has not expired. So every clip whose expiry lies before `now`
/// is gone, and no clip that expires at `now` or later, or never, is.
pub proof fn lemma_sweep_is_exact(clips: Seq<Clip>, now: i64, clip: Clip)
    ensures
        swept(clips, now).contains(clip) <==> clips.contains(clip) && !expired(clip.expires, now),
{
    let keep = |clip: Clip| kept(clip, now);
    if swept(clips, now).contains(clip) {
        let i = choose|i: int| 0 <= i < swept(clips, now).len() && swept(clips, now)[i] == clip;
        clips.lemma_filter_pred(keep, i);
        clips.lemma_filter_contains_rev(keep, clip);
    }
    if clips.contains(clip) && kept(clip, now) {
        let i = choose|i: int| 0 <= i < clips.len() && clips[i] == clip;
        clips.lemma_filter_contains(keep, i);
    }
}

/// Whether a clip with expiry `expires` has expired at time `now`.
pub fn is_expired(expires: Option<i64>, now: i64) -> (gone: bool)
    ensures
        gone == expired(expires, now),
{
    match expires {
        Some(at) => at < now,
        None => false,
    }
}

/// One sweep at time `now`: removes from `clips` exactly the clips that have
/// expired, keeps the others in their order, and returns how many it removed.
pub fn delete_expired(clips: &mut Vec<Clip>, now: i64) -> (removed: u64)
    ensures
        final(clips)@ == swept(old(clips)@, now),
        removed == old(clips)@.len() - final(clips)@.len(),
        forall|clip: Clip|
            final(clips)@.contains(clip) <==> old(clips)@.contains(clip) && !expired(
                clip.expires,
                now,
            ),
{
    let ghost keep = |clip: Clip| kept(clip, now);
    let ghost before = clips@;
    let total: usize = clips.len();
    let mut i: usize = 0;
    let mut removed: u64 = 0;
    proof {
        reveal(Seq::filter);
        assert(before.subrange(0, 0) =~= Seq::empty());
        assert(clips@.subrange(0, 0) =~= Seq::empty());
        assert(clips@.subrange(0, clips@.len() as int) =~= before);
    }
    while i < clips.len()
        invariant
            before == old(clips)@,
            before.len() == total,
            keep == (|clip: Clip| kept(clip, now)),
            i <= clips@.len(),
            i + removed + (clips@.len() - i) == before.len(),
            clips@.subrange(0, i as int) == before.subrange(0, i + removed).filter(keep),
            clips@.subrange(i as int, clips@.len() as int) == before.subrange(
                i + removed,
                before.len() as int,
            ),
        decreases clips@.len() - i,
    {
        let ghost j = i + removed;
        let ghost current = clips@;
        proof {
            reveal(Seq::filter);
            assert(current[i as int] == current.subrange(i as int, current.len() as int)[0]);
            assert(current[i as int] == before[j]);
            assert(before.subrange(0, j + 1).drop_last() =~= before.subrange(0, j));
            assert(before.subrange(0, j + 1).last() == before[j]);
        }
        if is_expired(clips[i].expires, now) {
            let _ = clips.remove(i);
            removed += 1;
            proof {
                assert(clips@.subrange(0, i as int) =~= current.subrange(0, i as int));
                assert(clips@.subrange(i as int, clips@.len() as int) =~= current.subrange(
                    i as int,
                    current.len() as int,
                ).subrange(1, current.len() - i));
                assert(clips@.subrange(i as int, clips@.len() as int) =~= before.subrange(
                    j + 1,
                    before.len() as int,
                ));
            }
        } else {
            i += 1;
            proof {
                assert(clips@.subrange(0, i as int) =~= current.subrange(0, i - 1).push(
                    current[i - 1],
                ));
                assert(clips@.subrange(i as int, clips@.len() as int) =~= current.subrange(
                    i - 1,
                    current.len() as int,
                ).subrange(1, current.len() - (i - 1)));
                assert(clips@.subrange(i as int, clips@.len() as int) =~= before.subrange(
                    j + 1,
                    before.len() as int,
                ));
            }
        }
    }
    proof {
        assert(clips@.subrange(0, i as int) =~= clips@);
        assert(before.subrange(0, i + removed) =~= before);
        assert forall|clip: Clip|
            clips@.contains(clip) <==> before.contains(clip) && !expired(clip.expires, now) by {
            lemma_sweep_is_exact(before, now, clip);
        }
    }
    removed
}

} // verus!
