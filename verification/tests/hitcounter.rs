use clipstash::commit::{Commit, Outcome, StoreCall};
use clipstash::hitcounter::{
    commit_hits, process_msg, step, HitCountMsg, Received, Step, COMMIT_INTERVAL_SECS,
};
use clipstash::pending::HitStore;
use clipstash::shortcode::ShortCode;

fn code(text: &str) -> ShortCode {
    ShortCode::from_string(text.to_string())
}

fn hit(text: &str, count: u32) -> Received {
    Received::Msg(HitCountMsg::Hit(code(text), count))
}

/// Runs the cycle against a storage whose answers are `results`, in order,
/// and returns the operations it asked for.
fn run(commit: &mut Commit, results: &[bool]) -> Vec<StoreCall> {
    let mut asked = Vec::new();
    let mut answers = results.iter();
    while let Some(call) = commit.call() {
        asked.push(call);
        match answers.next() {
            Some(ok) => commit.advance(*ok),
            None => break,
        }
    }
    asked
}

fn flush_of(next: Step) -> Commit {
    match next {
        Step::Flush(commit) => commit,
        other => panic!("expected a commit cycle, got {:?}", other),
    }
}

#[test]
fn five_hits_become_one_increase_of_five() {
    let mut hits = HitStore::new();
    for _ in 0..5 {
        assert!(matches!(step(&mut hits, hit("abc123", 1)), Step::Receive));
    }
    assert_eq!(hits.len(), 1);
    assert_eq!(hits.pending(&code("abc123")), Some(5));
    assert!(matches!(step(&mut hits, Received::Empty), Step::Idle(5)));
    let mut commit = flush_of(step(&mut hits, Received::Msg(HitCountMsg::Commit)));
    assert_eq!(hits.len(), 0);
    let asked = run(&mut commit, &[true, true, true]);
    assert_eq!(
        asked,
        vec![StoreCall::Begin, StoreCall::Increase(code("abc123"), 5), StoreCall::End]
    );
    assert_eq!(commit.outcome(), Some(Outcome::Committed));
    assert_eq!(commit.call(), None);
}

#[test]
fn hits_of_one_code_are_summed() {
    let mut hits = HitStore::new();
    hits.record(code("a"), 3);
    hits.record(code("a"), 4);
    hits.record(code("a"), 0);
    hits.record(code("a"), 10);
    assert_eq!(hits.pending(&code("a")), Some(17));
    assert_eq!(hits.take(), vec![(code("a"), 17)]);
}

#[test]
fn interleaving_gives_the_totals_of_sorted_order() {
    let mut mixed = HitStore::new();
    for (id, n) in [("b", 2), ("a", 1), ("c", 7), ("a", 4), ("b", 1), ("a", 1)] {
        mixed.record(code(id), n);
    }
    let mut sorted = HitStore::new();
    for (id, n) in [("a", 1), ("a", 4), ("a", 1), ("b", 2), ("b", 1), ("c", 7)] {
        sorted.record(code(id), n);
    }
    for id in ["a", "b", "c", "d"] {
        assert_eq!(mixed.pending(&code(id)), sorted.pending(&code(id)));
    }
    assert_eq!(mixed.pending(&code("a")), Some(6));
    assert_eq!(mixed.pending(&code("b")), Some(3));
    assert_eq!(mixed.pending(&code("c")), Some(7));
    assert_eq!(mixed.pending(&code("d")), None);
    assert_eq!(mixed.len(), 3);
    assert_eq!(sorted.len(), 3);
}

#[test]
fn pending_pairs_keep_the_order_of_first_arrival() {
    let mut hits = HitStore::new();
    hits.record(code("b"), 2);
    hits.record(code("a"), 1);
    hits.record(code("b"), 5);
    assert_eq!(hits.take(), vec![(code("b"), 7), (code("a"), 1)]);
    assert_eq!(hits.len(), 0);
    assert_eq!(hits.pending(&code("b")), None);
}

#[test]
fn a_hit_of_zero_still_gets_a_pair() {
    let mut hits = HitStore::new();
    hits.record(code("z"), 0);
    assert_eq!(hits.pending(&code("z")), Some(0));
    let mut commit = commit_hits(&mut hits);
    let asked = run(&mut commit, &[true, true, true]);
    assert_eq!(asked, vec![StoreCall::Begin, StoreCall::Increase(code("z"), 0), StoreCall::End]);
}

#[test]
fn idle_queue_leads_to_an_empty_transaction() {
    let mut hits = HitStore::new();
    match step(&mut hits, Received::Empty) {
        Step::Idle(secs) => {
            assert_eq!(secs, 5);
            assert_eq!(secs, COMMIT_INTERVAL_SECS);
        }
        other => panic!("expected idling, got {:?}", other),
    }
    let mut commit = flush_of(step(&mut hits, Received::Msg(HitCountMsg::Commit)));
    let asked = run(&mut commit, &[true, true]);
    assert_eq!(asked, vec![StoreCall::Begin, StoreCall::End]);
    assert_eq!(commit.outcome(), Some(Outcome::Committed));
}

#[test]
fn a_failed_increase_stops_nothing() {
    let mut hits = HitStore::new();
    hits.record(code("a"), 1);
    hits.record(code("b"), 2);
    hits.record(code("c"), 3);
    let mut commit = commit_hits(&mut hits);
    let asked = run(&mut commit, &[true, true, false, true, true]);
    assert_eq!(
        asked,
        vec![
            StoreCall::Begin,
            StoreCall::Increase(code("a"), 1),
            StoreCall::Increase(code("b"), 2),
            StoreCall::Increase(code("c"), 3),
            StoreCall::End,
        ]
    );
    assert_eq!(commit.outcome(), Some(Outcome::Committed));
}

#[test]
fn every_increase_may_fail() {
    let mut hits = HitStore::new();
    hits.record(code("a"), 1);
    hits.record(code("b"), 2);
    let mut commit = commit_hits(&mut hits);
    let asked = run(&mut commit, &[true, false, false, true]);
    assert_eq!(asked.len(), 4);
    assert_eq!(asked[3], StoreCall::End);
    assert_eq!(commit.outcome(), Some(Outcome::Committed));
}

#[test]
fn a_failed_begin_ends_the_cycle() {
    let mut hits = HitStore::new();
    hits.record(code("a"), 1);
    let mut commit = commit_hits(&mut hits);
    assert_eq!(commit.outcome(), None);
    let asked = run(&mut commit, &[false, true, true]);
    assert_eq!(asked, vec![StoreCall::Begin]);
    assert_eq!(commit.outcome(), Some(Outcome::BeginFailed));
    assert_eq!(hits.len(), 0);
    assert_eq!(hits.pending(&code("a")), None);
}

#[test]
fn a_failed_end_is_the_outcome() {
    let mut hits = HitStore::new();
    hits.record(code("a"), 1);
    let mut commit = commit_hits(&mut hits);
    let asked = run(&mut commit, &[true, true, false]);
    assert_eq!(asked.len(), 3);
    assert_eq!(commit.outcome(), Some(Outcome::EndFailed));
    commit.advance(true);
    assert_eq!(commit.outcome(), Some(Outcome::EndFailed));
    assert_eq!(commit.call(), None);
}

#[test]
fn hits_after_a_commit_are_counted_afresh() {
    let mut hits = HitStore::new();
    hits.record(code("a"), 4);
    let _ = commit_hits(&mut hits);
    hits.record(code("a"), 2);
    assert_eq!(hits.pending(&code("a")), Some(2));
}

#[test]
fn process_msg_merges_or_commits() {
    let mut hits = HitStore::new();
    assert!(process_msg(HitCountMsg::Hit(code("a"), 2), &mut hits).is_none());
    assert!(process_msg(HitCountMsg::Hit(code("a"), 3), &mut hits).is_none());
    assert_eq!(hits.pending(&code("a")), Some(5));
    let commit = process_msg(HitCountMsg::Commit, &mut hits);
    let mut commit = commit.expect("a commit cycle");
    assert_eq!(hits.len(), 0);
    assert_eq!(commit.call(), Some(StoreCall::Begin));
    commit.advance(true);
    assert_eq!(commit.call(), Some(StoreCall::Increase(code("a"), 5)));
}

#[test]
fn a_count_that_would_not_fit_is_handed_back() {
    let mut hits = HitStore::new();
    assert!(matches!(step(&mut hits, hit("a", u32::MAX - 1)), Step::Receive));
    assert!(hits.has_room(&code("a"), 1));
    assert!(!hits.has_room(&code("a"), 2));
    assert!(hits.has_room(&code("b"), u32::MAX));
    match step(&mut hits, hit("a", 2)) {
        Step::Full(shortcode, count) => {
            assert_eq!(shortcode, code("a"));
            assert_eq!(count, 2);
        }
        other => panic!("expected the hit back, got {:?}", other),
    }
    assert_eq!(hits.pending(&code("a")), Some(u32::MAX - 1));
    assert!(matches!(step(&mut hits, hit("a", 1)), Step::Receive));
    assert_eq!(hits.pending(&code("a")), Some(u32::MAX));
}

#[test]
fn a_disconnected_queue_stops_the_worker() {
    let mut hits = HitStore::new();
    hits.record(code("a"), 1);
    assert!(matches!(step(&mut hits, Received::Disconnected), Step::Stop));
    assert_eq!(hits.pending(&code("a")), Some(1));
}

#[test]
fn shortcode_wraps_its_text() {
    let shortcode = code("abc123");
    assert_eq!(shortcode.as_str(), "abc123");
    assert!(shortcode.same(&code("abc123")));
    assert!(!shortcode.same(&code("abc124")));
    assert_eq!(shortcode.duplicate(), shortcode);
    assert_eq!(shortcode.into_inner(), "abc123".to_string());
}

fn stored(shortcode: &str, hits: i64) -> clipstash::model::Clip {
    clipstash::model::Clip {
        clip_id: String::new(),
        shortcode: shortcode.to_string(),
        content: String::new(),
        title: None,
        posted: 0,
        expires: None,
        password: None,
        hits,
    }
}

/// Runs the cycle against clips held in memory and returns how many
/// increases it asked for.
fn flush_into(commit: &mut Commit, clips: &mut Vec<clipstash::model::Clip>) -> usize {
    let mut increases = 0;
    while let Some(call) = commit.call() {
        let ok = match call {
            StoreCall::Begin | StoreCall::End => true,
            StoreCall::Increase(shortcode, count) => {
                increases += 1;
                clipstash::query::increase_hit_count(&shortcode, count, clips).is_ok()
            }
        };
        commit.advance(ok);
    }
    increases
}

#[test]
fn five_quick_hits_raise_the_stored_counter_by_five_in_one_call() {
    let mut clips = vec![stored("other", 3), stored("abc123", 10)];
    let mut hits = HitStore::new();
    for _ in 0..5 {
        assert!(matches!(step(&mut hits, hit("abc123", 1)), Step::Receive));
    }
    assert!(matches!(step(&mut hits, Received::Empty), Step::Idle(5)));
    let mut commit = flush_of(step(&mut hits, Received::Msg(HitCountMsg::Commit)));
    assert_eq!(flush_into(&mut commit, &mut clips), 1);
    assert_eq!(commit.outcome(), Some(Outcome::Committed));
    assert_eq!(clips, vec![stored("other", 3), stored("abc123", 15)]);
    let mut idle = flush_of(step(&mut hits, Received::Msg(HitCountMsg::Commit)));
    assert_eq!(flush_into(&mut idle, &mut clips), 0);
    assert_eq!(clips, vec![stored("other", 3), stored("abc123", 15)]);
}

#[test]
fn hits_of_a_clip_that_was_swept_meanwhile_are_lost_without_error() {
    let mut clips = vec![stored("a1", 0), stored("b2", 0)];
    clips[0].expires = Some(50);
    let mut hits = HitStore::new();
    hits.record(code("a1"), 2);
    hits.record(code("b2"), 3);
    assert_eq!(clipstash::query::delete_expired(&mut clips, 100), 1);
    let mut commit = commit_hits(&mut hits);
    assert_eq!(flush_into(&mut commit, &mut clips), 2);
    assert_eq!(commit.outcome(), Some(Outcome::Committed));
    assert_eq!(clips, vec![stored("b2", 3)]);
}

#[test]
fn a_store_failure_for_one_clip_leaves_the_others_counted() {
    let mut clips = vec![stored("a", 0), stored("full", i64::MAX), stored("c", 0)];
    let mut hits = HitStore::new();
    for id in ["a", "full", "c"] {
        hits.record(code(id), 1);
    }
    let mut commit = commit_hits(&mut hits);
    assert_eq!(flush_into(&mut commit, &mut clips), 3);
    assert_eq!(commit.outcome(), Some(Outcome::Committed));
    assert_eq!(clips, vec![stored("a", 1), stored("full", i64::MAX), stored("c", 1)]);
}

#[test]
fn counts_reported_equal_counts_pending_plus_counts_taken_out() {
    let mut hits = HitStore::new();
    let mut taken: u64 = 0;
    let mut reported: u64 = 0;
    let msgs = [
        HitCountMsg::Hit(code("a"), 2),
        HitCountMsg::Hit(code("b"), 9),
        HitCountMsg::Commit,
        HitCountMsg::Hit(code("a"), 3),
        HitCountMsg::Commit,
        HitCountMsg::Commit,
        HitCountMsg::Hit(code("a"), 4),
    ];
    for msg in msgs {
        if let HitCountMsg::Hit(shortcode, count) = &msg {
            if shortcode.same(&code("a")) {
                reported += u64::from(*count);
            }
        }
        if let Step::Flush(mut commit) = step(&mut hits, Received::Msg(msg)) {
            commit.advance(true);
            while let Some(StoreCall::Increase(shortcode, count)) = commit.call() {
                if shortcode.same(&code("a")) {
                    taken += u64::from(count);
                }
                commit.advance(true);
            }
        }
    }
    assert_eq!(reported, 9);
    assert_eq!(taken, 5);
    assert_eq!(hits.pending(&code("a")), Some(4));
}
