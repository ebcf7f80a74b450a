use clipstash::maintenance::{Maintenance, SweepAction, SweepEvent, SWEEP_INTERVAL_SECS};
use clipstash::model::{Clip, GetClip};
use clipstash::query::{delete_expired, is_expired};
use clipstash::shortcode::ShortCode;

const DAY: i64 = 86_400;

fn clip(shortcode: &str, expires: Option<i64>) -> Clip {
    Clip {
        clip_id: format!("id-{}", shortcode),
        shortcode: shortcode.to_string(),
        content: format!("content for clip '{}'", shortcode),
        title: None,
        posted: 0,
        expires,
        password: None,
        hits: 0,
    }
}

#[test]
fn sweep_removes_the_clip_that_expired_yesterday() {
    let now: i64 = 1_700_000_000;
    let mut clips = vec![clip("a1", Some(now - DAY)), clip("b2", Some(now + DAY))];
    let removed = delete_expired(&mut clips, now);
    assert_eq!(removed, 1);
    assert_eq!(clips, vec![clip("b2", Some(now + DAY))]);
}

#[test]
fn sweep_keeps_clips_without_expiry_and_those_not_yet_due() {
    let now: i64 = 1000;
    let mut clips = vec![
        clip("none", None),
        clip("past", Some(999)),
        clip("now", Some(1000)),
        clip("old", Some(i64::MIN)),
        clip("next", Some(1001)),
        clip("far", Some(i64::MAX)),
    ];
    let removed = delete_expired(&mut clips, now);
    assert_eq!(removed, 2);
    let left: Vec<&str> = clips.iter().map(|c| c.shortcode.as_str()).collect();
    assert_eq!(left, vec!["none", "now", "next", "far"]);
}

#[test]
fn sweep_of_nothing_removes_nothing() {
    let mut clips: Vec<Clip> = Vec::new();
    assert_eq!(delete_expired(&mut clips, 5), 0);
    assert!(clips.is_empty());
    let mut all = vec![clip("x", Some(1)), clip("y", Some(2))];
    assert_eq!(delete_expired(&mut all, 3), 2);
    assert!(all.is_empty());
    assert_eq!(delete_expired(&mut all, 3), 0);
}

#[test]
fn expiry_is_strictly_before_now() {
    assert!(is_expired(Some(9), 10));
    assert!(!is_expired(Some(10), 10));
    assert!(!is_expired(Some(11), 10));
    assert!(!is_expired(None, 10));
    assert!(!is_expired(None, i64::MAX));
}

#[test]
fn sweeper_sweeps_on_each_tick_and_then_waits() {
    assert_eq!(SWEEP_INTERVAL_SECS, 10);
    for result in [Some(3), Some(0), None] {
        let mut sweeper = Maintenance::new();
        assert_eq!(sweeper.on_event(SweepEvent::Tick), SweepAction::DeleteExpired);
        assert_eq!(sweeper.on_event(SweepEvent::Swept(result)), SweepAction::AwaitTick(10));
        assert_eq!(sweeper, Maintenance::new());
        assert_eq!(sweeper.on_event(SweepEvent::Tick), SweepAction::DeleteExpired);
    }
}

#[test]
fn a_tick_during_a_sweep_starts_no_second_sweep() {
    let mut sweeper = Maintenance::new();
    assert_eq!(sweeper.on_event(SweepEvent::Tick), SweepAction::DeleteExpired);
    assert_eq!(sweeper.on_event(SweepEvent::Tick), SweepAction::AwaitTick(10));
    assert_eq!(sweeper.on_event(SweepEvent::Tick), SweepAction::AwaitTick(10));
    assert_eq!(sweeper.on_event(SweepEvent::Swept(Some(1))), SweepAction::AwaitTick(10));
    assert_eq!(sweeper.on_event(SweepEvent::Swept(None)), SweepAction::AwaitTick(10));
    assert_eq!(sweeper.on_event(SweepEvent::Tick), SweepAction::DeleteExpired);
}

#[test]
fn get_clip_is_made_from_a_short_code() {
    let from_code = GetClip::from(ShortCode::from_string("bdbd4b3cb4".to_string()));
    assert_eq!(from_code.shortcode, "bdbd4b3cb4");
    let from_text = GetClip::from("bdbd4b3cb4".to_string());
    assert_eq!(from_text, from_code);
}
