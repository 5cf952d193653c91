use stt_core::live::{commit_policy, join_segments};

const LIVE_TRAILING_GUARD_SEC: f32 = 1.0;
const LIVE_MAX_WINDOW_SEC: f32 = 28.0;

type Segment = (f32, f32, String);

fn seg(start: f32, end: f32, text: &str) -> Segment {
    (start, end, text.to_string())
}

/// Applies the policy the way a caller with timestamps does.
fn commit_segments(segs: &[Segment], region_dur: f32) -> (String, Option<f32>, String) {
    let texts: Vec<String> = segs.iter().map(|s| s.2.clone()).collect();
    let last_stable = segs
        .last()
        .map_or(false, |s| s.1 <= region_dur - LIVE_TRAILING_GUARD_SEC);
    let plan = commit_policy(&texts, last_stable, region_dur > LIVE_MAX_WINDOW_SEC);
    (
        plan.committed_text,
        plan.commit_through.map(|i| segs[i].1),
        plan.pending_text,
    )
}

#[test]
fn commit_segments_holds_back_unstable_trailing_segment() {
    let segs = vec![seg(0.0, 2.0, " hello "), seg(2.0, 4.5, " world ")];
    let d = commit_segments(&segs, 5.0);
    assert_eq!(d.0, "hello");
    assert_eq!(d.1, Some(2.0));
    assert_eq!(d.2, "");
}

#[test]
fn commit_segments_commits_trailing_segment_once_stable() {
    let segs = vec![seg(0.0, 2.0, "hello"), seg(2.0, 4.0, "world")];
    let d = commit_segments(&segs, 6.0);
    assert_eq!(d.0, "hello world");
    assert_eq!(d.1, Some(4.0));
    assert_eq!(d.2, "");
}

#[test]
fn commit_segments_returns_pending_preview_when_nothing_stable() {
    let segs = vec![seg(0.0, 1.8, " still talking ")];
    let d = commit_segments(&segs, 2.0);
    assert_eq!(d.0, "");
    assert_eq!(d.1, None);
    assert_eq!(d.2, "still talking");
}

#[test]
fn commit_segments_force_commits_past_max_window() {
    let segs = vec![seg(0.0, 29.5, "a long uninterrupted monologue")];
    let d = commit_segments(&segs, LIVE_MAX_WINDOW_SEC + 1.0);
    assert_eq!(d.0, "a long uninterrupted monologue");
    assert_eq!(d.1, Some(29.5));
    assert_eq!(d.2, "");
}

#[test]
fn commit_segments_empty_input_commits_nothing() {
    let d = commit_segments(&[], 30.0);
    assert_eq!(d.0, "");
    assert_eq!(d.1, None);
    assert_eq!(d.2, "");
}

#[test]
fn empty_segment_texts_leave_no_stray_spaces() {
    let texts = vec!["".to_string(), " a ".to_string(), "\t".to_string(), "b".to_string()];
    let plan = commit_policy(&texts, true, false);
    assert_eq!(plan.committed_text, "a  b");
    assert_eq!(plan.commit_through, Some(3));
    assert_eq!(join_segments(&texts), " a  b");
}

#[test]
fn join_segments_trims_unicode_white_space() {
    let texts = vec!["\u{3000}x\u{a0}".to_string(), "y\u{2029}".to_string()];
    assert_eq!(join_segments(&texts), "x y");
}
