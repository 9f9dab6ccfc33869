use platformer_core::animation::AnimationCursor;
use platformer_core::clip::AnimationClip;

#[test]
fn advance_accumulates_and_wraps() {
    let clip = AnimationClip::new(3, 100);
    let mut cur = AnimationCursor::new();
    cur.advance(&clip, 250);
    assert_eq!(cur.frame_index, 2);
    assert_eq!(cur.accumulated_time, 50);
}

#[test]
fn advance_below_one_frame_only_accumulates() {
    let clip = AnimationClip::new(3, 100);
    let mut cur = AnimationCursor::new();
    cur.advance(&clip, 99);
    assert_eq!(cur.frame_index, 0);
    assert_eq!(cur.accumulated_time, 99);
}

#[test]
fn advance_zero_elapsed_changes_nothing() {
    let clip = AnimationClip::new(3, 100);
    let mut cur = AnimationCursor::new();
    cur.advance(&clip, 250);
    let before = cur;
    cur.advance(&clip, 0);
    assert_eq!(cur, before);
}

#[test]
fn advance_exactly_one_frame_time_only_fills_accumulator() {
    // One exact frame duration does not yet roll the frame over: rollover is
    // strictly after the duration has passed.
    let clip = AnimationClip::new(3, 100);
    let mut cur = AnimationCursor::new();
    cur.advance(&clip, 100);
    assert_eq!(cur.frame_index, 0);
    assert_eq!(cur.accumulated_time, 100);
}

#[test]
fn advance_whole_frames_round_trip() {
    // k whole frame durations advance the index by k mod frame_count and
    // leave the accumulator at zero (k = 3, then k = 7 across the wrap).
    let clip = AnimationClip::new(5, 100);
    let mut cur = AnimationCursor::new();
    cur.advance(&clip, 300);
    assert_eq!(cur.frame_index, 3);
    assert_eq!(cur.accumulated_time, 0);

    let mut cur2 = AnimationCursor::new();
    cur2.advance(&clip, 700);
    assert_eq!(cur2.frame_index, 2);
    assert_eq!(cur2.accumulated_time, 0);
}

#[test]
fn advance_survives_large_stutter() {
    // A huge elapsed time is absorbed in a single floor-division step and the
    // frame index stays inside the clip.
    let clip = AnimationClip::new(4, 10);
    let mut cur = AnimationCursor::new();
    cur.advance(&clip, 12345);
    assert!(cur.frame_index < 4);
    assert_eq!(cur.frame_index, 1234 % 4);
    assert_eq!(cur.accumulated_time, 5);
}

#[test]
fn retarget_takes_index_modulo_new_clip() {
    let long_clip = AnimationClip::new(12, 100);
    let short_clip = AnimationClip::new(4, 1000);
    let mut cur = AnimationCursor::new();
    cur.advance(&long_clip, 1050);
    assert_eq!(cur.frame_index, 10);
    assert_eq!(cur.accumulated_time, 50);
    cur.retarget(&short_clip);
    assert_eq!(cur.frame_index, 2);
    // The accumulated time carries across a clip switch unchanged.
    assert_eq!(cur.accumulated_time, 50);
}
