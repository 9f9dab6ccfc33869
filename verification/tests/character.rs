use platformer_core::character::Character;
use platformer_core::classify::MovementState;
use platformer_core::clip::AnimationClip;
use platformer_core::clip::ClipTable;
use platformer_core::input::InputSnapshot;
use platformer_core::JUMP_ENERGY;

fn standard_clips() -> ClipTable {
    let mut table = ClipTable::new();
    table.add(MovementState::Idle, AnimationClip::new(11, 100));
    table.add(MovementState::Run, AnimationClip::new(12, 100));
    table.add(MovementState::Jump, AnimationClip::new(1, 1000));
    table.add(MovementState::Fall, AnimationClip::new(1, 1000));
    table
}

#[test]
fn spawn_defaults() {
    let clips = standard_clips();
    let c = Character::spawn(&clips).unwrap();
    assert_eq!(c.x, 0);
    assert_eq!(c.y, 0);
    assert!(c.grounded);
    assert!(!c.facing_left);
    assert!(c.jump.is_none());
    assert_eq!(c.state, MovementState::Idle);
    assert_eq!(c.cursor.frame_index, 0);
    assert_eq!(c.cursor.accumulated_time, 0);
}

#[test]
fn spawn_without_idle_clip_fails() {
    let mut table = ClipTable::new();
    table.add(MovementState::Run, AnimationClip::new(12, 100));
    let err = Character::spawn(&table).unwrap_err();
    assert_eq!(err.state, MovementState::Idle);
}

#[test]
fn jump_cycle_scenario() {
    // Spawn grounded and idle; press jump once; ride the budget out, fall
    // back down and come to rest idle, exactly as the state machine orders
    // the frames.
    let clips = standard_clips();
    let mut c = Character::spawn(&clips).unwrap();
    let idle = InputSnapshot::released();
    let mut press_jump = InputSnapshot::released();
    press_jump.jump_just_pressed = true;

    // Frame 1: the edge press creates the budget and the jump integrator
    // already runs this frame.
    c.update(&press_jump, 16, &clips).unwrap();
    assert_eq!(c.jump, Some(JUMP_ENERGY - 16 * 196));
    assert_eq!(c.y, 16 * 196);
    assert!(!c.grounded);
    assert_eq!(c.state, MovementState::Jump);

    // Ride the budget to exhaustion: 100000 mpx of energy at 3136 mpx per
    // 16 ms frame is spent after 32 frames in all.
    let mut frames: u32 = 1;
    while c.jump.is_some() {
        c.update(&idle, 16, &clips).unwrap();
        frames += 1;
        assert!(frames <= 1000, "budget never exhausted");
    }
    assert_eq!(frames, 32);
    // The height gained is exactly the energy spent, however it was split.
    assert_eq!(c.y, JUMP_ENERGY);
    // The budget vanished on a frame that still rose, so the character is
    // airborne and the state is Fall.
    assert!(!c.grounded);
    assert_eq!(c.state, MovementState::Fall);

    // Fall back: 100000 mpx at 1568 mpx per frame reaches the ground plane
    // on the 64th fall frame, which still counts as moving.
    while c.y > 0 {
        c.update(&idle, 16, &clips).unwrap();
        frames += 1;
        assert!(frames <= 1000, "never landed");
    }
    assert_eq!(frames, 32 + 64);
    assert_eq!(c.state, MovementState::Fall);
    assert!(!c.grounded);

    // One more frame without vertical motion: grounded again, and with no
    // keys held the state settles at Idle.
    c.update(&idle, 16, &clips).unwrap();
    assert!(c.grounded);
    assert_eq!(c.state, MovementState::Idle);
}

#[test]
fn landing_into_held_key_gives_run() {
    let clips = standard_clips();
    let mut c = Character::spawn(&clips).unwrap();
    let mut press_jump = InputSnapshot::released();
    press_jump.jump_just_pressed = true;
    let mut hold_right = InputSnapshot::released();
    hold_right.right_held = true;

    c.update(&press_jump, 16, &clips).unwrap();
    while c.y > 0 {
        c.update(&hold_right, 16, &clips).unwrap();
    }
    // Landed but still classified Fall on the landing frame; the next frame
    // with a held key is Run.
    c.update(&hold_right, 16, &clips).unwrap();
    assert!(c.grounded);
    assert_eq!(c.state, MovementState::Run);
    assert!(c.x > 0);
}

#[test]
fn holding_right_then_left_moves_left_and_faces_left() {
    // Right was already held; this frame a left key goes down too.  Left
    // takes priority for motion and the facing flips left.
    let clips = standard_clips();
    let mut c = Character::spawn(&clips).unwrap();
    let mut input = InputSnapshot::released();
    input.right_held = true;
    input.left_held = true;
    input.left_just_pressed = true;
    c.update(&input, 16, &clips).unwrap();
    assert_eq!(c.x, -16 * 100);
    assert!(c.facing_left);
    assert_eq!(c.state, MovementState::Run);
}

#[test]
fn missing_clip_skips_the_swap_but_not_the_frame() {
    // No Jump clip is registered: the frame still moves the character and
    // reports which state was missing, while state and clip stay put and the
    // animation advances against the old clip.
    let mut table = ClipTable::new();
    table.add(MovementState::Idle, AnimationClip::new(2, 10));
    table.add(MovementState::Run, AnimationClip::new(12, 100));
    table.add(MovementState::Fall, AnimationClip::new(1, 1000));
    let mut c = Character::spawn(&table).unwrap();
    let mut press_jump = InputSnapshot::released();
    press_jump.jump_just_pressed = true;
    let err = c.update(&press_jump, 16, &table).unwrap_err();
    assert_eq!(err.state, MovementState::Jump);
    assert_eq!(c.state, MovementState::Idle);
    assert_eq!(c.y, 16 * 196);
    assert!(c.jump.is_some());
    // 16 ms against the old 2-frame, 10 ms clip: one floor division step.
    assert_eq!(c.cursor.frame_index, 1);
    assert_eq!(c.cursor.accumulated_time, 6);
}

#[test]
fn jump_press_while_jumping_creates_no_new_budget() {
    let clips = standard_clips();
    let mut c = Character::spawn(&clips).unwrap();
    let mut press_jump = InputSnapshot::released();
    press_jump.jump_just_pressed = true;
    c.update(&press_jump, 16, &clips).unwrap();
    let budget_after_one = c.jump;
    c.update(&press_jump, 16, &clips).unwrap();
    // A second edge press while the budget is present neither resets the
    // energy nor blocks its decay.
    assert_eq!(c.jump, Some(budget_after_one.unwrap() - 16 * 196));
}
