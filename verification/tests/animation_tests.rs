use platformer_core::animation::Animation;
use platformer_core::animation::AnimationConfigError;
use platformer_core::animation::AnimationType;
use platformer_core::animation::AutoAnimation;
use platformer_core::animation::ChangeAnimationEvent;
use platformer_core::animation::FlipAnimation;
use platformer_core::animation::SpriteSheetAnimation;
use platformer_core::animation::animate_spritesheet;
use platformer_core::animation::set_sprite_auto;
use platformer_core::vec2::Vec2i;

fn idle_clip() -> Animation {
    // Frame durations of 600, 500, 800 and 200 milliseconds, looping.
    Animation::with_custom_framesteps(7, vec![600, 500, 800, 200], 4, true).unwrap()
}

#[test]
fn clip_with_mismatched_frame_count_fails_at_construction() {
    let r = Animation::with_custom_framesteps(7, vec![600, 500, 800], 4, true);
    assert_eq!(r.unwrap_err(), AnimationConfigError::FrameCountMismatch);
}

#[test]
fn clip_with_zero_frame_duration_fails_at_construction() {
    let r = Animation::with_custom_framesteps(7, vec![600, 0, 800, 200], 4, true);
    assert_eq!(r.unwrap_err(), AnimationConfigError::ZeroFrameDuration);
}

#[test]
fn clip_with_overflowing_duration_fails_at_construction() {
    let r = Animation::with_custom_framesteps(7, vec![u32::MAX, 2], 2, false);
    assert_eq!(r.unwrap_err(), AnimationConfigError::DurationOverflow);
}

#[test]
fn clip_thresholds_are_cumulative() {
    let clip = idle_clip();
    assert_eq!(clip.frame_steps, vec![600, 1100, 1900, 2100]);
    assert_eq!(clip.timer.duration_ms, 2100);
    assert_eq!(clip.current_frame(), 0);
}

#[test]
fn fixed_framesteps_spread_evenly() {
    let clip = Animation::with_fixed_framesteps(3, 100, 12, true).unwrap();
    assert_eq!(clip.frame_steps.len(), 12);
    assert_eq!(clip.frame_steps[0], 100);
    assert_eq!(clip.frame_steps[11], 1200);
}

#[test]
fn advance_steps_over_passed_thresholds() {
    let mut clip = idle_clip();
    let finished = clip.advance(650);
    assert!(!finished);
    assert_eq!(clip.current_frame(), 1);
    // A large step crosses two thresholds at once.
    let finished = clip.advance(1300);
    assert!(!finished);
    assert_eq!(clip.current_frame(), 3);
}

#[test]
fn advance_loops_back_to_frame_zero() {
    let mut clip = idle_clip();
    let finished = clip.advance(2100);
    assert!(finished);
    assert_eq!(clip.current_frame(), 0);
    // Looping clips rewind their clock and replay.
    assert_eq!(clip.get_time(), 0);
    assert!(!clip.done());
}

#[test]
fn one_shot_clip_stays_finished_at_frame_zero() {
    let mut clip = Animation::with_fixed_framesteps(3, 1000, 1, false).unwrap();
    let finished = clip.advance(1000);
    assert!(finished);
    assert_eq!(clip.current_frame(), 0);
    assert!(clip.done());
    let finished = clip.advance(50);
    assert!(finished);
}

#[test]
fn set_current_switches_and_optionally_restarts() {
    let mut set = SpriteSheetAnimation::new(AnimationType::Idle, idle_clip(), false);
    let walk = Animation::with_fixed_framesteps(9, 100, 12, true).unwrap();
    set.add_animation(AnimationType::Walk, walk);
    let r = set.set_current(AnimationType::Walk, true, false);
    assert_eq!(r, Some((9, 0)));
    assert_eq!(set.current_animation, AnimationType::Walk);
    assert!(set.animation_flipped);
}

#[test]
fn set_current_to_missing_clip_is_refused() {
    let mut set = SpriteSheetAnimation::new(AnimationType::Idle, idle_clip(), false);
    let r = set.set_current(AnimationType::Fall, false, true);
    assert_eq!(r, None);
    assert_eq!(set.current_animation, AnimationType::Idle);
}

#[test]
fn set_current_same_clip_and_flip_is_a_no_op() {
    let mut set = SpriteSheetAnimation::new(AnimationType::Idle, idle_clip(), false);
    // Move playback to frame 1 so a frame reset would be visible.
    let _ = set.advance_current(650);
    let before_frame = set.animations[0].1.current_frame();
    // The entity already shows (Idle, unflipped): even with restart set,
    // nothing changes and the renderer has nothing to apply.
    let r = set.set_current(AnimationType::Idle, false, true);
    assert_eq!(r, None);
    assert_eq!(set.animations[0].1.current_frame(), before_frame);
    assert_eq!(set.current_animation, AnimationType::Idle);
    assert!(!set.animation_flipped);
    // A differing flip alone does switch (and here restarts the frame).
    let r = set.set_current(AnimationType::Idle, true, true);
    assert_eq!(r, Some((7, 0)));
    assert!(set.animation_flipped);
}

#[test]
fn change_animation_same_clip_and_flip_is_a_no_op() {
    let mut set = SpriteSheetAnimation::new(AnimationType::Idle, idle_clip(), false);
    // Move playback to frame 1 so a restart would be visible.
    let _ = set.advance_current(650);
    let before_frame = set.animations[0].1.current_frame();
    let event = ChangeAnimationEvent {
        entity: 1,
        new_animation: AnimationType::Idle,
        restart_animation: true,
        flipped: FlipAnimation::UnFlipped,
    };
    let r = set.change_animation(&event);
    assert_eq!(r, None);
    assert_eq!(set.animations[0].1.current_frame(), before_frame);
    assert_eq!(set.current_animation, AnimationType::Idle);
    assert!(!set.animation_flipped);
}

#[test]
fn change_animation_unchanged_flip_keeps_the_flag() {
    let mut set = SpriteSheetAnimation::new(AnimationType::Idle, idle_clip(), true);
    let walk = Animation::with_fixed_framesteps(9, 100, 12, true).unwrap();
    set.add_animation(AnimationType::Walk, walk);
    let event = ChangeAnimationEvent {
        entity: 1,
        new_animation: AnimationType::Walk,
        restart_animation: false,
        flipped: FlipAnimation::Unchanged,
    };
    let r = set.change_animation(&event);
    assert!(r.is_some());
    assert!(set.animation_flipped);
    assert_eq!(set.current_animation, AnimationType::Walk);
}

#[test]
fn adding_a_clip_under_a_taken_type_replaces_it() {
    let mut set = SpriteSheetAnimation::new(AnimationType::Idle, idle_clip(), false);
    let replacement = Animation::with_fixed_framesteps(42, 100, 2, false).unwrap();
    set.add_animation(AnimationType::Idle, replacement);
    assert_eq!(set.animations.len(), 1);
    assert_eq!(set.current().atlas, 42);
}

#[test]
fn a_zero_tick_changes_nothing() {
    let mut clip = idle_clip();
    let finished = clip.advance(0);
    assert!(!finished);
    assert_eq!(clip.current_frame(), 0);
    assert_eq!(clip.get_time(), 0);
}

#[test]
fn advance_current_reports_completion() {
    let mut set = SpriteSheetAnimation::new(AnimationType::Idle, idle_clip(), false);
    let (finished, frame) = set.advance_current(650);
    assert!(!finished);
    assert_eq!(frame, 1);
    let (finished, frame) = set.advance_current(2000);
    assert!(finished);
    assert_eq!(frame, 0);
}

#[test]
fn playback_emits_the_finished_event_for_its_entity() {
    let mut set = SpriteSheetAnimation::new(AnimationType::Idle, idle_clip(), false);
    let (event, frame) = animate_spritesheet(8, &mut set, 650);
    assert!(event.is_none());
    assert_eq!(frame, 1);
    let (event, frame) = animate_spritesheet(8, &mut set, 5000);
    let event = event.unwrap();
    assert_eq!(event.entity, 8);
    assert_eq!(event.animation_type, AnimationType::Idle);
    assert_eq!(frame, 0);
}

#[test]
fn current_returns_the_shown_clip() {
    let mut set = SpriteSheetAnimation::new(AnimationType::Idle, idle_clip(), false);
    let walk = Animation::with_fixed_framesteps(9, 100, 12, true).unwrap();
    set.add_animation(AnimationType::Walk, walk);
    assert_eq!(set.current().atlas, 7);
    set.set_current(AnimationType::Walk, false, false);
    assert_eq!(set.current().atlas, 9);
}

#[test]
fn auto_selection_picks_clip_from_motion() {
    let auto = AutoAnimation { disabled: false };
    // Rising fast while airborne shows the jump clip, mirrored left.
    let ev = set_sprite_auto(5, &auto, Vec2i { x: -10_000, y: 90_000 }, Some(false)).unwrap();
    assert_eq!(ev.new_animation, AnimationType::Jump);
    assert!(matches!(ev.flipped, FlipAnimation::Flipped));
    assert!(!ev.restart_animation);
    // Hovering shows the fall-start clip.
    let ev = set_sprite_auto(5, &auto, Vec2i { x: 0, y: 0 }, Some(false)).unwrap();
    assert_eq!(ev.new_animation, AnimationType::BeginFall);
    // Dropping fast shows the fall clip.
    let ev = set_sprite_auto(5, &auto, Vec2i { x: 0, y: -80_000 }, Some(false)).unwrap();
    assert_eq!(ev.new_animation, AnimationType::Fall);
    // Standing still on the ground idles.
    let ev = set_sprite_auto(5, &auto, Vec2i { x: 0, y: 0 }, Some(true)).unwrap();
    assert_eq!(ev.new_animation, AnimationType::Idle);
    assert!(matches!(ev.flipped, FlipAnimation::Unchanged));
    // Moving on the ground walks, mirrored by direction.
    let ev = set_sprite_auto(5, &auto, Vec2i { x: 50_000, y: 0 }, Some(true)).unwrap();
    assert_eq!(ev.new_animation, AnimationType::Walk);
    assert!(matches!(ev.flipped, FlipAnimation::UnFlipped));
}

#[test]
fn auto_selection_skips_disabled_entities() {
    let auto = AutoAnimation { disabled: true };
    let ev = set_sprite_auto(5, &auto, Vec2i { x: 50_000, y: 0 }, Some(true));
    assert!(ev.is_none());
}
