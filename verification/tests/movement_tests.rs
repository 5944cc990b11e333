use platformer_core::movement::Accel;
use platformer_core::movement::CanJump;
use platformer_core::movement::CollisionEvent;
use platformer_core::movement::ContactNormal;
use platformer_core::movement::IsGrounded;
use platformer_core::movement::IsOnWall;
use platformer_core::movement::MaxVelocity;
use platformer_core::movement::MoveDir;
use platformer_core::movement::SetGravityScale;
use platformer_core::movement::apply_movespeed;
use platformer_core::movement::apply_jump;
use platformer_core::movement::cap_velocity;
use platformer_core::movement::check_on_ground;
use platformer_core::movement::check_on_wall;
use platformer_core::movement::reset_jump;
use platformer_core::movement::set_gravity_scale;
use platformer_core::movement::tick_time_since_grounded;
use platformer_core::tools::clamp_shift;
use platformer_core::vec2::Vec2i;

fn player_accel() -> Accel {
    Accel { accel: 400_000, deaccel: 500_000, air_deaccel: Some(430_000) }
}

#[test]
fn clamp_shift_leaves_in_range_values_alone() {
    assert_eq!(clamp_shift(50, -100, 100, 30), 50);
    assert_eq!(clamp_shift(-100, -100, 100, 30), -100);
}

#[test]
fn clamp_shift_decays_toward_the_violated_bound() {
    assert_eq!(clamp_shift(180, -100, 100, 30), 150);
    assert_eq!(clamp_shift(110, -100, 100, 30), 100);
    assert_eq!(clamp_shift(-180, -100, 100, 30), -150);
    assert_eq!(clamp_shift(-110, -100, 100, 30), -100);
}

#[test]
fn movespeed_accelerates_along_the_axis() {
    // Full right for 100 ms at 400 units per second squared gains
    // 40 units per second of speed.
    let mut velocity = Vec2i { x: 0, y: -5_000 };
    apply_movespeed(&MoveDir(1000), &player_accel(), &mut velocity, 100);
    assert_eq!(velocity.x, 40_000);
    assert_eq!(velocity.y, -5_000);
}

#[test]
fn movespeed_decays_without_overshooting_zero() {
    let mut velocity = Vec2i { x: 30_000, y: 0 };
    apply_movespeed(&MoveDir(0), &player_accel(), &mut velocity, 100);
    // 500 units per second squared over 100 ms sheds 50 units per second,
    // but the speed stops at zero.
    assert_eq!(velocity.x, 0);
    let mut velocity = Vec2i { x: -60_000, y: 0 };
    apply_movespeed(&MoveDir(0), &player_accel(), &mut velocity, 100);
    assert_eq!(velocity.x, -10_000);
}

#[test]
fn cap_velocity_with_accel_bleeds_speed_off() {
    let cap = MaxVelocity { x: 120_000, y: 600_000 };
    // 170 over a cap of 120, shedding 500 units per second over 60 ms
    // takes off 30: still over, so the decay shows.
    let mut velocity = Vec2i { x: 170_000, y: 0 };
    cap_velocity(&mut velocity, &cap, Some(&player_accel()), None, 60);
    assert_eq!(velocity.x, 140_000);
    cap_velocity(&mut velocity, &cap, Some(&player_accel()), None, 60);
    assert_eq!(velocity.x, 120_000);
}

#[test]
fn cap_velocity_without_accel_snaps() {
    let cap = MaxVelocity { x: 120_000, y: 600_000 };
    let mut velocity = Vec2i { x: 170_000, y: -700_000 };
    cap_velocity(&mut velocity, &cap, None, None, 60);
    assert_eq!(velocity.x, 120_000);
    assert_eq!(velocity.y, -600_000);
}

#[test]
fn grounding_tracks_contacts_below() {
    let mut g = IsGrounded::new();
    assert!(!g.grounded);
    let ev = check_on_ground(1, &mut g,
        &CollisionEvent::Started { other: 10, normal: ContactNormal::Down });
    assert!(g.grounded);
    assert!(ev.is_some());
    // A second contact grounds no second time.
    let ev = check_on_ground(1, &mut g,
        &CollisionEvent::Started { other: 11, normal: ContactNormal::Down });
    assert!(ev.is_none());
    assert!(g.grounded);
    // Losing one of two contacts keeps the entity grounded.
    check_on_ground(1, &mut g, &CollisionEvent::Stopped { other: 10 });
    assert!(g.grounded);
    // Losing the last contact makes it airborne: the flag always equals
    // the contact set being non-empty.
    check_on_ground(1, &mut g, &CollisionEvent::Stopped { other: 11 });
    assert!(!g.grounded);
    assert!(g.walls_below.is_empty());
}

#[test]
fn repeated_contact_is_recorded_once() {
    let mut g = IsGrounded::new();
    check_on_ground(1, &mut g,
        &CollisionEvent::Started { other: 10, normal: ContactNormal::Down });
    let ev = check_on_ground(1, &mut g,
        &CollisionEvent::Started { other: 10, normal: ContactNormal::Down });
    assert!(ev.is_none());
    assert_eq!(g.walls_below.len(), 1);
    // One stop clears the repeated contact entirely.
    check_on_ground(1, &mut g, &CollisionEvent::Stopped { other: 10 });
    assert!(!g.grounded);
}

#[test]
fn airborne_clock_saturates_at_its_ceiling() {
    let mut g = IsGrounded::new();
    g.time_since_grounded_ms = u32::MAX - 10;
    tick_time_since_grounded(&mut g, 100);
    assert_eq!(g.time_since_grounded_ms, u32::MAX);
}

#[test]
fn jump_window_expiry_ends_the_jump_while_held() {
    let grounded = IsGrounded::new();
    let mut jump = CanJump::new(500, 500_000, 130_000);
    let mut velocity = Vec2i { x: 0, y: 0 };
    jump.jump_pressed = true;
    jump.jump_repressed = true;
    apply_jump(&mut jump, &mut velocity, &grounded, 16);
    // Hold the key through the whole window.
    jump.jump_repressed = false;
    apply_jump(&mut jump, &mut velocity, &grounded, 500);
    assert!(jump.jumping);
    // The window has run out: the next tick ends the jump and spends the
    // charge even though the key is still held.
    apply_jump(&mut jump, &mut velocity, &grounded, 16);
    assert!(!jump.jumping);
    assert_eq!(jump.jumps_left, 0);
    assert_eq!(jump.jump_force, 500_000);
}

#[test]
fn grounding_ignores_side_contacts() {
    let mut g = IsGrounded::new();
    let ev = check_on_ground(1, &mut g,
        &CollisionEvent::Started { other: 10, normal: ContactNormal::Left });
    assert!(ev.is_none());
    assert!(!g.grounded);
}

#[test]
fn airborne_clock_runs_only_while_airborne() {
    let mut g = IsGrounded::new();
    tick_time_since_grounded(&mut g, 150);
    assert_eq!(g.time_since_grounded_ms, 150);
    check_on_ground(1, &mut g,
        &CollisionEvent::Started { other: 10, normal: ContactNormal::Down });
    assert_eq!(g.time_since_grounded_ms, 0);
    tick_time_since_grounded(&mut g, 150);
    assert_eq!(g.time_since_grounded_ms, 0);
}

#[test]
fn wall_state_tracks_side_contacts() {
    let mut w = IsOnWall::new();
    check_on_wall(&mut w, &CollisionEvent::Started { other: 3, normal: ContactNormal::Right });
    assert!(w.on_wall);
    check_on_wall(&mut w, &CollisionEvent::Started { other: 4, normal: ContactNormal::Down });
    assert_eq!(w.walls_touching.len(), 1);
    check_on_wall(&mut w, &CollisionEvent::Stopped { other: 3 });
    assert!(!w.on_wall);
}

#[test]
fn two_jumps_spend_the_budget_and_a_third_does_nothing() {
    let grounded = IsGrounded::new();
    let mut jump = CanJump::new(500, 500_000, 130_000);
    jump.jumps_left = 2;
    jump.total_jumps = 2;
    let mut velocity = Vec2i { x: 0, y: 0 };

    // First jump-start snaps the vertical speed to the initial force.
    jump.jump_pressed = true;
    jump.jump_repressed = true;
    apply_jump(&mut jump, &mut velocity, &grounded, 16);
    assert!(jump.jumping);
    assert_eq!(velocity.y, 130_000);
    assert_eq!(jump.jumps_left, 2);

    // Releasing the key ends the jump and spends one charge.
    jump.jump_pressed = false;
    jump.jump_repressed = false;
    apply_jump(&mut jump, &mut velocity, &grounded, 16);
    assert!(!jump.jumping);
    assert_eq!(jump.jumps_left, 1);

    // Second jump-start, still without landing.
    jump.jump_pressed = true;
    jump.jump_repressed = true;
    apply_jump(&mut jump, &mut velocity, &grounded, 16);
    assert!(jump.jumping);
    jump.jump_pressed = false;
    jump.jump_repressed = false;
    apply_jump(&mut jump, &mut velocity, &grounded, 16);
    assert_eq!(jump.jumps_left, 0);

    // A third attempt changes nothing: no charge, no velocity change.
    let before = velocity.y;
    jump.jump_pressed = true;
    jump.jump_repressed = true;
    apply_jump(&mut jump, &mut velocity, &grounded, 16);
    assert!(!jump.jumping);
    assert_eq!(velocity.y, before);
    assert_eq!(jump.jumps_left, 0);
}

#[test]
fn grounding_refills_the_jump_budget() {
    let mut jump = CanJump::new(500, 500_000, 130_000);
    jump.jumps_left = 0;
    jump.total_jumps = 2;
    reset_jump(&mut jump);
    assert_eq!(jump.jumps_left, 2);
}

#[test]
fn charging_jump_pushes_while_the_window_is_open() {
    let grounded = IsGrounded::new();
    let mut jump = CanJump::new(500, 500_000, 130_000);
    let mut velocity = Vec2i { x: 0, y: 0 };
    jump.jump_pressed = true;
    jump.jump_repressed = true;
    apply_jump(&mut jump, &mut velocity, &grounded, 16);
    assert_eq!(velocity.y, 130_000);
    // Holding the key keeps pushing: 500 units per second squared over
    // 100 ms adds 50 units per second.
    jump.jump_repressed = false;
    apply_jump(&mut jump, &mut velocity, &grounded, 100);
    assert_eq!(velocity.y, 180_000);
    // The push decays as the window progresses (it was computed at zero
    // progress, so it started at the full force).
    assert_eq!(jump.jump_force, 500_000);
}

#[test]
fn gravity_override_can_zero_the_velocity() {
    let mut velocity = Vec2i { x: 9, y: -4 };
    set_gravity_scale(&SetGravityScale { scale_milli: 0, reset_velocity: true }, &mut velocity);
    assert_eq!(velocity, Vec2i { x: 0, y: 0 });
    let mut velocity = Vec2i { x: 9, y: -4 };
    set_gravity_scale(&SetGravityScale { scale_milli: 1000, reset_velocity: false },
        &mut velocity);
    assert_eq!(velocity, Vec2i { x: 9, y: -4 });
}
