use platformer_core::animation::Animation;
use platformer_core::animation::AnimationType;
use platformer_core::animation::AutoAnimation;
use platformer_core::movement::Accel;
use platformer_core::movement::CanJump;
use platformer_core::movement::CollisionEvent;
use platformer_core::movement::ContactNormal;
use platformer_core::movement::IsGrounded;
use platformer_core::movement::IsOnWall;
use platformer_core::movement::MaxVelocity;
use platformer_core::movement::MoveDir;
use platformer_core::animation::SpriteSheetAnimation;
use platformer_core::health::Health;
use platformer_core::player::PlayerSprint;
use platformer_core::player::PlayerWallCling;
use platformer_core::tick::PlayerState;
use platformer_core::tick::TickInput;
use platformer_core::tick::player_tick;
use platformer_core::vec2::Vec2i;

fn fresh_player() -> PlayerState {
    let idle = Animation::with_custom_framesteps(0, vec![600, 500, 800, 200], 4, true).unwrap();
    let mut animation = SpriteSheetAnimation::new(AnimationType::Idle, idle, false);
    let walk = Animation::with_fixed_framesteps(1, 100, 12, true).unwrap();
    animation.add_animation(AnimationType::Walk, walk);
    let fall = Animation::with_fixed_framesteps(4, 1000, 1, false).unwrap();
    animation.add_animation(AnimationType::Fall, fall);
    let begin_fall = Animation::with_fixed_framesteps(3, 1000, 1, false).unwrap();
    animation.add_animation(AnimationType::BeginFall, begin_fall);
    let jump = Animation::with_fixed_framesteps(2, 1000, 1, false).unwrap();
    animation.add_animation(AnimationType::Jump, jump);
    PlayerState {
        velocity: Vec2i { x: 0, y: 0 },
        move_dir: MoveDir(0),
        max_velocity: MaxVelocity { x: 120_000, y: 600_000 },
        acceleration: Accel { accel: 400_000, deaccel: 500_000, air_deaccel: Some(430_000) },
        grounded: IsGrounded::new(),
        on_wall: IsOnWall::new(),
        can_jump: CanJump::new(500, 300_000, 130_000),
        cling: PlayerWallCling::new(300_000, 500),
        auto_anim: AutoAnimation::default(),
        sprint: PlayerSprint { sprint_speed: 180_000, normal_speed: 120_000, can_sprint: false },
        animation,
        health: Health::new(50, 1000),
    }
}

#[test]
fn a_tick_grounds_jumps_and_walks() {
    let mut state = fresh_player();
    // Land on the ground.
    let landing = vec![CollisionEvent::Started { other: 7, normal: ContactNormal::Down }];
    let input = TickInput::default();
    let out = player_tick(1, &mut state, &landing, &input, 50);
    assert_eq!(out.grounded_event.unwrap().0, 1);
    assert!(state.grounded.grounded);
    assert!(out.died.is_none());

    // Run right: the walk clip shows and speed builds.
    let mut input = TickInput::default();
    input.right = true;
    let out = player_tick(1, &mut state, &vec![], &input, 50);
    assert_eq!(state.animation.current_animation, AnimationType::Walk);
    assert_eq!(state.velocity.x, 20_000);
    assert!(out.gravity_cling.is_none());

    // Jump: the vertical speed snaps to the initial force.  The ground
    // contact has not stopped yet, so the walk clip still shows; the
    // jump clip follows once the engine reports the contact gone.
    let mut input = TickInput::default();
    input.right = true;
    input.jump_held = true;
    input.jump_just_pressed = true;
    player_tick(1, &mut state, &vec![], &input, 50);
    assert!(state.can_jump.jumping);
    assert_eq!(state.velocity.y, 130_000);
    assert_eq!(state.animation.current_animation, AnimationType::Walk);

    // The contact stops: airborne and rising fast, the jump clip shows.
    let mut input = TickInput::default();
    input.jump_held = true;
    let leaving = vec![CollisionEvent::Stopped { other: 7 }];
    player_tick(1, &mut state, &leaving, &input, 50);
    assert!(!state.grounded.grounded);
    assert_eq!(state.animation.current_animation, AnimationType::Jump);
}

#[test]
fn a_quiet_tick_keeps_every_invariant() {
    let mut state = fresh_player();
    let input = TickInput::default();
    for _ in 0..20 {
        player_tick(1, &mut state, &vec![], &input, 16);
        assert_eq!(state.grounded.grounded, !state.grounded.walls_below.is_empty());
        assert!(state.health.get_health() <= state.health.get_max_health());
    }
}
