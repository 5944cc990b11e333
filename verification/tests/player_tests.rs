use platformer_core::animation::AnimationFinishedEvent;
use platformer_core::animation::AnimationType;
use platformer_core::animation::AutoAnimation;
use platformer_core::animation::FlipAnimation;
use platformer_core::movement::CanJump;
use platformer_core::movement::CollisionEvent;
use platformer_core::movement::ContactNormal;
use platformer_core::movement::IsGrounded;
use platformer_core::movement::IsOnWall;
use platformer_core::movement::MaxVelocity;
use platformer_core::movement::MoveDir;
use platformer_core::movement::check_on_wall;
use platformer_core::player::PlayerSprint;
use platformer_core::player::PlayerWallCling;
use platformer_core::player::WALL_FLING_ANIMATION;
use platformer_core::player::WALL_GRAB_ANIMATION;
use platformer_core::player::player_attack;
use platformer_core::player::player_cling_cooldown;
use platformer_core::player::player_jump;
use platformer_core::player::player_move;
use platformer_core::player::player_sprint;
use platformer_core::player::player_wall_cling;
use platformer_core::player::player_wall_fling;
use platformer_core::player::player_weapon_aim;
use platformer_core::vec2::Vec2i;
use platformer_core::weapons::WeaponDirection;
use platformer_core::weapons::WeaponDirections;
use platformer_core::weapons::WeaponState;

#[test]
fn move_input_follows_the_keys_unless_clinging() {
    let mut dir = MoveDir(0);
    let free = PlayerWallCling::new(300_000, 500);
    player_move(&mut dir, &free, false, true);
    assert_eq!(dir.0, 1000);
    player_move(&mut dir, &free, true, false);
    assert_eq!(dir.0, -1000);
    player_move(&mut dir, &free, true, true);
    assert_eq!(dir.0, 0);
    let mut hanging = free;
    hanging.clinging = true;
    dir.0 = 1000;
    player_move(&mut dir, &hanging, true, false);
    assert_eq!(dir.0, 1000);
}

#[test]
fn sprint_widens_the_cap_only_on_the_ground_with_boots() {
    let mut cap = MaxVelocity { x: 120_000, y: 600_000 };
    let sprint = PlayerSprint { sprint_speed: 180_000, normal_speed: 120_000, can_sprint: true };
    let mut grounded = IsGrounded::new();
    player_sprint(&mut cap, &sprint, &grounded, true);
    assert_eq!(cap.x, 120_000);
    grounded.grounded = true;
    grounded.walls_below.push(7);
    player_sprint(&mut cap, &sprint, &grounded, true);
    assert_eq!(cap.x, 180_000);
    player_sprint(&mut cap, &sprint, &grounded, false);
    assert_eq!(cap.x, 120_000);
}

#[test]
fn jump_input_mirrors_the_key() {
    let mut jump = CanJump::new(500, 500_000, 130_000);
    player_jump(&mut jump, true, true);
    assert!(jump.jump_pressed);
    assert!(jump.jump_repressed);
    player_jump(&mut jump, true, false);
    assert!(jump.jump_pressed);
    assert!(!jump.jump_repressed);
}

#[test]
fn wall_fling_round_trip() {
    let entity = 1u64;
    let mut on_wall = IsOnWall::new();
    check_on_wall(&mut on_wall,
        &CollisionEvent::Started { other: 40, normal: ContactNormal::Left });
    assert!(on_wall.on_wall);
    let grounded = IsGrounded::new();
    let mut cling = PlayerWallCling::new(300_000, 500);
    let mut velocity = Vec2i { x: -20_000, y: -90_000 };
    let mut auto = AutoAnimation { disabled: false };

    // The cooldown must have rested before the first cling.
    player_cling_cooldown(&mut cling, 500);

    // Holding the cling key against the wall while airborne starts the
    // hang: zero gravity, zero velocity, manual animation.
    let update = player_wall_cling(entity, &on_wall, &grounded, &mut cling, &mut velocity,
        &mut auto, true, false, false, false);
    assert!(cling.clinging);
    assert!(!cling.flinging);
    assert_eq!(velocity, Vec2i { x: 0, y: 0 });
    assert!(auto.disabled);
    let gravity = update.gravity.unwrap();
    assert_eq!(gravity.scale_milli, 0);
    assert!(gravity.reset_velocity);
    let anim = update.animation.unwrap();
    assert_eq!(anim.new_animation, AnimationType::Custom(WALL_GRAB_ANIMATION));
    assert!(!anim.restart_animation);

    // Each held tick pins the velocity to zero.
    velocity.y = -3_000;
    let update = player_wall_cling(entity, &on_wall, &grounded, &mut cling, &mut velocity,
        &mut auto, true, false, false, false);
    assert_eq!(velocity, Vec2i { x: 0, y: 0 });
    assert!(update.gravity.is_none());

    // Releasing the key with right held turns the hang into a leap
    // windup and plays the leap clip from its start.
    let update = player_wall_cling(entity, &on_wall, &grounded, &mut cling, &mut velocity,
        &mut auto, false, true, false, false);
    assert!(cling.flinging);
    assert_eq!(cling.fling_dir, Vec2i { x: 1000, y: 0 });
    let anim = update.animation.unwrap();
    assert_eq!(anim.new_animation, AnimationType::Custom(WALL_FLING_ANIMATION));
    assert!(anim.restart_animation);

    // The leap clip finishing launches the player: the remembered
    // direction times the fling speed, gravity back, state free.
    let finished = AnimationFinishedEvent {
        entity,
        animation_type: AnimationType::Custom(WALL_FLING_ANIMATION),
    };
    let gravity = player_wall_fling(entity, &on_wall, &mut cling, &mut velocity, &mut auto,
        &finished).unwrap();
    assert_eq!(velocity, Vec2i { x: 300_000, y: 0 });
    assert!(!cling.clinging);
    assert!(!cling.flinging);
    assert_eq!(gravity.scale_milli, 1000);
    assert!(!gravity.reset_velocity);
    assert!(!auto.disabled);
    assert_eq!(cling.cling_cooldown.elapsed_ms, 0);
}

#[test]
fn diagonal_fling_normalizes_the_leap() {
    let entity = 1u64;
    let mut on_wall = IsOnWall::new();
    check_on_wall(&mut on_wall,
        &CollisionEvent::Started { other: 40, normal: ContactNormal::Right });
    let grounded = IsGrounded::new();
    let mut cling = PlayerWallCling::new(300_000, 500);
    let mut velocity = Vec2i { x: 0, y: 0 };
    let mut auto = AutoAnimation { disabled: false };
    player_cling_cooldown(&mut cling, 500);
    player_wall_cling(entity, &on_wall, &grounded, &mut cling, &mut velocity, &mut auto,
        true, false, false, false);
    // Release with left and up held: the leap points up and away.
    player_wall_cling(entity, &on_wall, &grounded, &mut cling, &mut velocity, &mut auto,
        false, false, true, true);
    assert_eq!(cling.fling_dir, Vec2i { x: -707, y: 707 });
    let finished = AnimationFinishedEvent {
        entity,
        animation_type: AnimationType::Custom(WALL_FLING_ANIMATION),
    };
    player_wall_fling(entity, &on_wall, &mut cling, &mut velocity, &mut auto, &finished);
    assert_eq!(velocity, Vec2i { x: -212_100, y: 212_100 });
}

#[test]
fn losing_the_wall_aborts_the_hang() {
    let entity = 1u64;
    let off_wall = IsOnWall::new();
    let mut on_wall = IsOnWall::new();
    check_on_wall(&mut on_wall,
        &CollisionEvent::Started { other: 40, normal: ContactNormal::Right });
    let grounded = IsGrounded::new();
    let mut cling = PlayerWallCling::new(300_000, 500);
    let mut velocity = Vec2i { x: 0, y: 0 };
    let mut auto = AutoAnimation { disabled: false };
    player_cling_cooldown(&mut cling, 500);
    player_wall_cling(entity, &on_wall, &grounded, &mut cling, &mut velocity, &mut auto,
        true, false, false, false);
    assert!(cling.clinging);

    // The wall is gone next tick: the hang ends, gravity returns and the
    // cooldown starts over.
    let update = player_wall_cling(entity, &off_wall, &grounded, &mut cling, &mut velocity,
        &mut auto, true, false, false, false);
    assert!(!cling.clinging);
    assert!(!auto.disabled);
    assert_eq!(update.gravity.unwrap().scale_milli, 1000);
    assert_eq!(cling.cling_cooldown.elapsed_ms, 0);
}

#[test]
fn cling_waits_for_the_cooldown() {
    let entity = 1u64;
    let mut on_wall = IsOnWall::new();
    check_on_wall(&mut on_wall,
        &CollisionEvent::Started { other: 40, normal: ContactNormal::Left });
    let grounded = IsGrounded::new();
    let mut cling = PlayerWallCling::new(300_000, 500);
    let mut velocity = Vec2i { x: 5, y: 5 };
    let mut auto = AutoAnimation { disabled: false };
    let update = player_wall_cling(entity, &on_wall, &grounded, &mut cling, &mut velocity,
        &mut auto, true, false, false, false);
    assert!(!cling.clinging);
    assert!(update.gravity.is_none());
    assert_eq!(velocity, Vec2i { x: 5, y: 5 });
}

#[test]
fn aim_input_picks_the_heading_and_turns_the_weapon() {
    let mut direction = WeaponDirection { right_facing: true, direction: WeaponDirections::Forward };
    player_weapon_aim(&mut direction, false, true, true, false);
    assert!(!direction.right_facing);
    assert_eq!(direction.direction, WeaponDirections::BackwardUp);
    // No keys held leaves the aim as it was.
    player_weapon_aim(&mut direction, false, false, false, false);
    assert_eq!(direction.direction, WeaponDirections::BackwardUp);
    // A vertical press keeps the facing.
    player_weapon_aim(&mut direction, false, false, false, true);
    assert!(!direction.right_facing);
    assert_eq!(direction.direction, WeaponDirections::Down);
}

#[test]
fn attack_input_drives_the_charging_flag() {
    let mut state = WeaponState { charging: false };
    player_attack(&mut state, true, false);
    assert!(state.charging);
    player_attack(&mut state, false, false);
    assert!(state.charging);
    player_attack(&mut state, false, true);
    assert!(!state.charging);
}
