//! The player controller: raw input turned into movement and combat
//! intent, and the wall-cling/fling sub-state-machine layered on top of
//! movement.

use vstd::prelude::*;
use crate::Entity;
use crate::animation::{AnimationType, ChangeAnimationEvent, AnimationFinishedEvent,
    AutoAnimation, FlipAnimation};
use crate::movement::{CanJump, IsGrounded, IsOnWall, MaxVelocity, MoveDir, SetGravityScale};
use crate::timer::Timer;
use crate::tools::{div_trunc, KINEMATIC_LIMIT};
use crate::vec2::{isqrt_spec, Vec2i};
use crate::weapons::{WeaponDirection, WeaponDirections, WeaponState, direction_of_axes,
    whole_units};

verus! {

/// The player's collision box, in thousandths of a unit.
pub const PLAYER_WIDTH: i64 = 14_000;

/// The player's collision box, in thousandths of a unit.
pub const PLAYER_HEIGHT: i64 = 32_000;

/// Ground speed cap, in thousandths of a unit per second.
pub const PLAYER_MAX_SPEED: i64 = 120_000;

/// Vertical speed cap, in thousandths of a unit per second.
pub const PLAYER_MAX_FALL_SPEED: i64 = 600_000;

/// How fast the player gains speed, in thousandths of a unit per second
/// squared.
pub const PLAYER_ACCELERATION: i64 = 400_000;

/// How fast the player sheds speed on the ground.
pub const PLAYER_DEACCELERATION: i64 = 500_000;

/// How fast the player sheds speed in the air.
pub const PLAYER_AIR_DEACCELERATION: i64 = 430_000;

/// The player's jump push, in thousandths of a unit per second squared.
pub const PLAYER_JUMP_FORCE: i64 = 300_000;

/// Speed of a wall fling, in thousandths of a unit per second.
pub const PLAYER_FLING_SPEED: i64 = 300_000;

/// Rest time between wall clings, in milliseconds.
pub const PLAYER_FLING_COOLDOWN_MS: u32 = 500;

/// How close a pickup must be for the player to collect it.
pub const PLAYER_PICKUP_DISTANCE: i64 = 20_000;

/// The custom clip tag of the hanging-on-the-wall animation.
pub const WALL_GRAB_ANIMATION: u32 = 1;

/// The custom clip tag of the leap-off-the-wall animation.
pub const WALL_FLING_ANIMATION: u32 = 2;

/// Marker for the player entity.
#[derive(Clone, Copy, Debug, Default)]
pub struct Player;

/// The player's two ground speed caps and whether sprinting is unlocked.
#[derive(Clone, Copy, Debug, Default)]
pub struct PlayerSprint {
    pub sprint_speed: i64,
    pub normal_speed: i64,
    pub can_sprint: bool,
}

impl PlayerSprint {
    /// Nonnegative caps within the configuration bound.
    pub open spec fn wf(self) -> bool {
        0 <= self.sprint_speed <= KINEMATIC_LIMIT && 0 <= self.normal_speed <= KINEMATIC_LIMIT
    }
}

/// The wall-cling/fling sub-state-machine.  `clinging` and `flinging`
/// name its states: free (neither), hanging on the wall (clinging only),
/// and winding up a leap (both).
#[derive(Clone, Copy, Debug)]
pub struct PlayerWallCling {
    /// Whether clinging is unlocked at all.
    pub can_cling: bool,
    /// The entity hangs on a wall, gravity switched off.
    pub clinging: bool,
    /// Rest time that must pass after a cling before the next.
    pub cling_cooldown: Timer,
    /// Speed of the leap off the wall.
    pub fling_speed: i64,
    /// Direction of the pending leap, normalized to about one unit.
    pub fling_dir: Vec2i,
    /// A leap is winding up: movement input is ignored until the leap
    /// animation finishes.
    pub flinging: bool,
}

impl PlayerWallCling {
    /// A sound cooldown clock, a bounded speed, and a one-unit direction;
    /// a leap only ever winds up while hanging on the wall.
    pub open spec fn wf(self) -> bool {
        &&& self.cling_cooldown.wf()
        &&& 0 <= self.fling_speed <= KINEMATIC_LIMIT
        &&& self.fling_dir.bounded(1000)
        &&& self.flinging ==> self.clinging
    }

    /// An unlocked cling ability, free and rested.
    pub fn new(fling_speed: i64, cooldown_ms: u32) -> (r: PlayerWallCling)
        requires
            0 <= fling_speed <= KINEMATIC_LIMIT,
            1 <= cooldown_ms,
        ensures
            r.wf(),
            r.can_cling,
            !r.clinging,
            !r.flinging,
            r.fling_speed == fling_speed,
            r.fling_dir == (Vec2i { x: 0, y: 0 }),
            r.cling_cooldown.duration_ms == cooldown_ms,
            r.cling_cooldown.elapsed_ms == 0,
    {
        PlayerWallCling {
            can_cling: true,
            clinging: false,
            cling_cooldown: Timer::new(cooldown_ms),
            fling_speed,
            fling_dir: Vec2i { x: 0, y: 0 },
            flinging: false,
        }
    }
}

/// Horizontal movement input: while hanging on a wall the axis is
/// ignored, otherwise it follows the held direction keys.
pub fn player_move(move_dir: &mut MoveDir, cling: &PlayerWallCling, left: bool, right: bool)
    requires
        old(move_dir).wf(),
    ensures
        final(move_dir).wf(),
        cling.clinging ==> *final(move_dir) == *old(move_dir),
        !cling.clinging ==> final(move_dir).0
            == (if right && !left { 1000int } else if left && !right { -1000int } else { 0int }),
{
    let mut x_dir: i64 = 0;
    if left {
        x_dir = x_dir - 1000;
    }
    if right {
        x_dir = x_dir + 1000;
    }
    if !cling.clinging {
        move_dir.0 = x_dir;
    }
}

/// Sprint input: the ground speed cap widens while the sprint key is held
/// on the ground with sprinting unlocked, and rests otherwise.
pub fn player_sprint(max_vel: &mut MaxVelocity, sprint: &PlayerSprint, grounded: &IsGrounded,
    sprinting: bool)
    requires
        old(max_vel).wf(),
        sprint.wf(),
    ensures
        final(max_vel).wf(),
        final(max_vel).y == old(max_vel).y,
        final(max_vel).x == (if sprinting && grounded.grounded && sprint.can_sprint {
            sprint.sprint_speed
        } else {
            sprint.normal_speed
        }),
{
    if sprinting && grounded.grounded && sprint.can_sprint {
        max_vel.x = sprint.sprint_speed;
    } else {
        max_vel.x = sprint.normal_speed;
    }
}

/// Jump input: mirror the key's held and just-pressed states into the
/// jump state machine, which reads them on its own tick.
pub fn player_jump(can_jump: &mut CanJump, pressed: bool, just_pressed: bool)
    requires
        old(can_jump).wf(),
    ensures
        final(can_jump).wf(),
        *final(can_jump) == (CanJump {
            jump_pressed: pressed,
            jump_repressed: just_pressed,
            ..*old(can_jump)
        }),
{
    can_jump.jump_pressed = pressed;
    can_jump.jump_repressed = just_pressed;
}

/// Let the rest time between clings pass.
pub fn player_cling_cooldown(cling: &mut PlayerWallCling, dt_ms: u32)
    requires
        old(cling).wf(),
    ensures
        final(cling).wf(),
        *final(cling) == (PlayerWallCling {
            cling_cooldown: final(cling).cling_cooldown,
            ..*old(cling)
        }),
        final(cling).cling_cooldown.duration_ms == old(cling).cling_cooldown.duration_ms,
        final(cling).cling_cooldown.elapsed_ms == (if old(cling).cling_cooldown.elapsed_ms
            + dt_ms >= old(cling).cling_cooldown.duration_ms {
            old(cling).cling_cooldown.duration_ms as int
        } else {
            old(cling).cling_cooldown.elapsed_ms + dt_ms
        }),
{
    cling.cling_cooldown.tick(dt_ms);
}

/// What one tick of the cling controller asks of the engine: a one-shot
/// gravity override to apply, and a clip switch to request.
#[derive(Clone, Copy, Debug)]
pub struct ClingUpdate {
    pub gravity: Option<SetGravityScale>,
    pub animation: Option<ChangeAnimationEvent>,
}

/// One tick of the wall-cling state machine.
///
/// Hanging starts when the cling key is held against a touched wall while
/// airborne, rested and not mid-leap: gravity goes to zero, the velocity
/// is zeroed every tick of the hang, automatic animation stops and the
/// wall-grab clip plays.  Releasing the key against the wall with a
/// direction held turns the hang into a leap windup: the direction is
/// normalized and remembered, and the leap clip plays from its start.
/// Losing the wall or touching ground aborts the hang: gravity returns,
/// the velocity zeroes, the rest clock restarts and automatic animation
/// resumes.
pub fn player_wall_cling(entity: Entity, on_wall: &IsOnWall, grounded: &IsGrounded,
    cling: &mut PlayerWallCling, velocity: &mut Vec2i, auto_anim: &mut AutoAnimation,
    climb_pressed: bool, right: bool, left: bool, up: bool) -> (r: ClingUpdate)
    requires
        old(cling).wf(),
    ensures
        final(cling).wf(),
        final(cling).can_cling == old(cling).can_cling,
        final(cling).fling_speed == old(cling).fling_speed,
        ({
            let holding = on_wall.on_wall && climb_pressed && !grounded.grounded
                && !old(cling).flinging;
            let fx = (if right && !left { 1000int } else if left && !right { -1000int }
                else { 0int });
            let fy = (if up { 1000int } else { 0int });
            &&& !old(cling).can_cling ==> *final(cling) == *old(cling)
                && *final(velocity) == *old(velocity) && *final(auto_anim) == *old(auto_anim)
                && r.gravity is None && r.animation is None
            &&& old(cling).can_cling ==> {
                // Starting or keeping a hang.
                &&& (holding && !old(cling).clinging
                    && old(cling).cling_cooldown.elapsed_ms
                        == old(cling).cling_cooldown.duration_ms) ==> {
                    &&& final(cling).clinging
                    &&& !final(cling).flinging
                    &&& final(cling).cling_cooldown == old(cling).cling_cooldown
                    &&& final(cling).fling_dir == old(cling).fling_dir
                    &&& final(velocity).x == 0 && final(velocity).y == 0
                    &&& final(auto_anim).disabled
                    &&& r.gravity == Some(SetGravityScale {
                        scale_milli: 0,
                        reset_velocity: true,
                    })
                    &&& (r.animation matches Some(ev) && ev.entity == entity
                        && ev.new_animation
                            == AnimationType::Custom(WALL_GRAB_ANIMATION)
                        && !ev.restart_animation && ev.flipped == FlipAnimation::Unchanged)
                }
                // Not rested yet: nothing happens.
                &&& (holding && !old(cling).clinging
                    && old(cling).cling_cooldown.elapsed_ms
                        != old(cling).cling_cooldown.duration_ms) ==> {
                    &&& *final(cling) == *old(cling)
                    &&& *final(velocity) == *old(velocity)
                    &&& *final(auto_anim) == *old(auto_anim)
                    &&& r.gravity is None && r.animation is None
                }
                // Keeping the hang pins the velocity to zero.
                &&& (holding && old(cling).clinging) ==> {
                    &&& *final(cling) == *old(cling)
                    &&& final(velocity).x == 0 && final(velocity).y == 0
                    &&& *final(auto_anim) == *old(auto_anim)
                    &&& r.gravity is None && r.animation is None
                }
                // Not holding and not hanging: nothing to do.
                &&& (!holding && !old(cling).clinging) ==> {
                    &&& *final(cling) == *old(cling)
                    &&& *final(velocity) == *old(velocity)
                    &&& *final(auto_anim) == *old(auto_anim)
                    &&& r.gravity is None && r.animation is None
                }
                // A leap winding up rides through untouched.
                &&& (!holding && old(cling).clinging && old(cling).flinging
                    && on_wall.on_wall && !grounded.grounded) ==> {
                    &&& *final(cling) == *old(cling)
                    &&& *final(velocity) == *old(velocity)
                    &&& *final(auto_anim) == *old(auto_anim)
                    &&& r.gravity is None && r.animation is None
                }
                // Key released against the wall with a direction held:
                // the hang becomes a leap windup.
                &&& (!holding && old(cling).clinging && !old(cling).flinging
                    && on_wall.on_wall && !grounded.grounded && !(fx == 0 && fy == 0)) ==> {
                    &&& final(cling).clinging
                    &&& final(cling).flinging
                    &&& final(cling).cling_cooldown == old(cling).cling_cooldown
                    &&& ({
                        let len = isqrt_spec((fx * fx + fy * fy) as nat);
                        final(cling).fling_dir.x == div_trunc(fx * 1000, len as int)
                            && final(cling).fling_dir.y == div_trunc(fy * 1000, len as int)
                    })
                    &&& *final(velocity) == *old(velocity)
                    &&& *final(auto_anim) == *old(auto_anim)
                    &&& r.gravity is None
                    &&& (r.animation matches Some(ev) && ev.entity == entity
                        && ev.new_animation
                            == AnimationType::Custom(WALL_FLING_ANIMATION)
                        && ev.restart_animation && ev.flipped == FlipAnimation::Unchanged)
                }
                // The hang ends: wall lost, ground touched, or the key
                // released with no direction held.
                &&& (!holding && old(cling).clinging && !old(cling).flinging
                    && !(on_wall.on_wall && !grounded.grounded && !(fx == 0 && fy == 0)))
                    ==> {
                    &&& !final(cling).clinging
                    &&& !final(cling).flinging
                    &&& final(cling).cling_cooldown.elapsed_ms == 0
                    &&& final(cling).fling_dir == old(cling).fling_dir
                    &&& final(velocity).x == 0 && final(velocity).y == 0
                    &&& !final(auto_anim).disabled
                    &&& r.gravity == Some(SetGravityScale {
                        scale_milli: 1000,
                        reset_velocity: false,
                    })
                    &&& r.animation is None
                }
                // A hang mid-leap that loses the wall or touches ground
                // also ends.
                &&& (!holding && old(cling).clinging && old(cling).flinging
                    && !(on_wall.on_wall && !grounded.grounded)) ==> {
                    &&& !final(cling).clinging
                    &&& !final(cling).flinging
                    &&& final(cling).cling_cooldown.elapsed_ms == 0
                    &&& final(velocity).x == 0 && final(velocity).y == 0
                    &&& !final(auto_anim).disabled
                    &&& r.gravity == Some(SetGravityScale {
                        scale_milli: 1000,
                        reset_velocity: false,
                    })
                    &&& r.animation is None
                }
            }
        }),
{
    if !cling.can_cling {
        return ClingUpdate { gravity: None, animation: None };
    }
    if on_wall.on_wall && climb_pressed && !grounded.grounded && !cling.flinging {
        if !cling.clinging {
            if cling.cling_cooldown.finished() {
                cling.clinging = true;
                velocity.x = 0;
                velocity.y = 0;
                auto_anim.disabled = true;
                return ClingUpdate {
                    gravity: Some(SetGravityScale { scale_milli: 0, reset_velocity: true }),
                    animation: Some(ChangeAnimationEvent {
                        entity,
                        new_animation: AnimationType::Custom(WALL_GRAB_ANIMATION),
                        restart_animation: false,
                        flipped: FlipAnimation::Unchanged,
                    }),
                };
            }
            return ClingUpdate { gravity: None, animation: None };
        }
        velocity.x = 0;
        velocity.y = 0;
        return ClingUpdate { gravity: None, animation: None };
    }
    if cling.clinging {
        if on_wall.on_wall && !grounded.grounded {
            if cling.flinging {
                return ClingUpdate { gravity: None, animation: None };
            }
            let mut dir = Vec2i { x: 0, y: 0 };
            if right {
                dir.x = dir.x + 1000;
            }
            if left {
                dir.x = dir.x - 1000;
            }
            if up {
                dir.y = dir.y + 1000;
            }
            if !(dir.x == 0 && dir.y == 0) {
                cling.fling_dir = dir.normalize_milli();
                cling.flinging = true;
                return ClingUpdate {
                    gravity: None,
                    animation: Some(ChangeAnimationEvent {
                        entity,
                        new_animation: AnimationType::Custom(WALL_FLING_ANIMATION),
                        restart_animation: true,
                        flipped: FlipAnimation::Unchanged,
                    }),
                };
            }
        }
        cling.clinging = false;
        cling.flinging = false;
        cling.cling_cooldown.reset();
        velocity.x = 0;
        velocity.y = 0;
        auto_anim.disabled = false;
        return ClingUpdate {
            gravity: Some(SetGravityScale { scale_milli: 1000, reset_velocity: false }),
            animation: None,
        };
    }
    ClingUpdate { gravity: None, animation: None }
}

/// The end of a leap windup, driven by the leap clip finishing.  Still
/// against the wall, the leap launches: the remembered direction times
/// the fling speed becomes the velocity, gravity returns, the rest clock
/// restarts and automatic animation resumes.  With the wall lost by then
/// (a state the machine's guards should rule out) the player is put back
/// in the free state the same way, only without the launch.
pub fn player_wall_fling(entity: Entity, on_wall: &IsOnWall, cling: &mut PlayerWallCling,
    velocity: &mut Vec2i, auto_anim: &mut AutoAnimation, finished: &AnimationFinishedEvent)
    -> (r: Option<SetGravityScale>)
    requires
        old(cling).wf(),
    ensures
        final(cling).wf(),
        ({
            let ours = finished.entity == entity
                && finished.animation_type == AnimationType::Custom(WALL_FLING_ANIMATION);
            &&& !ours ==> *final(cling) == *old(cling) && *final(velocity) == *old(velocity)
                && *final(auto_anim) == *old(auto_anim) && r is None
            &&& ours ==> {
                &&& !final(cling).clinging
                &&& !final(cling).flinging
                &&& final(cling).can_cling == old(cling).can_cling
                &&& final(cling).fling_speed == old(cling).fling_speed
                &&& final(cling).cling_cooldown.elapsed_ms == 0
                &&& final(cling).cling_cooldown.duration_ms
                    == old(cling).cling_cooldown.duration_ms
                &&& final(cling).fling_dir == old(cling).fling_dir
                &&& !final(auto_anim).disabled
                &&& r == Some(SetGravityScale { scale_milli: 1000, reset_velocity: false })
                &&& on_wall.on_wall ==> {
                    &&& final(velocity).x
                        == div_trunc(old(cling).fling_dir.x * old(cling).fling_speed, 1000)
                    &&& final(velocity).y
                        == div_trunc(old(cling).fling_dir.y * old(cling).fling_speed, 1000)
                    &&& final(velocity).bounded(2 * KINEMATIC_LIMIT as int)
                }
                &&& !on_wall.on_wall ==> *final(velocity) == *old(velocity)
            }
        }),
{
    let ours: bool = finished.entity == entity
        && match finished.animation_type {
            AnimationType::Custom(tag) => tag == WALL_FLING_ANIMATION,
            _ => false,
        };
    if !ours {
        return None;
    }
    cling.clinging = false;
    cling.flinging = false;
    cling.cling_cooldown.reset();
    auto_anim.disabled = false;
    if on_wall.on_wall {
        let launch: Vec2i = cling.fling_dir.scale_milli(cling.fling_speed);
        velocity.x = launch.x;
        velocity.y = launch.y;
    }
    Some(SetGravityScale { scale_milli: 1000, reset_velocity: false })
}

/// Aim input for one held weapon: the four direction keys pick one of the
/// eight headings, a horizontal press also turns the weapon around, and
/// no keys held leaves the aim as it was.
pub fn player_weapon_aim(direction: &mut WeaponDirection, right: bool, left: bool, up: bool,
    down: bool)
    ensures
        ({
            let x = (if right && !left { 1000int } else if left && !right { -1000int }
                else { 0int });
            let y = (if up && !down { 1000int } else if down && !up { -1000int }
                else { 0int });
            &&& (x == 0 && y == 0) ==> *final(direction) == *old(direction)
            &&& !(x == 0 && y == 0) ==> {
                &&& final(direction).right_facing == (if x > 0 { true } else if x < 0 {
                    false
                } else {
                    old(direction).right_facing
                })
                &&& final(direction).direction
                    == direction_of_axes(whole_units(x), whole_units(y))
            }
        }),
{
    let mut dir = Vec2i { x: 0, y: 0 };
    if right {
        dir.x = dir.x + 1000;
    }
    if left {
        dir.x = dir.x - 1000;
    }
    if up {
        dir.y = dir.y + 1000;
    }
    if down {
        dir.y = dir.y - 1000;
    }
    if dir.x == 0 && dir.y == 0 {
        return;
    }
    if dir.x > 0 {
        direction.right_facing = true;
    } else if dir.x < 0 {
        direction.right_facing = false;
    }
    direction.direction = WeaponDirections::from_vec2(dir);
}

/// Attack input for one held weapon: pressing the attack key starts the
/// charge, releasing it drops the flag (firing is the charge system's
/// decision on that falling edge).
pub fn player_attack(state: &mut WeaponState, pressed: bool, released: bool)
    ensures
        released ==> !final(state).charging,
        !released && pressed ==> final(state).charging,
        !released && !pressed ==> *final(state) == *old(state),
{
    if pressed {
        state.charging = true;
    }
    if released {
        state.charging = false;
    }
}

} // verus!
