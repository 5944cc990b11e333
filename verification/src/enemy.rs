//! Enemy behavior: target acquisition with a hysteresis band, pursuit
//! steering feeding the movement intent, idling, and touch damage.

use vstd::prelude::*;
use crate::Entity;
use crate::health::{HealthChangeEvent, HealthChangeType};
use crate::movement::{FullMoveDir, MoveDir};
use crate::tools::KINEMATIC_LIMIT;
use crate::vec2::{isqrt_spec, Vec2i};
use crate::weapons::DAMAGE_LIMIT;

verus! {

/// Marker for non-player creatures, with a content-chosen kind tag.
#[derive(Clone, Copy, Debug, Default)]
pub struct NonPlayer(pub i32);

/// The states of a passive creature: it idles until scared off.
#[derive(Clone, Copy, Debug, PartialEq, Eq, Structural)]
pub enum NonPlayerPassiveState {
    Wander,
    Flee { target: Entity },
}

impl Default for NonPlayerPassiveState {
    /// A passive creature starts idling.
    fn default() -> (r: Self)
        ensures
            r == NonPlayerPassiveState::Wander,
    {
        NonPlayerPassiveState::Wander
    }
}

/// The states of an aggressive creature: it idles, may search, and
/// pursues a target while one is in range.
#[derive(Clone, Copy, Debug, PartialEq, Eq, Structural)]
pub enum NonPlayerAggressiveState {
    Wander,
    Search,
    Attack { target: Entity },
}

impl Default for NonPlayerAggressiveState {
    /// An aggressive creature starts idling.
    fn default() -> (r: Self)
        ensures
            r == NonPlayerAggressiveState::Wander,
    {
        NonPlayerAggressiveState::Wander
    }
}

/// The two radii of the pursuit hysteresis band, in thousandths of a
/// unit: closer than `attack_range` starts an attack; only beyond
/// `lost_range` is the target given up.
#[derive(Clone, Copy, Debug, Default)]
pub struct NonPlayerAttackPlayer {
    pub attack_range: i64,
    pub lost_range: i64,
}

impl NonPlayerAttackPlayer {
    /// Radii within the configuration bound, the giving-up radius no
    /// closer than the attacking one.
    pub open spec fn wf(self) -> bool {
        0 <= self.attack_range <= KINEMATIC_LIMIT
            && self.attack_range <= self.lost_range <= KINEMATIC_LIMIT
    }
}

/// Hit points a touch from this creature takes.
#[derive(Clone, Copy, Debug, Default)]
pub struct NonPlayerDamage(pub i32);

/// The squared distance between two points.
pub open spec fn dist_sq(a: Vec2i, b: Vec2i) -> int {
    (b.x - a.x) * (b.x - a.x) + (b.y - a.y) * (b.y - a.y)
}

/// One evaluation of the pursuit rule against the player's position.
/// Within the attack radius the creature pursues the player; beyond the
/// giving-up radius it returns to idling; in the band between, it keeps
/// whatever it was doing, so the state cannot flap at a threshold.  A
/// creature exactly on top of the player keeps its state.  Distances are
/// compared squared, which orders them exactly.
pub fn enemy_target_player(state: &mut NonPlayerAggressiveState,
    attack: &NonPlayerAttackPlayer, player: Entity, enemy_pos: Vec2i, player_pos: Vec2i)
    requires
        attack.wf(),
        enemy_pos.bounded(KINEMATIC_LIMIT as int),
        player_pos.bounded(KINEMATIC_LIMIT as int),
    ensures
        ({
            let d2 = dist_sq(enemy_pos, player_pos);
            &&& d2 == 0 ==> *final(state) == *old(state)
            &&& (d2 != 0 && d2 < attack.attack_range * attack.attack_range)
                ==> *final(state) == (NonPlayerAggressiveState::Attack { target: player })
            &&& (d2 != 0 && d2 >= attack.attack_range * attack.attack_range
                && d2 > attack.lost_range * attack.lost_range)
                ==> *final(state) == NonPlayerAggressiveState::Wander
            &&& (d2 != 0 && d2 >= attack.attack_range * attack.attack_range
                && d2 <= attack.lost_range * attack.lost_range)
                ==> *final(state) == *old(state)
        }),
{
    let dx: i64 = player_pos.x - enemy_pos.x;
    let dy: i64 = player_pos.y - enemy_pos.y;
    proof {
        assert(0 <= dx * dx <= 4_000_000_000_000_000_000) by (nonlinear_arith)
            requires -2_000_000_000 <= dx <= 2_000_000_000;
        assert(0 <= dy * dy <= 4_000_000_000_000_000_000) by (nonlinear_arith)
            requires -2_000_000_000 <= dy <= 2_000_000_000;
        assert(0 <= attack.attack_range * attack.attack_range
            <= 1_000_000_000_000_000_000) by (nonlinear_arith)
            requires 0 <= attack.attack_range <= 1_000_000_000;
        assert(0 <= attack.lost_range * attack.lost_range
            <= 1_000_000_000_000_000_000) by (nonlinear_arith)
            requires 0 <= attack.lost_range <= 1_000_000_000;
    }
    let d2: u64 = ((dx * dx) as u64) + ((dy * dy) as u64);
    if d2 == 0 {
        return;
    }
    let attack_sq: u64 = (attack.attack_range * attack.attack_range) as u64;
    let lost_sq: u64 = (attack.lost_range * attack.lost_range) as u64;
    if d2 < attack_sq {
        *state = NonPlayerAggressiveState::Attack { target: player };
    } else if d2 > lost_sq && !matches!(*state, NonPlayerAggressiveState::Wander) {
        *state = NonPlayerAggressiveState::Wander;
    }
}

/// Pursuit steering for a walking creature: while attacking a target
/// whose position is known, point the horizontal intent at it; a missing
/// target (despawned) leaves the intent alone for this tick.
pub fn enemy_attack_target(state: &NonPlayerAggressiveState, enemy_pos: Vec2i,
    target_pos: Option<Vec2i>, move_dir: &mut MoveDir)
    requires
        old(move_dir).wf(),
    ensures
        final(move_dir).wf(),
        ({
            let steering = *state is Attack && target_pos is Some;
            &&& !steering ==> *final(move_dir) == *old(move_dir)
            &&& steering ==> (target_pos matches Some(t)
                && final(move_dir).0 == (if t.x > enemy_pos.x { 1000int }
                    else if t.x < enemy_pos.x { -1000int } else { 0int }))
        }),
{
    match state {
        NonPlayerAggressiveState::Attack { target: _ } => {
            match target_pos {
                Some(t) => {
                    if t.x > enemy_pos.x {
                        move_dir.0 = 1000;
                    } else if t.x < enemy_pos.x {
                        move_dir.0 = -1000;
                    } else {
                        move_dir.0 = 0;
                    }
                },
                None => {},
            }
        },
        _ => {},
    }
}

/// Pursuit steering for a flying creature: while attacking a target
/// whose position is known, point the planar intent straight at it,
/// normalized to about one unit; a missing target leaves the intent
/// alone.
pub fn enemy_attack_target_flying(state: &NonPlayerAggressiveState, enemy_pos: Vec2i,
    target_pos: Option<Vec2i>, move_dir: &mut FullMoveDir)
    requires
        old(move_dir).wf(),
        enemy_pos.bounded(KINEMATIC_LIMIT as int),
        (target_pos matches Some(t) ==> t.bounded(KINEMATIC_LIMIT as int)),
    ensures
        final(move_dir).wf(),
        ({
            let steering = *state is Attack && target_pos is Some;
            &&& !steering ==> *final(move_dir) == *old(move_dir)
            &&& steering ==> (target_pos matches Some(t) && {
                let diff = Vec2i { x: (t.x - enemy_pos.x) as i64, y: (t.y - enemy_pos.y) as i64 };
                &&& (diff.x == 0 && diff.y == 0) ==> final(move_dir).0
                    == (Vec2i { x: 0, y: 0 })
                &&& !(diff.x == 0 && diff.y == 0) ==> {
                    let len = isqrt_spec((diff.x * diff.x + diff.y * diff.y) as nat);
                    &&& final(move_dir).0.x
                        == crate::tools::div_trunc(diff.x * 1000, len as int)
                    &&& final(move_dir).0.y
                        == crate::tools::div_trunc(diff.y * 1000, len as int)
                }
            })
        }),
{
    match state {
        NonPlayerAggressiveState::Attack { target: _ } => {
            match target_pos {
                Some(t) => {
                    let diff = Vec2i { x: t.x - enemy_pos.x, y: t.y - enemy_pos.y };
                    if diff.x == 0 && diff.y == 0 {
                        move_dir.0 = Vec2i { x: 0, y: 0 };
                    } else {
                        move_dir.0 = diff.normalize_milli();
                    }
                },
                None => {},
            }
        },
        _ => {},
    }
}

/// An idling walker stands still: while the creature wanders, its
/// horizontal intent is forced to zero.
pub fn enemy_idle(state: &NonPlayerAggressiveState, move_dir: &mut MoveDir)
    requires
        old(move_dir).wf(),
    ensures
        final(move_dir).wf(),
        *state is Wander ==> final(move_dir).0 == 0,
        !(*state is Wander) ==> *final(move_dir) == *old(move_dir),
{
    match state {
        NonPlayerAggressiveState::Wander => {
            move_dir.0 = 0;
        },
        _ => {},
    }
}

/// An idling flyer hovers: while the creature wanders, its planar intent
/// is forced to zero.
pub fn enemy_idle_flying(state: &NonPlayerAggressiveState, move_dir: &mut FullMoveDir)
    requires
        old(move_dir).wf(),
    ensures
        final(move_dir).wf(),
        *state is Wander ==> final(move_dir).0 == (Vec2i { x: 0, y: 0 }),
        !(*state is Wander) ==> *final(move_dir) == *old(move_dir),
{
    match state {
        NonPlayerAggressiveState::Wander => {
            move_dir.0 = Vec2i { x: 0, y: 0 };
        },
        _ => {},
    }
}

/// A creature touched the player: its touch damage goes out as a queued
/// health change against the player, never applied directly.
pub fn enemy_damage(damage: &NonPlayerDamage, player: Entity) -> (r: HealthChangeEvent)
    requires
        -DAMAGE_LIMIT <= damage.0 <= DAMAGE_LIMIT,
    ensures
        r.entity == player,
        r.change_type == (HealthChangeType::Add { value: (-damage.0) as i32 }),
{
    HealthChangeEvent {
        entity: player,
        change_type: HealthChangeType::Add { value: -damage.0 },
    }
}

} // verus!
