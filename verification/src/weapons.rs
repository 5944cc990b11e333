//! Combat: the two-slot weapon inventory, eight-way aim, the hold-to-charge
//! fire cycle, and projectile spawn, travel, expiry and impact resolution.

use vstd::prelude::*;
use crate::Entity;
use crate::health::{HealthChangeEvent, HealthChangeType};
use crate::movement::SetGravityScale;
use crate::timer::Timer;
use crate::tools::{div_trunc, div_trunc_i64, KINEMATIC_LIMIT};
use crate::vec2::{cos_milli, is_octant_angle, sin_milli, Vec2i};

verus! {

/// Marker for entities that can hold weapons.
#[derive(Clone, Copy, Debug, Default)]
pub struct WeaponWielder;

/// Two weapon slots, each filled at most once and never swapped.
#[derive(Clone, Copy, Debug, Default)]
pub struct WeaponInventory {
    slot1: Option<Entity>,
    slot2: Option<Entity>,
}

impl WeaponInventory {
    /// What the first slot holds.
    pub closed spec fn spec_slot1(self) -> Option<Entity> {
        self.slot1
    }

    /// What the second slot holds.
    pub closed spec fn spec_slot2(self) -> Option<Entity> {
        self.slot2
    }

    /// An inventory with both slots empty.
    pub fn new() -> (r: WeaponInventory)
        ensures
            r.spec_slot1() is None,
            r.spec_slot2() is None,
    {
        WeaponInventory { slot1: None, slot2: None }
    }

    /// Put a weapon in the first slot; refused when the slot is taken.
    pub fn add_slot1_weapon(&mut self, entity: Entity) -> (added: bool)
        ensures
            added == old(self).spec_slot1() is None,
            added ==> final(self).spec_slot1() == Some(entity),
            !added ==> final(self).spec_slot1() == old(self).spec_slot1(),
            final(self).spec_slot2() == old(self).spec_slot2(),
    {
        if self.slot1.is_none() {
            self.slot1 = Some(entity);
            return true;
        }
        false
    }

    /// Put a weapon in the second slot; refused when the slot is taken.
    pub fn add_slot2_weapon(&mut self, entity: Entity) -> (added: bool)
        ensures
            added == old(self).spec_slot2() is None,
            added ==> final(self).spec_slot2() == Some(entity),
            !added ==> final(self).spec_slot2() == old(self).spec_slot2(),
            final(self).spec_slot1() == old(self).spec_slot1(),
    {
        if self.slot2.is_none() {
            self.slot2 = Some(entity);
            return true;
        }
        false
    }

    /// The first slot's weapon, if any.
    pub fn get_slot1(&self) -> (r: &Option<Entity>)
        ensures
            *r == self.spec_slot1(),
    {
        &self.slot1
    }

    /// The second slot's weapon, if any.
    pub fn get_slot2(&self) -> (r: &Option<Entity>)
        ensures
            *r == self.spec_slot2(),
    {
        &self.slot2
    }

    /// Whether the first slot is taken.
    pub fn has_slot1(&self) -> (r: bool)
        ensures
            r == self.spec_slot1() is Some,
    {
        self.slot1.is_some()
    }

    /// Whether the second slot is taken.
    pub fn has_slot2(&self) -> (r: bool)
        ensures
            r == self.spec_slot2() is Some,
    {
        self.slot2.is_some()
    }
}

/// Whether a weapon's trigger is held, charging it.
#[derive(Clone, Copy, Debug, Default)]
pub struct WeaponState {
    pub charging: bool,
}

/// The eight compass headings a weapon can aim along, relative to its
/// facing: `Forward` is the way the wielder faces.
#[derive(Clone, Copy, Debug, PartialEq, Eq, Structural)]
pub enum WeaponDirections {
    Up,
    ForwardUp,
    Forward,
    ForwardDown,
    Down,
    BackwardDown,
    Backward,
    BackwardUp,
}

impl Default for WeaponDirections {
    /// A weapon starts aimed straight ahead.
    fn default() -> (r: Self)
        ensures
            r == WeaponDirections::Forward,
    {
        WeaponDirections::Forward
    }
}

/// The heading a pair of whole-unit axes picks, in the order the aim keys
/// combine; anything short of a whole unit on both axes aims forward.
pub open spec fn direction_of_axes(x: int, y: int) -> WeaponDirections {
    if x == 0 && y == 1 {
        WeaponDirections::Up
    } else if x == 1 && y == 1 {
        WeaponDirections::ForwardUp
    } else if x == 1 && y == 0 {
        WeaponDirections::Forward
    } else if x == 1 && y == -1 {
        WeaponDirections::ForwardDown
    } else if x == 0 && y == -1 {
        WeaponDirections::Down
    } else if x == -1 && y == -1 {
        WeaponDirections::BackwardDown
    } else if x == -1 && y == 0 {
        WeaponDirections::Backward
    } else if x == -1 && y == 1 {
        WeaponDirections::BackwardUp
    } else {
        WeaponDirections::Forward
    }
}

/// The number of whole units in a fixed-point coordinate, kept to one
/// either way: the sign of a full press, zero for anything less.
pub open spec fn whole_units(v: int) -> int {
    if v >= 1000 {
        1
    } else if v <= -1000 {
        -1
    } else {
        0
    }
}

impl WeaponDirections {
    /// The heading an aim vector picks: each axis counts only as a whole
    /// unit pressed up, down, either side, or not at all.
    pub fn from_vec2(dir: Vec2i) -> (r: WeaponDirections)
        ensures
            r == direction_of_axes(whole_units(dir.x as int), whole_units(dir.y as int)),
    {
        let x: i64 = if dir.x >= 1000 {
            1
        } else if dir.x <= -1000 {
            -1
        } else {
            0
        };
        let y: i64 = if dir.y >= 1000 {
            1
        } else if dir.y <= -1000 {
            -1
        } else {
            0
        };
        if x == 0 && y == 1 {
            WeaponDirections::Up
        } else if x == 1 && y == 1 {
            WeaponDirections::ForwardUp
        } else if x == 1 && y == 0 {
            WeaponDirections::Forward
        } else if x == 1 && y == -1 {
            WeaponDirections::ForwardDown
        } else if x == 0 && y == -1 {
            WeaponDirections::Down
        } else if x == -1 && y == -1 {
            WeaponDirections::BackwardDown
        } else if x == -1 && y == 0 {
            WeaponDirections::Backward
        } else if x == -1 && y == 1 {
            WeaponDirections::BackwardUp
        } else {
            WeaponDirections::Forward
        }
    }

    /// The counterclockwise angle of a heading, in degrees: forward is
    /// zero, up a quarter turn.
    pub open spec fn spec_angle(self) -> int {
        match self {
            WeaponDirections::Forward => 0,
            WeaponDirections::ForwardUp => 45,
            WeaponDirections::Up => 90,
            WeaponDirections::BackwardUp => 135,
            WeaponDirections::Backward => 180,
            WeaponDirections::BackwardDown => 225,
            WeaponDirections::Down => 270,
            WeaponDirections::ForwardDown => 315,
        }
    }

    /// The counterclockwise angle of this heading, in degrees.
    pub fn get_angle(&self) -> (r: u32)
        ensures
            r == self.spec_angle(),
            is_octant_angle(r as int),
    {
        match self {
            WeaponDirections::Forward => 0,
            WeaponDirections::ForwardUp => 45,
            WeaponDirections::Up => 90,
            WeaponDirections::BackwardUp => 135,
            WeaponDirections::Backward => 180,
            WeaponDirections::BackwardDown => 225,
            WeaponDirections::Down => 270,
            WeaponDirections::ForwardDown => 315,
        }
    }
}

/// Which way a weapon points: its facing and its eight-way heading.
#[derive(Clone, Copy, Debug)]
pub struct WeaponDirection {
    pub right_facing: bool,
    pub direction: WeaponDirections,
}

impl Default for WeaponDirection {
    /// A weapon starts facing left of the screen's flow, aimed forward.
    fn default() -> (r: Self)
        ensures
            !r.right_facing,
            r.direction == WeaponDirections::Forward,
    {
        WeaponDirection { right_facing: false, direction: WeaponDirections::Forward }
    }
}

/// The windup clock: it runs while the trigger is held and its progress is
/// the weapon's charge.
#[derive(Clone, Copy, Debug)]
pub struct WeaponCharge(pub Timer);

impl WeaponCharge {
    /// A sound clock.
    pub open spec fn wf(self) -> bool {
        self.0.wf()
    }

    /// A weapon whose full windup takes `max_charge_ms` milliseconds.
    pub fn new(max_charge_ms: u32) -> (r: WeaponCharge)
        requires
            1 <= max_charge_ms,
        ensures
            r.wf(),
            r.0.duration_ms == max_charge_ms,
            r.0.elapsed_ms == 0,
    {
        WeaponCharge(Timer::new(max_charge_ms))
    }

    /// Let the windup accumulate.
    pub fn tick(&mut self, dt_ms: u32)
        requires
            old(self).wf(),
        ensures
            final(self).wf(),
            final(self).0.duration_ms == old(self).0.duration_ms,
            final(self).0.elapsed_ms == (if old(self).0.elapsed_ms + dt_ms
                >= old(self).0.duration_ms { old(self).0.duration_ms as int } else {
                old(self).0.elapsed_ms + dt_ms
            }),
    {
        self.0.tick(dt_ms);
    }

    /// The charge held, in thousandths of a full windup.
    pub fn get_charge_percent(&self) -> (r: u32)
        requires
            self.wf(),
        ensures
            r == self.0.elapsed_ms as int * 1000 / self.0.duration_ms as int,
            r <= 1000,
    {
        self.0.percent_milli()
    }

    /// Drop the charge to zero, ready for the next cycle.
    pub fn reset(&mut self)
        ensures
            final(self).0.duration_ms == old(self).0.duration_ms,
            final(self).0.elapsed_ms == 0,
    {
        self.0.reset();
    }
}

impl Default for WeaponCharge {
    /// A one-second windup.
    fn default() -> (r: Self)
        ensures
            r.wf(),
            r.0.duration_ms == 1000,
            r.0.elapsed_ms == 0,
    {
        WeaponCharge::new(1000)
    }
}

/// Let a weapon's windup accumulate, but only while its trigger is held.
pub fn charge_weapon(state: &WeaponState, charge: &mut WeaponCharge, dt_ms: u32)
    requires
        old(charge).wf(),
    ensures
        final(charge).wf(),
        final(charge).0.duration_ms == old(charge).0.duration_ms,
        state.charging ==> final(charge).0.elapsed_ms
            == (if old(charge).0.elapsed_ms + dt_ms >= old(charge).0.duration_ms {
                old(charge).0.duration_ms as int
            } else {
                old(charge).0.elapsed_ms + dt_ms
            }),
        !state.charging ==> *final(charge) == *old(charge),
{
    if state.charging {
        charge.tick(dt_ms);
    }
}

/// Decide whether a weapon fires, given that its charging flag changed
/// this tick (the caller runs this through change detection, so a weapon
/// resting uncharged does not fire every tick): a released trigger with a
/// nonzero charge fires, exactly once per charge cycle.
pub fn weapon_state_change(weapon: Entity, state: &WeaponState, charge: &WeaponCharge)
    -> (fire: Option<FireWeaponEvent>)
    requires
        charge.wf(),
    ensures
        fire is Some <==> (!state.charging
            && charge.0.elapsed_ms as int * 1000 / charge.0.duration_ms as int != 0),
        (fire matches Some(ev) ==> ev.0 == weapon),
{
    if !state.charging && charge.get_charge_percent() != 0 {
        Some(FireWeaponEvent(weapon))
    } else {
        None
    }
}

/// What kind of physics body a projectile gets.
#[derive(Clone, Copy, Debug, PartialEq, Eq, Structural)]
pub enum ProjectileBody {
    Dynamic,
    Kinematic,
    Sensor,
}

/// Everything needed to build a projectile when the weapon fires, aimed
/// forward; firing rotates it to the weapon's heading.
#[derive(Clone, Copy, Debug)]
pub struct ProjectileTemplate {
    /// Hit points taken from whatever the projectile strikes.
    pub damage: i32,
    /// How long the projectile lives, in milliseconds.
    pub expire_ms: u32,
    /// The hitbox extents, in thousandths of a unit.
    pub size: Vec2i,
    /// Launch velocity before aiming, in thousandths of a unit per second.
    pub initial_speed: Vec2i,
    /// Spin handed to the engine, in thousandths of a degree per second.
    pub initial_spin_angle: i64,
    /// Where the projectile appears relative to the weapon, before aiming.
    pub spawn_offset: Vec2i,
    /// The physics body the projectile gets.
    pub body: ProjectileBody,
}

/// Magnitude bound on a single hit's damage.
pub const DAMAGE_LIMIT: i32 = 1_000_000;

impl ProjectileTemplate {
    /// Kinematic quantities within the configuration bound and a positive
    /// lifetime.
    pub open spec fn wf(self) -> bool {
        &&& -DAMAGE_LIMIT <= self.damage <= DAMAGE_LIMIT
        &&& 1 <= self.expire_ms
        &&& self.size.bounded(KINEMATIC_LIMIT as int)
        &&& self.initial_speed.bounded(KINEMATIC_LIMIT as int)
        &&& self.spawn_offset.bounded(KINEMATIC_LIMIT as int)
        &&& -KINEMATIC_LIMIT <= self.initial_spin_angle <= KINEMATIC_LIMIT
    }

    /// A template for a ranged projectile that flies off on its own.
    pub fn create_range(damage: i32, expire_ms: u32, spawn_offset: Vec2i, width: i64,
        height: i64, initial_speed: Vec2i, initial_spin_angle: i64, body: ProjectileBody)
        -> (r: ProjectileTemplate)
        requires
            -DAMAGE_LIMIT <= damage <= DAMAGE_LIMIT,
            1 <= expire_ms,
            0 <= width <= KINEMATIC_LIMIT,
            0 <= height <= KINEMATIC_LIMIT,
            spawn_offset.bounded(KINEMATIC_LIMIT as int),
            initial_speed.bounded(KINEMATIC_LIMIT as int),
            -KINEMATIC_LIMIT <= initial_spin_angle <= KINEMATIC_LIMIT,
        ensures
            r.wf(),
            r == (ProjectileTemplate {
                damage,
                expire_ms,
                size: Vec2i { x: width, y: height },
                initial_speed,
                initial_spin_angle,
                spawn_offset,
                body,
            }),
    {
        ProjectileTemplate {
            damage,
            expire_ms,
            size: Vec2i { x: width, y: height },
            initial_speed,
            initial_spin_angle,
            spawn_offset,
            body,
        }
    }

    /// A template for a melee strike that rides along with the wielder:
    /// no launch speed and no spin.
    pub fn create_melee(damage: i32, expire_ms: u32, spawn_offset: Vec2i, width: i64,
        height: i64) -> (r: ProjectileTemplate)
        requires
            -DAMAGE_LIMIT <= damage <= DAMAGE_LIMIT,
            1 <= expire_ms,
            0 <= width <= KINEMATIC_LIMIT,
            0 <= height <= KINEMATIC_LIMIT,
            spawn_offset.bounded(KINEMATIC_LIMIT as int),
        ensures
            r.wf(),
            r == (ProjectileTemplate {
                damage,
                expire_ms,
                size: Vec2i { x: width, y: height },
                initial_speed: Vec2i { x: 0, y: 0 },
                initial_spin_angle: 0,
                spawn_offset,
                body: ProjectileBody::Dynamic,
            }),
    {
        ProjectileTemplate {
            damage,
            expire_ms,
            size: Vec2i { x: width, y: height },
            initial_speed: Vec2i { x: 0, y: 0 },
            initial_spin_angle: 0,
            spawn_offset,
            body: ProjectileBody::Dynamic,
        }
    }
}

/// What a weapon does when it fires: the projectile it spawns, whether
/// that projectile rides along with the wielder (melee) or goes its own
/// way (ranged), whose side it is on, and an optional gravity override.
#[derive(Clone, Copy, Debug)]
pub struct WeaponAttack {
    pub to_spawn: ProjectileTemplate,
    pub child_of_parent: bool,
    pub is_friendly: bool,
    pub gravity_scale: Option<SetGravityScale>,
}

/// A weapon: its trigger state, heading, windup clock, and attack.
#[derive(Clone, Copy, Debug)]
pub struct WeaponBundle {
    pub state: WeaponState,
    pub direction: WeaponDirection,
    pub charge: WeaponCharge,
    pub attack: WeaponAttack,
}

impl WeaponBundle {
    /// A sound windup clock and template.
    pub open spec fn wf(self) -> bool {
        self.charge.wf() && self.attack.to_spawn.wf()
    }

    /// The stock sword: a slow melee strike riding with the wielder, with
    /// gravity switched off for the blade.
    pub fn create_sword(is_friendly: bool) -> (r: WeaponBundle)
        ensures
            r.wf(),
            !r.state.charging,
            !r.direction.right_facing,
            r.direction.direction == WeaponDirections::Forward,
            r.charge.0.duration_ms == 1500,
            r.charge.0.elapsed_ms == 0,
            r.attack.child_of_parent,
            r.attack.is_friendly == is_friendly,
            r.attack.to_spawn.damage == 10,
            r.attack.to_spawn.expire_ms == 460,
            r.attack.to_spawn.spawn_offset == (Vec2i { x: 25_000, y: 5_000 }),
            r.attack.to_spawn.size == (Vec2i { x: 20_000, y: 40_000 }),
            r.attack.to_spawn.initial_speed == (Vec2i { x: 0, y: 0 }),
            r.attack.gravity_scale == Some(SetGravityScale {
                scale_milli: 0,
                reset_velocity: true,
            }),
    {
        WeaponBundle {
            state: WeaponState { charging: false },
            direction: WeaponDirection {
                right_facing: false,
                direction: WeaponDirections::Forward,
            },
            charge: WeaponCharge::new(1500),
            attack: WeaponAttack {
                to_spawn: ProjectileTemplate::create_melee(10, 460,
                    Vec2i { x: 25_000, y: 5_000 }, 20_000, 40_000),
                child_of_parent: true,
                is_friendly,
                gravity_scale: Some(SetGravityScale { scale_milli: 0, reset_velocity: true }),
            },
        }
    }

    /// The stock throwing knife: a long windup, then a fast spinning
    /// projectile under most of normal gravity.
    pub fn create_throwing_knife(is_friendly: bool) -> (r: WeaponBundle)
        ensures
            r.wf(),
            !r.state.charging,
            !r.direction.right_facing,
            r.direction.direction == WeaponDirections::Forward,
            r.charge.0.duration_ms == 3000,
            r.charge.0.elapsed_ms == 0,
            !r.attack.child_of_parent,
            r.attack.is_friendly == is_friendly,
            r.attack.to_spawn.damage == 10,
            r.attack.to_spawn.expire_ms == 2000,
            r.attack.to_spawn.spawn_offset == (Vec2i { x: 20_000, y: 0 }),
            r.attack.to_spawn.size == (Vec2i { x: 16_000, y: 4_000 }),
            r.attack.to_spawn.initial_speed == (Vec2i { x: 370_000, y: 0 }),
            r.attack.to_spawn.initial_spin_angle == 80_000,
            r.attack.gravity_scale == Some(SetGravityScale {
                scale_milli: 800,
                reset_velocity: false,
            }),
    {
        WeaponBundle {
            state: WeaponState { charging: false },
            direction: WeaponDirection {
                right_facing: false,
                direction: WeaponDirections::Forward,
            },
            charge: WeaponCharge::new(3000),
            attack: WeaponAttack {
                to_spawn: ProjectileTemplate::create_range(10, 2000,
                    Vec2i { x: 20_000, y: 0 }, 16_000, 4_000,
                    Vec2i { x: 370_000, y: 0 }, 80_000, ProjectileBody::Dynamic),
                child_of_parent: false,
                is_friendly,
                gravity_scale: Some(SetGravityScale {
                    scale_milli: 800,
                    reset_velocity: false,
                }),
            },
        }
    }
}

/// A weapon released its trigger with charge held; consumed by the spawn
/// pass.
#[derive(Clone, Copy, Debug)]
pub struct FireWeaponEvent(pub Entity);

/// A live projectile: its owner, remaining punch, lifetime, motion, and
/// what it may still collide with.
#[derive(Clone, Copy, Debug)]
pub struct Projectile {
    /// The weapon that spawned it.
    pub owner: Entity,
    /// Hit points it takes on impact; stripped after striking a wall.
    pub damage: Option<i32>,
    /// Despawned when this runs out.
    pub expire: Timer,
    /// Velocity, in thousandths of a unit per second.
    pub velocity: Vec2i,
    /// Spin handed to the engine, in thousandths of a degree per second.
    pub spin: i64,
    /// Where it appeared, relative to the wielder (melee) or the weapon's
    /// world position (ranged).
    pub offset: Vec2i,
    /// Whether it rides along with the wielder.
    pub child_of_parent: bool,
    /// Whose side it is on.
    pub is_friendly: bool,
    /// Whether it may still strike living targets; cleared after a hit so
    /// one projectile wounds at most once.
    pub can_hit_entities: bool,
    /// Whether the engine still resolves contacts for it; cleared after a
    /// wall impact leaves it inert.
    pub collides: bool,
    /// The physics body it was spawned with.
    pub body: ProjectileBody,
    /// The gravity override it was spawned with, if any.
    pub gravity_scale: Option<SetGravityScale>,
}

impl Projectile {
    /// A sound lifetime clock, bounded motion and bounded punch.
    pub open spec fn wf(self) -> bool {
        &&& self.expire.wf()
        &&& self.velocity.bounded(2 * KINEMATIC_LIMIT as int)
        &&& (self.damage matches Some(d) ==> -DAMAGE_LIMIT <= d <= DAMAGE_LIMIT)
    }
}

/// Build the projectile a firing weapon spawns: the template's velocity
/// and spawn offset rotated to the weapon's heading, spin mirrored against
/// the facing, a fresh lifetime, and the charge dropped for the next
/// cycle.
pub fn fire_weapon(weapon: Entity, charge: &mut WeaponCharge, attack: &WeaponAttack,
    direction: &WeaponDirection) -> (p: Projectile)
    requires
        old(charge).wf(),
        attack.to_spawn.wf(),
    ensures
        final(charge).0.duration_ms == old(charge).0.duration_ms,
        final(charge).0.elapsed_ms == 0,
        p.wf(),
        ({
            let t = attack.to_spawn;
            let angle = direction.direction.spec_angle();
            &&& p.owner == weapon
            &&& p.damage == Some(t.damage)
            &&& p.expire.duration_ms == t.expire_ms
            &&& p.expire.elapsed_ms == 0
            &&& p.velocity.x == div_trunc(t.initial_speed.x * cos_milli(angle)
                - t.initial_speed.y * sin_milli(angle), 1000)
            &&& p.velocity.y == div_trunc(t.initial_speed.x * sin_milli(angle)
                + t.initial_speed.y * cos_milli(angle), 1000)
            &&& p.offset.x == div_trunc(t.spawn_offset.x * cos_milli(angle)
                - t.spawn_offset.y * sin_milli(angle), 1000)
            &&& p.offset.y == div_trunc(t.spawn_offset.x * sin_milli(angle)
                + t.spawn_offset.y * cos_milli(angle), 1000)
            &&& p.spin == (if direction.right_facing { -t.initial_spin_angle as int } else {
                t.initial_spin_angle as int
            })
            &&& p.child_of_parent == attack.child_of_parent
            &&& p.is_friendly == attack.is_friendly
            &&& p.can_hit_entities
            &&& p.collides
            &&& p.body == t.body
            &&& p.gravity_scale == attack.gravity_scale
        }),
{
    let angle: u32 = direction.direction.get_angle();
    let velocity: Vec2i = attack.to_spawn.initial_speed.rotate_octant(angle);
    let offset: Vec2i = attack.to_spawn.spawn_offset.rotate_octant(angle);
    let spin: i64 = if direction.right_facing {
        -attack.to_spawn.initial_spin_angle
    } else {
        attack.to_spawn.initial_spin_angle
    };
    charge.reset();
    Projectile {
        owner: weapon,
        damage: Some(attack.to_spawn.damage),
        expire: Timer::new(attack.to_spawn.expire_ms),
        velocity,
        spin,
        offset,
        child_of_parent: attack.child_of_parent,
        is_friendly: attack.is_friendly,
        can_hit_entities: true,
        collides: true,
        body: attack.to_spawn.body,
        gravity_scale: attack.gravity_scale,
    }
}

/// One tick of a projectile's lifetime: report it spent when its clock
/// has run out, then let the clock accumulate.
pub fn projectile_expire(p: &mut Projectile, dt_ms: u32) -> (despawn: bool)
    requires
        old(p).wf(),
    ensures
        final(p).wf(),
        despawn == (old(p).expire.elapsed_ms == old(p).expire.duration_ms),
        *final(p) == (Projectile { expire: final(p).expire, ..*old(p) }),
        final(p).expire.duration_ms == old(p).expire.duration_ms,
        final(p).expire.elapsed_ms == (if old(p).expire.elapsed_ms + dt_ms
            >= old(p).expire.duration_ms { old(p).expire.duration_ms as int } else {
            old(p).expire.elapsed_ms + dt_ms
        }),
{
    let despawn: bool = p.expire.finished();
    p.expire.tick(dt_ms);
    despawn
}

/// What a projectile ran into, as the engine's collision layers report
/// it: level geometry, something alive, or something it ignores.
#[derive(Clone, Copy, Debug, PartialEq, Eq, Structural)]
pub enum ProjectileContact {
    Wall,
    Living,
    Neither,
}

/// Resolve one collision-start involving a projectile.  Level geometry
/// leaves it inert; a living target takes its punch once, through the
/// health-event queue; anything else is ignored.
pub fn projectile_collision(p: &mut Projectile, target: Entity, contact: ProjectileContact)
    -> (r: Option<HealthChangeEvent>)
    requires
        old(p).wf(),
    ensures
        final(p).wf(),
        contact == ProjectileContact::Wall ==> r is None && *final(p) == (Projectile {
            damage: None,
            can_hit_entities: false,
            collides: false,
            ..*old(p)
        }),
        contact == ProjectileContact::Neither ==> r is None && *final(p) == *old(p),
        contact == ProjectileContact::Living ==> ({
            let hits = old(p).damage is Some && old(p).can_hit_entities;
            &&& !hits ==> *final(p) == *old(p) && r is None
            &&& hits ==> (old(p).damage matches Some(d) && {
                &&& r == Some(HealthChangeEvent {
                    entity: target,
                    change_type: HealthChangeType::Add { value: (-d) as i32 },
                })
                &&& final(p).velocity.x == div_trunc(old(p).velocity.x * 200, 1000)
                &&& final(p).velocity.y == div_trunc(old(p).velocity.y * 200, 1000)
                &&& !final(p).can_hit_entities
                &&& final(p).damage == old(p).damage
            })
        }),
{
    match contact {
        ProjectileContact::Wall => {
            projectile_hit_wall(p);
            None
        },
        ProjectileContact::Living => projectile_hit_entity(p, target),
        ProjectileContact::Neither => None,
    }
}

/// After a fire drops the charge to zero, the same falling edge cannot
/// fire the weapon again: an empty windup reads as zero charge, and only
/// a nonzero charge fires.
pub proof fn lemma_reset_charge_cannot_fire(c: WeaponCharge)
    requires
        c.wf(),
        c.0.elapsed_ms == 0,
    ensures
        c.0.elapsed_ms as int * 1000 / c.0.duration_ms as int == 0,
{
}

/// A projectile struck a wall: its punch is stripped and its physics
/// response switched off, leaving it inert (it stays visible until its
/// lifetime runs out).
pub fn projectile_hit_wall(p: &mut Projectile)
    requires
        old(p).wf(),
    ensures
        final(p).wf(),
        *final(p) == (Projectile {
            damage: None,
            can_hit_entities: false,
            collides: false,
            ..*old(p)
        }),
{
    p.damage = None;
    p.can_hit_entities = false;
    p.collides = false;
}

/// A projectile struck a living target: if it still carries punch and may
/// still hit, the wound goes out as a health-change event, the projectile
/// loses most of its speed on impact, and its targeting is cleared so it
/// cannot wound again this lifetime.  Otherwise nothing happens.
pub fn projectile_hit_entity(p: &mut Projectile, target: Entity) -> (r:
    Option<HealthChangeEvent>)
    requires
        old(p).wf(),
    ensures
        final(p).wf(),
        ({
            let hits = old(p).damage is Some && old(p).can_hit_entities;
            &&& !hits ==> *final(p) == *old(p) && r is None
            &&& hits ==> (old(p).damage matches Some(d) && {
                &&& r == Some(HealthChangeEvent {
                    entity: target,
                    change_type: HealthChangeType::Add { value: (-d) as i32 },
                })
                &&& final(p).velocity.x == div_trunc(old(p).velocity.x * 200, 1000)
                &&& final(p).velocity.y == div_trunc(old(p).velocity.y * 200, 1000)
                &&& !final(p).can_hit_entities
                &&& final(p).damage == old(p).damage
                &&& final(p).expire == old(p).expire
                &&& final(p).collides == old(p).collides
            })
        }),
{
    match p.damage {
        Some(damage) => {
            if p.can_hit_entities {
                proof {
                    assert(-400_000_000_000 <= p.velocity.x * 200 <= 400_000_000_000)
                        by (nonlinear_arith)
                        requires -2_000_000_000 <= p.velocity.x <= 2_000_000_000;
                    assert(-400_000_000_000 <= p.velocity.y * 200 <= 400_000_000_000)
                        by (nonlinear_arith)
                        requires -2_000_000_000 <= p.velocity.y <= 2_000_000_000;
                    assert(-2_000_000_000 <= div_trunc(p.velocity.x * 200, 1000)
                        <= 2_000_000_000) by (nonlinear_arith)
                        requires -400_000_000_000 <= p.velocity.x * 200 <= 400_000_000_000;
                    assert(-2_000_000_000 <= div_trunc(p.velocity.y * 200, 1000)
                        <= 2_000_000_000) by (nonlinear_arith)
                        requires -400_000_000_000 <= p.velocity.y * 200 <= 400_000_000_000;
                }
                p.velocity.x = div_trunc_i64(p.velocity.x * 200, 1000);
                p.velocity.y = div_trunc_i64(p.velocity.y * 200, 1000);
                p.can_hit_entities = false;
                Some(HealthChangeEvent {
                    entity: target,
                    change_type: HealthChangeType::Add { value: -damage },
                })
            } else {
                None
            }
        },
        None => None,
    }
}

} // verus!
