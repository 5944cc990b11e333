//! Movement and grounding: velocity integration from controller intent,
//! the decaying velocity cap, ground and wall contact tracking driven by
//! collision events, and the variable-height jump state machine.
//!
//! Ordering: the scheduler should feed a tick's collision events into
//! `check_on_ground` and `check_on_wall` before anything reads the
//! grounding and wall flags that tick (jump and cling eligibility);
//! reading them afterwards instead gives answers one tick stale, which is
//! acceptable latency as long as it is consistent.

use vstd::prelude::*;
use crate::Entity;
use crate::timer::Timer;
use crate::tools::{clamp_shift, clamp_shift_spec, div_trunc, div_trunc_i64, lerp, lerp_spec,
    CLAMP_LIMIT, DT_LIMIT_MS, KINEMATIC_LIMIT};
use crate::vec2::Vec2i;

verus! {

/// Magnitude bound on a live velocity component.  Configuration values
/// (caps, accelerations, forces) stay within `KINEMATIC_LIMIT`; a velocity
/// may briefly exceed its cap between integration and capping, so it gets
/// a wider machine bound.
pub const VEL_LIMIT: i64 = 100 * KINEMATIC_LIMIT;

/// How long after leaving the ground a jump may still start, in
/// milliseconds.
pub const GROUNDED_GRACE_MS: u32 = 200;

/// Per-axis cap on the magnitude of an entity's velocity.
#[derive(Clone, Copy, Debug)]
pub struct MaxVelocity {
    pub x: i64,
    pub y: i64,
}

impl MaxVelocity {
    /// Nonnegative caps within the configuration bound.
    pub open spec fn wf(self) -> bool {
        0 <= self.x <= KINEMATIC_LIMIT && 0 <= self.y <= KINEMATIC_LIMIT
    }
}

/// How fast an entity gains and loses speed, in thousandths of a unit per
/// second squared.  `air_deaccel`, when present, replaces `deaccel` while
/// the entity is airborne.
#[derive(Clone, Copy, Debug)]
pub struct Accel {
    pub accel: i64,
    pub deaccel: i64,
    pub air_deaccel: Option<i64>,
}

impl Accel {
    /// Nonnegative rates within the configuration bound.
    pub open spec fn wf(self) -> bool {
        &&& 0 <= self.accel <= KINEMATIC_LIMIT
        &&& 0 <= self.deaccel <= KINEMATIC_LIMIT
        &&& match self.air_deaccel {
            Some(ad) => 0 <= ad <= KINEMATIC_LIMIT,
            None => true,
        }
    }
}

/// Horizontal movement intent in thousandths: `-1000` is full left,
/// `1000` full right, `0` none.
#[derive(Clone, Copy, Debug)]
pub struct MoveDir(pub i64);

impl MoveDir {
    /// The axis stays within one unit either way.
    pub open spec fn wf(self) -> bool {
        -1000 <= self.0 <= 1000
    }
}

/// Planar movement intent for entities that steer freely (flyers): a
/// direction vector of at most one unit per axis, in thousandths.
#[derive(Clone, Copy, Debug)]
pub struct FullMoveDir(pub Vec2i);

impl FullMoveDir {
    /// The direction stays within one unit per axis.
    pub open spec fn wf(self) -> bool {
        self.0.bounded(1000)
    }
}

/// The deceleration rate in force while moving under `a`: the airborne
/// override when the entity is airborne and has one, the ground rate
/// otherwise.
pub open spec fn deaccel_rate(a: Accel, airborne: bool) -> int {
    if airborne {
        match a.air_deaccel {
            Some(ad) => ad as int,
            None => a.deaccel as int,
        }
    } else {
        a.deaccel as int
    }
}

/// Cap a velocity to its per-axis bounds.  With an acceleration record the
/// cap decays: each axis moves toward its bound by the deceleration rate
/// times the tick, instead of snapping.  Without one the cap snaps.
/// `grounded` selects the airborne deceleration override when present.
pub fn cap_velocity(velocity: &mut Vec2i, cap: &MaxVelocity, acceleration: Option<&Accel>,
    grounded: Option<&IsGrounded>, dt_ms: u32)
    requires
        old(velocity).bounded(CLAMP_LIMIT as int),
        cap.wf(),
        (acceleration matches Some(a) ==> a.wf()),
        dt_ms <= DT_LIMIT_MS,
    ensures
        ({
            let airborne = (grounded matches Some(g) && !g.grounded);
            match acceleration {
                Some(a) => {
                    let by = div_trunc(deaccel_rate(*a, airborne) * dt_ms, 1000);
                    &&& final(velocity).x == clamp_shift_spec(old(velocity).x as int,
                        -cap.x as int, cap.x as int, by)
                    &&& final(velocity).y == clamp_shift_spec(old(velocity).y as int,
                        -cap.y as int, cap.y as int, by)
                },
                None => {
                    &&& final(velocity).x == (if old(velocity).x > cap.x { cap.x as int }
                        else if old(velocity).x < -cap.x { -cap.x as int }
                        else { old(velocity).x as int })
                    &&& final(velocity).y == (if old(velocity).y > cap.y { cap.y as int }
                        else if old(velocity).y < -cap.y { -cap.y as int }
                        else { old(velocity).y as int })
                },
            }
        }),
        final(velocity).bounded(CLAMP_LIMIT as int),
{
    match acceleration {
        Some(accel) => {
            let airborne: bool = match grounded {
                Some(g) => !g.grounded,
                None => false,
            };
            let rate: i64 = if airborne {
                match accel.air_deaccel {
                    Some(ad) => ad,
                    None => accel.deaccel,
                }
            } else {
                accel.deaccel
            };
            proof {
                assert(0 <= rate * dt_ms <= 60_000_000_000_000) by (nonlinear_arith)
                    requires
                        0 <= rate <= 1_000_000_000,
                        0 <= dt_ms <= 60_000;
                assert(0 <= div_trunc(rate * dt_ms as i64, 1000) <= rate * dt_ms)
                    by (nonlinear_arith)
                    requires 0 <= rate * dt_ms;
            }
            let by: i64 = div_trunc_i64(rate * (dt_ms as i64), 1000);
            velocity.x = clamp_shift(velocity.x, -cap.x, cap.x, by);
            velocity.y = clamp_shift(velocity.y, -cap.y, cap.y, by);
        },
        None => {
            if velocity.x > cap.x {
                velocity.x = cap.x;
            } else if velocity.x < -cap.x {
                velocity.x = -cap.x;
            }
            if velocity.y > cap.y {
                velocity.y = cap.y;
            } else if velocity.y < -cap.y {
                velocity.y = -cap.y;
            }
        },
    }
}

/// The velocity change one tick of acceleration produces: the axis (in
/// thousandths of full) times the rate times the tick.
pub open spec fn accel_step(axis: int, accel: int, dt_ms: int) -> int {
    div_trunc(axis * accel * dt_ms, 1_000_000)
}

/// The one-axis decay toward zero when there is no movement intent: speed
/// drops by `deaccel` per second, never crossing zero.
pub open spec fn decay_toward_zero(v: int, step: int) -> int {
    if v > 0 {
        if v - step >= 0 { v - step } else { 0 }
    } else if v < 0 {
        if v + step <= 0 { v + step } else { 0 }
    } else {
        0
    }
}

/// Integrate horizontal movement intent: with intent, accelerate along it;
/// without, decay the horizontal speed toward zero by the deceleration
/// rate, never overshooting.
pub fn apply_movespeed(move_dir: &MoveDir, accel: &Accel, velocity: &mut Vec2i, dt_ms: u32)
    requires
        move_dir.wf(),
        accel.wf(),
        old(velocity).bounded(VEL_LIMIT as int),
        dt_ms <= DT_LIMIT_MS,
    ensures
        final(velocity).y == old(velocity).y,
        move_dir.0 != 0 ==> final(velocity).x == old(velocity).x
            + accel_step(move_dir.0 as int, accel.accel as int, dt_ms as int),
        move_dir.0 == 0 ==> final(velocity).x == decay_toward_zero(old(velocity).x as int,
            div_trunc(accel.deaccel * dt_ms, 1000)),
        old(velocity).x - 60_000_000_000 <= final(velocity).x
            <= old(velocity).x + 60_000_000_000,
        final(velocity).bounded(VEL_LIMIT as int + 60_000_000_000),
{
    if move_dir.0 != 0 {
        proof {
            lemma_accel_step_bounded(move_dir.0 as int, accel.accel as int, dt_ms as int);
        }
        let step: i64 = div_trunc_i64(move_dir.0 * accel.accel * (dt_ms as i64), 1_000_000);
        velocity.x = velocity.x + step;
    } else {
        let step: i64 = decay_step(accel.deaccel, dt_ms);
        velocity.x = decay_axis(velocity.x, step);
    }
}

/// Integrate planar movement intent for free movers: with intent,
/// accelerate along both axes; without, decay both axes toward zero.
pub fn apply_full_movespeed(move_dir: &FullMoveDir, accel: &Accel, velocity: &mut Vec2i,
    dt_ms: u32)
    requires
        move_dir.wf(),
        accel.wf(),
        old(velocity).bounded(VEL_LIMIT as int),
        dt_ms <= DT_LIMIT_MS,
    ensures
        !(move_dir.0.x == 0 && move_dir.0.y == 0) ==> {
            &&& final(velocity).x == old(velocity).x
                + accel_step(move_dir.0.x as int, accel.accel as int, dt_ms as int)
            &&& final(velocity).y == old(velocity).y
                + accel_step(move_dir.0.y as int, accel.accel as int, dt_ms as int)
        },
        (move_dir.0.x == 0 && move_dir.0.y == 0) ==> {
            let step = div_trunc(accel.deaccel * dt_ms, 1000);
            &&& final(velocity).x == decay_toward_zero(old(velocity).x as int, step)
            &&& final(velocity).y == decay_toward_zero(old(velocity).y as int, step)
        },
        final(velocity).bounded(VEL_LIMIT as int + 60_000_000_000),
{
    if !(move_dir.0.x == 0 && move_dir.0.y == 0) {
        proof {
            lemma_accel_step_bounded(move_dir.0.x as int, accel.accel as int, dt_ms as int);
            lemma_accel_step_bounded(move_dir.0.y as int, accel.accel as int, dt_ms as int);
        }
        let step_x: i64 = div_trunc_i64(move_dir.0.x * accel.accel * (dt_ms as i64),
            1_000_000);
        let step_y: i64 = div_trunc_i64(move_dir.0.y * accel.accel * (dt_ms as i64),
            1_000_000);
        velocity.x = velocity.x + step_x;
        velocity.y = velocity.y + step_y;
    } else {
        let step: i64 = decay_step(accel.deaccel, dt_ms);
        velocity.x = decay_axis(velocity.x, step);
        velocity.y = decay_axis(velocity.y, step);
    }
}

/// One tick's worth of deceleration, in thousandths of a unit per second.
fn decay_step(deaccel: i64, dt_ms: u32) -> (r: i64)
    requires
        0 <= deaccel <= KINEMATIC_LIMIT,
        dt_ms <= DT_LIMIT_MS,
    ensures
        r == div_trunc(deaccel * dt_ms, 1000),
        0 <= r <= 60_000_000_000,
{
    proof {
        assert(0 <= deaccel * dt_ms <= 60_000_000_000_000) by (nonlinear_arith)
            requires
                0 <= deaccel <= 1_000_000_000,
                0 <= dt_ms <= 60_000;
        assert(0 <= div_trunc(deaccel * dt_ms, 1000) <= deaccel * dt_ms)
            by (nonlinear_arith)
            requires 0 <= deaccel * dt_ms;
        assert(div_trunc(deaccel * dt_ms, 1000) <= 60_000_000_000) by (nonlinear_arith)
            requires 0 <= deaccel * dt_ms <= 60_000_000_000_000;
    }
    div_trunc_i64(deaccel * (dt_ms as i64), 1000)
}

/// Decay one velocity axis toward zero by `step`, never crossing zero.
fn decay_axis(v: i64, step: i64) -> (r: i64)
    requires
        0 <= step,
        -VEL_LIMIT - 60_000_000_000 <= v <= VEL_LIMIT + 60_000_000_000,
        step <= 60_000_000_000,
    ensures
        r == decay_toward_zero(v as int, step as int),
{
    if v > 0 {
        if v - step >= 0 {
            v - step
        } else {
            0
        }
    } else if v < 0 {
        if v + step <= 0 {
            v + step
        } else {
            0
        }
    } else {
        0
    }
}

/// No entity appears twice in a contact list.
pub open spec fn no_dups_seq(s: Seq<Entity>) -> bool {
    forall|i: int, j: int| 0 <= i < j < s.len() ==> s[i] != s[j]
}

/// The direction a contact pushed against the entity, as the engine
/// reports it.
#[derive(Clone, Copy, Debug, PartialEq, Eq, Structural)]
pub enum ContactNormal {
    Down,
    Left,
    Right,
    Other,
}

/// A contact change the engine reports about one entity: another body
/// began or stopped touching it.
#[derive(Clone, Copy, Debug)]
pub enum CollisionEvent {
    Started { other: Entity, normal: ContactNormal },
    Stopped { other: Entity },
}

/// Emitted once each time an entity becomes grounded; consumed to refill
/// jump charges.
#[derive(Clone, Copy, Debug)]
pub struct GroundedEvent(pub Entity);

/// Ground contact state: the set of bodies currently touching the entity
/// from below, the flag derived from it, and the time spent airborne.
#[derive(Clone, Debug)]
pub struct IsGrounded {
    /// Whether some contact from below is active; always equals the
    /// contact list being non-empty.
    pub grounded: bool,
    /// Milliseconds since last grounded; accumulates while airborne.
    pub time_since_grounded_ms: u32,
    /// The bodies touching the entity from below, without duplicates.
    pub walls_below: Vec<Entity>,
}

impl IsGrounded {
    /// The invariant the collision handler preserves: the flag mirrors the
    /// contact set, and no contact is recorded twice.
    pub open spec fn wf(self) -> bool {
        &&& no_dups_seq(self.walls_below@)
        &&& self.grounded == (self.walls_below@.len() > 0)
    }

    /// The contacts from below, as the set they stand for.
    pub open spec fn contact_set(self) -> Set<Entity> {
        Set::new(|e: Entity| self.walls_below@.contains(e))
    }

    /// Airborne, with no contacts yet.
    pub fn new() -> (r: IsGrounded)
        ensures
            r.wf(),
            !r.grounded,
            r.time_since_grounded_ms == 0,
            r.walls_below@.len() == 0,
    {
        IsGrounded { grounded: false, time_since_grounded_ms: 0, walls_below: Vec::new() }
    }
}

/// Wall contact state: the set of bodies currently touching the entity
/// from the side, and the flag derived from it.
#[derive(Clone, Debug)]
pub struct IsOnWall {
    /// Whether some side contact is active; always equals the contact
    /// list being non-empty.
    pub on_wall: bool,
    /// The bodies touching the entity from the side, without duplicates.
    pub walls_touching: Vec<Entity>,
}

impl IsOnWall {
    /// The flag mirrors the contact set, which holds no duplicates.
    pub open spec fn wf(self) -> bool {
        &&& no_dups_seq(self.walls_touching@)
        &&& self.on_wall == (self.walls_touching@.len() > 0)
    }

    /// The side contacts, as the set they stand for.
    pub open spec fn contact_set(self) -> Set<Entity> {
        Set::new(|e: Entity| self.walls_touching@.contains(e))
    }

    /// Off the wall, with no contacts yet.
    pub fn new() -> (r: IsOnWall)
        ensures
            r.wf(),
            !r.on_wall,
            r.walls_touching@.len() == 0,
    {
        IsOnWall { on_wall: false, walls_touching: Vec::new() }
    }
}

/// Whether `x` occurs in the contact list.
fn contacts_contain(v: &Vec<Entity>, x: Entity) -> (r: bool)
    ensures
        r == v@.contains(x),
{
    let mut j: usize = 0;
    while j < v.len()
        invariant
            j <= v@.len(),
            forall|k: int| 0 <= k < j ==> v@[k] != x,
        decreases v@.len() - j,
    {
        if v[j] == x {
            proof {
                assert(v@.contains(x));
            }
            return true;
        }
        j = j + 1;
    }
    proof {
        assert(forall|k: int| 0 <= k < v@.len() ==> v@[k] != x);
    }
    false
}

/// Add a contact to the list if it is not yet there.  Reports whether the
/// list was empty before.
fn contacts_add(v: &mut Vec<Entity>, x: Entity) -> (was_empty: bool)
    requires
        no_dups_seq(old(v)@),
    ensures
        no_dups_seq(final(v)@),
        final(v)@.contains(x),
        forall|e: Entity| e != x ==> final(v)@.contains(e) == old(v)@.contains(e),
        final(v)@.len() == old(v)@.len() + (if old(v)@.contains(x) { 0int } else { 1 }),
        was_empty == (old(v)@.len() == 0),
{
    let was_empty: bool = v.len() == 0;
    if !contacts_contain(v, x) {
        v.push(x);
        proof {
            assert(v@ == old(v)@.push(x));
            assert(v@[old(v)@.len() as int] == x);
            assert(v@.contains(x));
            assert forall|e: Entity| e != x
                implies v@.contains(e) == old(v)@.contains(e) by {
                if old(v)@.contains(e) {
                    let k = choose|k: int| 0 <= k < old(v)@.len() && old(v)@[k] == e;
                    assert(v@[k] == e);
                }
                if v@.contains(e) {
                    let k = choose|k: int| 0 <= k < v@.len() && v@[k] == e;
                    assert(k < old(v)@.len());
                    assert(old(v)@[k] == e);
                }
            }
        }
    }
    was_empty
}

/// Remove a contact from the list if present.
fn contacts_remove(v: &mut Vec<Entity>, x: Entity)
    requires
        no_dups_seq(old(v)@),
    ensures
        no_dups_seq(final(v)@),
        !final(v)@.contains(x),
        forall|e: Entity| e != x ==> final(v)@.contains(e) == old(v)@.contains(e),
        final(v)@.len() == old(v)@.len() - (if old(v)@.contains(x) { 1int } else { 0 }),
{
    let mut j: usize = 0;
    while j < v.len()
        invariant
            no_dups_seq(v@),
            v@ == old(v)@,
            j <= v@.len(),
            forall|k: int| 0 <= k < j ==> v@[k] != x,
        decreases v@.len() - j,
    {
        if v[j] == x {
            v.swap_remove(j);
            proof {
                lemma_swap_remove_set(old(v)@, v@, j as int);
                assert(old(v)@.contains(x));
            }
            return;
        }
        j = j + 1;
    }
    proof {
        assert(forall|k: int| 0 <= k < v@.len() ==> v@[k] != x);
        assert(!v@.contains(x));
    }
}

/// Removing position `i` by swapping in the last element keeps the list a
/// duplicate-free set and removes exactly the element at `i`.
proof fn lemma_swap_remove_set(pre: Seq<Entity>, post: Seq<Entity>, i: int)
    requires
        0 <= i < pre.len(),
        no_dups_seq(pre),
        post == pre.update(i, pre.last()).drop_last(),
    ensures
        no_dups_seq(post),
        post.len() == pre.len() - 1,
        !post.contains(pre[i]),
        forall|e: Entity| e != pre[i] ==> post.contains(e) == pre.contains(e),
{
    let n = pre.len() as int;
    let x = pre[i];
    assert(forall|k: int| 0 <= k < n - 1
        ==> post[k] == (if k == i { pre[n - 1] } else { pre[k] }));
    assert forall|k: int| 0 <= k < n - 1 implies post[k] != x by {
        if k == i {
            if i < n - 1 {
                assert(pre[i] != pre[n - 1]);
            }
        }
    }
    assert(!post.contains(x));
    assert forall|a: int, b: int| 0 <= a < b < post.len() implies post[a] != post[b] by {
        if a == i {
            assert(post[a] == pre[n - 1] && post[b] == pre[b]);
        } else if b == i {
            assert(post[b] == pre[n - 1] && post[a] == pre[a]);
        }
    }
    assert forall|e: Entity| e != x implies post.contains(e) == pre.contains(e) by {
        if pre.contains(e) {
            let k = choose|k: int| 0 <= k < n && pre[k] == e;
            if k == i {
                assert(e == x);
            } else if k == n - 1 {
                if i < n - 1 {
                    assert(post[i] == e);
                } else {
                    assert(k == i);
                }
            } else {
                assert(post[k] == e);
            }
        }
        if post.contains(e) {
            let k = choose|k: int| 0 <= k < post.len() && post[k] == e;
            if k == i {
                assert(pre[n - 1] == e);
            } else {
                assert(pre[k] == e);
            }
        }
    }
}

/// The grounding invariant: after every collision-event pass, an entity
/// counts as grounded exactly when some contact from below is active.
/// Every function that hands out an `IsGrounded` maintains `wf`, of which
/// this is half.
pub proof fn lemma_grounded_iff_contacts(g: IsGrounded)
    requires
        g.wf(),
    ensures
        g.grounded <==> g.walls_below@.len() > 0,
{
}

/// The jump-budget law: once the charges are spent, no fresh jump can
/// start, whatever the key and however recently the entity was grounded;
/// `apply_jump` then leaves the velocity unchanged.
pub proof fn lemma_no_charges_no_jump(repressed: bool, time_since_grounded_ms: int)
    ensures
        !jump_starts(0, repressed, time_since_grounded_ms),
{
}

/// Feed one collision event into an entity's ground state.  A contact
/// that began pressing from below joins the contact set, grounds the
/// entity and zeroes its airborne clock; a contact that stopped leaves
/// the set, and the entity is airborne once the set empties.  Returns
/// the grounded event exactly when the entity just became grounded.
pub fn check_on_ground(entity: Entity, grounded: &mut IsGrounded, event: &CollisionEvent)
    -> (r: Option<GroundedEvent>)
    requires
        old(grounded).wf(),
    ensures
        final(grounded).wf(),
        ({
            match *event {
                CollisionEvent::Started { other, normal } => {
                    if normal == ContactNormal::Down {
                        &&& final(grounded).walls_below@.contains(other)
                        &&& forall|e: Entity| e != other
                            ==> final(grounded).walls_below@.contains(e)
                                == old(grounded).walls_below@.contains(e)
                        &&& final(grounded).grounded
                        &&& final(grounded).time_since_grounded_ms == 0
                        &&& (r matches Some(ev) ==> ev.0 == entity)
                        &&& (r is Some <==> !old(grounded).grounded)
                    } else {
                        *final(grounded) == *old(grounded) && r is None
                    }
                },
                CollisionEvent::Stopped { other } => {
                    &&& !final(grounded).walls_below@.contains(other)
                    &&& forall|e: Entity| e != other
                        ==> final(grounded).walls_below@.contains(e)
                            == old(grounded).walls_below@.contains(e)
                    &&& final(grounded).time_since_grounded_ms
                        == old(grounded).time_since_grounded_ms
                    &&& r is None
                },
            }
        }),
{
    match event {
        CollisionEvent::Started { other, normal } => {
            if *normal == ContactNormal::Down {
                let was_empty: bool = contacts_add(&mut grounded.walls_below, *other);
                grounded.grounded = true;
                grounded.time_since_grounded_ms = 0;
                if was_empty {
                    Some(GroundedEvent(entity))
                } else {
                    None
                }
            } else {
                None
            }
        },
        CollisionEvent::Stopped { other } => {
            contacts_remove(&mut grounded.walls_below, *other);
            if grounded.walls_below.len() == 0 {
                grounded.grounded = false;
            } else {
                grounded.grounded = true;
            }
            None
        },
    }
}

/// Let the airborne clock accumulate while the entity is not grounded.
pub fn tick_time_since_grounded(grounded: &mut IsGrounded, dt_ms: u32)
    requires
        old(grounded).wf(),
    ensures
        final(grounded).wf(),
        final(grounded).grounded == old(grounded).grounded,
        final(grounded).walls_below == old(grounded).walls_below,
        final(grounded).time_since_grounded_ms == (if old(grounded).grounded {
            old(grounded).time_since_grounded_ms as int
        } else if old(grounded).time_since_grounded_ms + dt_ms <= u32::MAX {
            old(grounded).time_since_grounded_ms + dt_ms
        } else {
            u32::MAX as int
        }),
{
    if !grounded.grounded {
        if dt_ms <= u32::MAX - grounded.time_since_grounded_ms {
            grounded.time_since_grounded_ms = grounded.time_since_grounded_ms + dt_ms;
        } else {
            grounded.time_since_grounded_ms = u32::MAX;
        }
    }
}

/// Feed one collision event into an entity's wall state.  Side contacts
/// join the set; stopped contacts leave it; the flag mirrors the set.
pub fn check_on_wall(on_wall: &mut IsOnWall, event: &CollisionEvent)
    requires
        old(on_wall).wf(),
    ensures
        final(on_wall).wf(),
        ({
            match *event {
                CollisionEvent::Started { other, normal } => {
                    if normal == ContactNormal::Left || normal == ContactNormal::Right {
                        &&& final(on_wall).walls_touching@.contains(other)
                        &&& forall|e: Entity| e != other
                            ==> final(on_wall).walls_touching@.contains(e)
                                == old(on_wall).walls_touching@.contains(e)
                        &&& final(on_wall).on_wall
                    } else {
                        *final(on_wall) == *old(on_wall)
                    }
                },
                CollisionEvent::Stopped { other } => {
                    &&& !final(on_wall).walls_touching@.contains(other)
                    &&& forall|e: Entity| e != other
                        ==> final(on_wall).walls_touching@.contains(e)
                            == old(on_wall).walls_touching@.contains(e)
                },
            }
        }),
{
    match event {
        CollisionEvent::Started { other, normal } => {
            if *normal == ContactNormal::Left || *normal == ContactNormal::Right {
                let _was_empty: bool = contacts_add(&mut on_wall.walls_touching, *other);
                on_wall.on_wall = true;
            }
        },
        CollisionEvent::Stopped { other } => {
            contacts_remove(&mut on_wall.walls_touching, *other);
            if on_wall.walls_touching.len() == 0 {
                on_wall.on_wall = false;
            } else {
                on_wall.on_wall = true;
            }
        },
    }
}

/// The jump state machine: input flags mirrored from the controller, the
/// variable-height jump window, and the double-jump budget.
#[derive(Clone, Copy, Debug)]
pub struct CanJump {
    /// The jump key is held this tick.
    pub jump_pressed: bool,
    /// The jump key went down this tick.
    pub jump_repressed: bool,
    /// A jump is in progress (the charging window is open).
    pub jumping: bool,
    /// The charging window: while it runs and the key is held, the jump
    /// keeps pushing.
    pub jump_timer: Timer,
    /// The push at the start of the charging window.
    pub max_jump_force: i64,
    /// The current push; decays from `max_jump_force` to a fifth of it
    /// over the charging window.
    pub jump_force: i64,
    /// The upward speed set at the instant a jump starts.
    pub initial_jump_force: i64,
    /// Jumps still available before the entity must touch ground again.
    pub jumps_left: u32,
    /// The budget refilled on grounding.
    pub total_jumps: u32,
}

impl Default for CanJump {
    /// The stock jump: a half-second window, a strong decaying push, a
    /// small starting hop, and a single charge.
    fn default() -> (r: Self)
        ensures
            r.wf(),
            !r.jump_pressed,
            !r.jump_repressed,
            !r.jumping,
            r.jump_timer.duration_ms == 500,
            r.jump_timer.elapsed_ms == 0,
            r.max_jump_force == 500_000,
            r.jump_force == 600_000,
            r.initial_jump_force == 130_000,
            r.jumps_left == 1,
            r.total_jumps == 1,
    {
        CanJump {
            jump_pressed: false,
            jump_repressed: false,
            jumping: false,
            jump_timer: Timer::new(500),
            max_jump_force: 500_000,
            jump_force: 600_000,
            initial_jump_force: 130_000,
            jumps_left: 1,
            total_jumps: 1,
        }
    }
}

impl CanJump {
    /// Well-formedness: a sound clock, forces within the configuration
    /// bound, a budget within its total, and a charge held while jumping.
    pub open spec fn wf(self) -> bool {
        &&& self.jump_timer.wf()
        &&& 0 <= self.max_jump_force <= KINEMATIC_LIMIT
        &&& 0 <= self.jump_force <= KINEMATIC_LIMIT
        &&& 0 <= self.initial_jump_force <= KINEMATIC_LIMIT
        &&& self.jumps_left <= self.total_jumps
        &&& self.jumping ==> self.jumps_left >= 1
    }

    /// A jump configuration: window length in milliseconds, the decaying
    /// push, and the starting speed.
    pub fn new(jump_time_ms: u32, jump_force: i64, initial_jump_force: i64) -> (r: CanJump)
        requires
            1 <= jump_time_ms,
            0 <= jump_force <= KINEMATIC_LIMIT,
            0 <= initial_jump_force <= KINEMATIC_LIMIT,
        ensures
            r.wf(),
            !r.jump_pressed,
            !r.jump_repressed,
            !r.jumping,
            r.jump_timer.duration_ms == jump_time_ms,
            r.jump_timer.elapsed_ms == 0,
            r.max_jump_force == jump_force,
            r.jump_force == jump_force,
            r.initial_jump_force == initial_jump_force,
            r.jumps_left == 1,
            r.total_jumps == 1,
    {
        CanJump {
            jump_pressed: false,
            jump_repressed: false,
            jumping: false,
            jump_timer: Timer::new(jump_time_ms),
            max_jump_force: jump_force,
            jump_force,
            initial_jump_force,
            jumps_left: 1,
            total_jumps: 1,
        }
    }
}

/// Whether a fresh jump starts this tick once no jump is in progress:
/// charges remain, the key just went down, and the entity left the ground
/// only within the grace window.
pub open spec fn jump_starts(jumps_left: int, repressed: bool, time_since_grounded_ms: int)
    -> bool {
    jumps_left > 0 && repressed && time_since_grounded_ms < GROUNDED_GRACE_MS
}

/// One tick of the jump state machine, mirroring its three states.
/// While charging (jumping, key held, window open) the decaying push
/// accumulates into the vertical speed.  On release or expiry the jump
/// ends and spends one charge.  When no jump is in progress, a fresh one
/// may start, snapping the vertical speed to the initial force.  A start
/// attempt without charges changes nothing.
pub fn apply_jump(can_jump: &mut CanJump, velocity: &mut Vec2i, grounded: &IsGrounded,
    dt_ms: u32)
    requires
        old(can_jump).wf(),
        old(velocity).bounded(VEL_LIMIT as int),
        dt_ms <= DT_LIMIT_MS,
    ensures
        final(can_jump).wf(),
        final(velocity).x == old(velocity).x,
        final(velocity).bounded(VEL_LIMIT as int + 60_000_000_000),
        (old(velocity).y - 60_000_000_000 <= final(velocity).y
            <= old(velocity).y + 60_000_000_000)
            || -KINEMATIC_LIMIT <= final(velocity).y <= KINEMATIC_LIMIT,
        final(can_jump).jump_pressed == old(can_jump).jump_pressed,
        final(can_jump).jump_repressed == old(can_jump).jump_repressed,
        final(can_jump).max_jump_force == old(can_jump).max_jump_force,
        final(can_jump).initial_jump_force == old(can_jump).initial_jump_force,
        final(can_jump).total_jumps == old(can_jump).total_jumps,
        final(can_jump).jump_timer.duration_ms == old(can_jump).jump_timer.duration_ms,
        ({
            let j = *old(can_jump);
            let charging = j.jumping && j.jump_pressed
                && j.jump_timer.elapsed_ms < j.jump_timer.duration_ms;
            let releasing = j.jumping && !charging;
            &&& charging ==> {
                &&& final(velocity).y == old(velocity).y
                    + div_trunc(j.jump_force * dt_ms, 1000)
                &&& final(can_jump).jumping
                &&& final(can_jump).jumps_left == j.jumps_left
                &&& final(can_jump).jump_force == lerp_spec(j.max_jump_force as int,
                    div_trunc(j.max_jump_force as int, 5),
                    j.jump_timer.elapsed_ms as int * 1000 / j.jump_timer.duration_ms as int)
                &&& final(can_jump).jump_timer.elapsed_ms
                    == (if j.jump_timer.elapsed_ms + dt_ms >= j.jump_timer.duration_ms {
                        j.jump_timer.duration_ms as int
                    } else {
                        j.jump_timer.elapsed_ms + dt_ms
                    })
            }
            &&& releasing ==> {
                let started = jump_starts(j.jumps_left - 1, j.jump_repressed,
                    grounded.time_since_grounded_ms as int);
                &&& final(can_jump).jumps_left == j.jumps_left - 1
                &&& final(can_jump).jump_force == j.max_jump_force
                &&& final(can_jump).jumping == started
                &&& started ==> final(can_jump).jump_timer.elapsed_ms == 0
                    && final(velocity).y == j.initial_jump_force
                &&& !started ==> final(can_jump).jump_timer.elapsed_ms
                    == j.jump_timer.elapsed_ms && final(velocity).y == old(velocity).y
            }
            &&& !j.jumping ==> {
                let started = jump_starts(j.jumps_left as int, j.jump_repressed,
                    grounded.time_since_grounded_ms as int);
                &&& final(can_jump).jumps_left == j.jumps_left
                &&& final(can_jump).jump_force == j.jump_force
                &&& final(can_jump).jumping == started
                &&& started ==> final(can_jump).jump_timer.elapsed_ms == 0
                    && final(velocity).y == j.initial_jump_force
                &&& !started ==> final(can_jump).jump_timer.elapsed_ms
                    == j.jump_timer.elapsed_ms && final(velocity).y == old(velocity).y
            }
        }),
{
    if can_jump.jumping && can_jump.jump_pressed && !can_jump.jump_timer.finished() {
        proof {
            assert(0 <= can_jump.jump_force * dt_ms <= 60_000_000_000_000)
                by (nonlinear_arith)
                requires
                    0 <= can_jump.jump_force <= 1_000_000_000,
                    0 <= dt_ms <= 60_000;
            assert(0 <= div_trunc(can_jump.jump_force * dt_ms, 1000)
                <= 60_000_000_000) by (nonlinear_arith)
                requires 0 <= can_jump.jump_force * dt_ms <= 60_000_000_000_000;
        }
        let push: i64 = div_trunc_i64(can_jump.jump_force * (dt_ms as i64), 1000);
        velocity.y = velocity.y + push;
        let floor: i64 = div_trunc_i64(can_jump.max_jump_force, 5);
        proof {
            assert(0 <= div_trunc(can_jump.max_jump_force as int, 5)
                <= can_jump.max_jump_force) by (nonlinear_arith)
                requires 0 <= can_jump.max_jump_force;
        }
        let pct: u32 = can_jump.jump_timer.percent_milli();
        can_jump.jump_force = lerp(can_jump.max_jump_force, floor, pct);
    } else if can_jump.jumping && (!can_jump.jump_pressed || can_jump.jump_timer.finished()) {
        can_jump.jumping = false;
        can_jump.jumps_left = can_jump.jumps_left - 1;
        can_jump.jump_force = can_jump.max_jump_force;
    }

    if can_jump.jumping {
        can_jump.jump_timer.tick(dt_ms);
    }

    if !can_jump.jumping && can_jump.jumps_left > 0 && can_jump.jump_repressed
        && grounded.time_since_grounded_ms < GROUNDED_GRACE_MS {
        can_jump.jumping = true;
        can_jump.jump_timer.reset();
        velocity.y = can_jump.initial_jump_force;
    }
}

/// Refill the jump budget; called when the entity's grounded event is
/// consumed.
pub fn reset_jump(can_jump: &mut CanJump)
    requires
        old(can_jump).wf(),
    ensures
        final(can_jump).wf(),
        *final(can_jump) == (CanJump {
            jumps_left: old(can_jump).total_jumps,
            ..*old(can_jump)
        }),
{
    can_jump.jumps_left = can_jump.total_jumps;
}

/// A request to the engine to override an entity's gravity scale once,
/// in thousandths (a thousand is normal gravity), optionally zeroing the
/// velocity at the same time.
#[derive(Clone, Copy, Debug)]
pub struct SetGravityScale {
    pub scale_milli: u32,
    pub reset_velocity: bool,
}

impl Default for SetGravityScale {
    /// Normal gravity, leaving the velocity alone.
    fn default() -> (r: Self)
        ensures
            r.scale_milli == 1000,
            !r.reset_velocity,
    {
        SetGravityScale { scale_milli: 1000, reset_velocity: false }
    }
}

/// The velocity side of applying a gravity override: zero the velocity
/// when the override asks for it.  The scale itself is the engine's to
/// apply.
pub fn set_gravity_scale(scale: &SetGravityScale, velocity: &mut Vec2i)
    ensures
        scale.reset_velocity ==> final(velocity).x == 0 && final(velocity).y == 0,
        !scale.reset_velocity ==> *final(velocity) == *old(velocity),
{
    if scale.reset_velocity {
        velocity.x = 0;
        velocity.y = 0;
    }
}

/// A tick of acceleration moves a velocity axis by at most sixty billion
/// thousandths of a unit per second.
proof fn lemma_accel_step_bounded(axis: int, accel: int, dt_ms: int)
    requires
        -1000 <= axis <= 1000,
        0 <= accel <= KINEMATIC_LIMIT,
        0 <= dt_ms <= DT_LIMIT_MS,
    ensures
        -1_000_000_000_000 <= axis * accel <= 1_000_000_000_000,
        -60_000_000_000_000_000 <= axis * accel * dt_ms <= 60_000_000_000_000_000,
        -60_000_000_000 <= accel_step(axis, accel, dt_ms) <= 60_000_000_000,
{
    assert(-1_000_000_000_000 <= axis * accel <= 1_000_000_000_000) by (nonlinear_arith)
        requires
            -1000 <= axis <= 1000,
            0 <= accel <= 1_000_000_000;
    assert(-60_000_000_000_000_000 <= axis * accel * dt_ms <= 60_000_000_000_000_000)
        by (nonlinear_arith)
        requires
            -1000 <= axis <= 1000,
            0 <= accel <= 1_000_000_000,
            0 <= dt_ms <= 60_000;
    assert(-60_000_000_000 <= div_trunc(axis * accel * dt_ms, 1_000_000) <= 60_000_000_000)
        by (nonlinear_arith)
        requires -60_000_000_000_000_000 <= axis * accel * dt_ms <= 60_000_000_000_000_000;
}

} // verus!
