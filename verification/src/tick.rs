//! One whole simulation tick for the player, composed from the verified
//! systems in the canonical order of the dependency list: collision
//! events, cling, input, movement, grounding clock, animation selection
//! and playback, fling completion, and the invincibility window.  The
//! composition proves that every per-entity invariant — grounding flag
//! against contact set, frame index against threshold list, jump budget,
//! cling shape — survives a full tick, whatever the inputs and events.

use vstd::prelude::*;
use crate::Entity;
use crate::animation::{animate_spritesheet, set_sprite_auto, AnimationFinishedEvent,
    AnimationType, AutoAnimation, SpriteSheetAnimation};
use crate::health::{do_iframes, resolve_entity_death, EntityDiedEvent, Health};
use crate::movement::{apply_jump, apply_movespeed, cap_velocity, check_on_ground,
    check_on_wall, reset_jump, tick_time_since_grounded, Accel, CanJump, CollisionEvent,
    ContactNormal, GroundedEvent, IsGrounded, IsOnWall, MaxVelocity, MoveDir,
    SetGravityScale};
use crate::player::{player_cling_cooldown, player_jump, player_move, player_sprint,
    player_wall_cling, player_wall_fling, PlayerSprint, PlayerWallCling};
use crate::tools::{CLAMP_LIMIT, DT_LIMIT_MS, KINEMATIC_LIMIT};
use crate::vec2::Vec2i;

verus! {

/// Everything the tick reads and writes about the player.
#[derive(Clone, Debug)]
pub struct PlayerState {
    pub velocity: Vec2i,
    pub move_dir: MoveDir,
    pub max_velocity: MaxVelocity,
    pub acceleration: Accel,
    pub grounded: IsGrounded,
    pub on_wall: IsOnWall,
    pub can_jump: CanJump,
    pub cling: PlayerWallCling,
    pub auto_anim: AutoAnimation,
    pub sprint: PlayerSprint,
    pub animation: SpriteSheetAnimation,
    pub health: Health,
}

impl PlayerState {
    /// Every component's invariant at once.  The velocity's machine bound
    /// is stated separately, since a tick may briefly push past the caps.
    pub open spec fn wf(self) -> bool {
        &&& self.move_dir.wf()
        &&& self.max_velocity.wf()
        &&& self.acceleration.wf()
        &&& self.grounded.wf()
        &&& self.on_wall.wf()
        &&& self.can_jump.wf()
        &&& self.cling.wf()
        &&& self.sprint.wf()
        &&& self.animation.wf()
        &&& self.health.wf()
    }
}

/// The player's keys, sampled once per tick.
#[derive(Clone, Copy, Debug, Default)]
pub struct TickInput {
    pub left: bool,
    pub right: bool,
    pub up: bool,
    pub jump_held: bool,
    pub jump_just_pressed: bool,
    pub cling_held: bool,
    pub sprint_held: bool,
}

/// What a tick hands back to the engine adapter: one-shot gravity
/// overrides to apply, events to queue, and the frame to draw.
#[derive(Clone, Copy, Debug)]
pub struct TickOutput {
    /// Gravity override raised by the cling controller, if any.
    pub gravity_cling: Option<SetGravityScale>,
    /// Gravity override raised by a completed fling, if any.
    pub gravity_fling: Option<SetGravityScale>,
    /// The entity became grounded this tick.
    pub grounded_event: Option<GroundedEvent>,
    /// The shown clip ran out this tick.
    pub finished: Option<AnimationFinishedEvent>,
    /// The sprite frame to draw.
    pub frame: usize,
    /// The entity's health stands at zero or less.
    pub died: Option<EntityDiedEvent>,
}

/// Whether an event is a new contact pressing from below: the kind of
/// event that grounds the entity and zeroes its airborne clock.
pub open spec fn is_ground_start(ev: CollisionEvent) -> bool {
    ev matches CollisionEvent::Started { other, normal } && normal == ContactNormal::Down
}

/// What one collision event does to the set of contacts from below.
pub open spec fn ground_contact_step(s: Set<Entity>, ev: CollisionEvent) -> Set<Entity> {
    match ev {
        CollisionEvent::Started { other, normal } => if normal == ContactNormal::Down {
            s.insert(other)
        } else {
            s
        },
        CollisionEvent::Stopped { other } => s.remove(other),
    }
}

/// The set of contacts from below after a tick's worth of events.
pub open spec fn ground_contact_fold(s: Set<Entity>, events: Seq<CollisionEvent>)
    -> Set<Entity>
    decreases events.len(),
{
    if events.len() == 0 {
        s
    } else {
        ground_contact_fold(ground_contact_step(s, events[0]), events.drop_first())
    }
}

/// What one collision event does to the set of side contacts.
pub open spec fn wall_contact_step(s: Set<Entity>, ev: CollisionEvent) -> Set<Entity> {
    match ev {
        CollisionEvent::Started { other, normal } => if normal == ContactNormal::Left
            || normal == ContactNormal::Right {
            s.insert(other)
        } else {
            s
        },
        CollisionEvent::Stopped { other } => s.remove(other),
    }
}

/// The set of side contacts after a tick's worth of events.
pub open spec fn wall_contact_fold(s: Set<Entity>, events: Seq<CollisionEvent>) -> Set<Entity>
    decreases events.len(),
{
    if events.len() == 0 {
        s
    } else {
        wall_contact_fold(wall_contact_step(s, events[0]), events.drop_first())
    }
}

/// Folding one more event at the end is one more step on the fold.
proof fn lemma_ground_fold_snoc(s: Set<Entity>, events: Seq<CollisionEvent>,
    ev: CollisionEvent)
    ensures
        ground_contact_fold(s, events.push(ev))
            == ground_contact_step(ground_contact_fold(s, events), ev),
    decreases events.len(),
{
    if events.len() == 0 {
        assert(events.push(ev)[0] == ev);
        assert(events.push(ev).drop_first() =~= events);
        assert(ground_contact_fold(s, events.push(ev))
            == ground_contact_fold(ground_contact_step(s, ev), events));
    } else {
        assert(events.push(ev)[0] == events[0]);
        assert(events.push(ev).drop_first() =~= events.drop_first().push(ev));
        lemma_ground_fold_snoc(ground_contact_step(s, events[0]), events.drop_first(), ev);
        assert(ground_contact_fold(s, events.push(ev))
            == ground_contact_fold(ground_contact_step(s, events[0]),
                events.drop_first().push(ev)));
    }
}

/// Folding one more event at the end is one more step on the fold.
proof fn lemma_wall_fold_snoc(s: Set<Entity>, events: Seq<CollisionEvent>, ev: CollisionEvent)
    ensures
        wall_contact_fold(s, events.push(ev))
            == wall_contact_step(wall_contact_fold(s, events), ev),
    decreases events.len(),
{
    if events.len() == 0 {
        assert(events.push(ev)[0] == ev);
        assert(events.push(ev).drop_first() =~= events);
        assert(wall_contact_fold(s, events.push(ev))
            == wall_contact_fold(wall_contact_step(s, ev), events));
    } else {
        assert(events.push(ev)[0] == events[0]);
        assert(events.push(ev).drop_first() =~= events.drop_first().push(ev));
        lemma_wall_fold_snoc(wall_contact_step(s, events[0]), events.drop_first(), ev);
        assert(wall_contact_fold(s, events.push(ev))
            == wall_contact_fold(wall_contact_step(s, events[0]),
                events.drop_first().push(ev)));
    }
}

/// Feed one tick's collision events through the grounding and wall
/// trackers, in order, refilling the jump budget the moment the entity
/// grounds.  The resulting contact sets are exactly the fold of the
/// events over the starting sets, the airborne clock is zeroed by any
/// contact from below, and the grounded event comes out entity-tagged.
pub fn process_collision_events(entity: Entity, grounded: &mut IsGrounded,
    on_wall: &mut IsOnWall, can_jump: &mut CanJump, events: &Vec<CollisionEvent>)
    -> (r: Option<GroundedEvent>)
    requires
        old(grounded).wf(),
        old(on_wall).wf(),
        old(can_jump).wf(),
    ensures
        final(grounded).wf(),
        final(on_wall).wf(),
        final(can_jump).wf(),
        final(grounded).contact_set()
            == ground_contact_fold(old(grounded).contact_set(), events@),
        final(on_wall).contact_set()
            == wall_contact_fold(old(on_wall).contact_set(), events@),
        final(grounded).time_since_grounded_ms == (if exists|k: int| 0 <= k < events@.len()
            && #[trigger] is_ground_start(events@[k]) { 0int } else {
            old(grounded).time_since_grounded_ms as int
        }),
        *final(can_jump) == (CanJump {
            jumps_left: final(can_jump).jumps_left,
            ..*old(can_jump)
        }),
        (r matches Some(ev) ==> ev.0 == entity),
{
    let ghost start_ground_set = old(grounded).contact_set();
    let ghost start_wall_set = old(on_wall).contact_set();
    let ghost mut saw_start: bool = false;
    let mut grounded_event: Option<GroundedEvent> = None;
    let mut i: usize = 0;
    proof {
        assert(events@.subrange(0, 0) =~= Seq::<CollisionEvent>::empty());
    }
    while i < events.len()
        invariant
            grounded.wf(),
            on_wall.wf(),
            can_jump.wf(),
            i <= events@.len(),
            start_ground_set == old(grounded).contact_set(),
            start_wall_set == old(on_wall).contact_set(),
            grounded.contact_set()
                == ground_contact_fold(start_ground_set, events@.subrange(0, i as int)),
            on_wall.contact_set()
                == wall_contact_fold(start_wall_set, events@.subrange(0, i as int)),
            saw_start == exists|k: int| 0 <= k < i
                && #[trigger] is_ground_start(events@[k]),
            grounded.time_since_grounded_ms == (if saw_start { 0int } else {
                old(grounded).time_since_grounded_ms as int
            }),
            *can_jump == (CanJump { jumps_left: can_jump.jumps_left, ..*old(can_jump) }),
            (grounded_event matches Some(ev) ==> ev.0 == entity),
        decreases events@.len() - i,
    {
        let event: CollisionEvent = events[i];
        let ghost prev_ground = grounded.contact_set();
        let ghost prev_wall = on_wall.contact_set();
        let newly_grounded = check_on_ground(entity, grounded, &event);
        if let Some(ev) = newly_grounded {
            reset_jump(can_jump);
            grounded_event = Some(ev);
        }
        check_on_wall(on_wall, &event);
        proof {
            assert(events@.subrange(0, i + 1)
                =~= events@.subrange(0, i as int).push(event));
            lemma_ground_fold_snoc(start_ground_set, events@.subrange(0, i as int), event);
            lemma_wall_fold_snoc(start_wall_set, events@.subrange(0, i as int), event);
            assert(grounded.contact_set() =~= ground_contact_step(prev_ground, event));
            assert(on_wall.contact_set() =~= wall_contact_step(prev_wall, event));
            if is_ground_start(event) {
                saw_start = true;
                assert(is_ground_start(events@[i as int]));
            }
        }
        i = i + 1;
    }
    proof {
        assert(events@.subrange(0, events@.len() as int) =~= events@);
    }
    grounded_event
}

/// Run one tick of the player's systems in the canonical order.  The
/// engine adapter supplies the tick's collision events (already filtered
/// to this entity) and key states, applies the returned gravity
/// overrides and frame, and queues the returned events.
///
/// Beyond preserving every invariant, the contract ties the final state
/// to the tick's work: the contact sets are the fold of the events over
/// the starting sets; the airborne clock is zeroed by a contact from
/// below and accumulates only while airborne; the jump keys are
/// mirrored; the ground speed cap follows the sprint rule; the clip set
/// is unchanged as a set; and the returned frame is the one the final
/// shown clip stands on.
#[verifier::rlimit(100)]
pub fn player_tick(entity: Entity, state: &mut PlayerState, events: &Vec<CollisionEvent>,
    input: &TickInput, dt_ms: u32) -> (out: TickOutput)
    requires
        old(state).wf(),
        old(state).velocity.bounded(KINEMATIC_LIMIT as int),
        dt_ms <= DT_LIMIT_MS,
    ensures
        final(state).wf(),
        final(state).velocity.bounded(CLAMP_LIMIT as int),
        final(state).grounded.contact_set()
            == ground_contact_fold(old(state).grounded.contact_set(), events@),
        final(state).on_wall.contact_set()
            == wall_contact_fold(old(state).on_wall.contact_set(), events@),
        ({
            let saw_start = exists|k: int| 0 <= k < events@.len()
                && #[trigger] is_ground_start(events@[k]);
            let after_events = if saw_start { 0int } else {
                old(state).grounded.time_since_grounded_ms as int
            };
            final(state).grounded.time_since_grounded_ms
                == (if final(state).grounded.grounded { after_events } else if after_events
                    + dt_ms <= u32::MAX { after_events + dt_ms } else { u32::MAX as int })
        }),
        final(state).can_jump.jump_pressed == input.jump_held,
        final(state).can_jump.jump_repressed == input.jump_just_pressed,
        final(state).max_velocity.y == old(state).max_velocity.y,
        final(state).max_velocity.x == (if input.sprint_held && final(state).grounded.grounded
            && old(state).sprint.can_sprint { old(state).sprint.sprint_speed } else {
            old(state).sprint.normal_speed
        }),
        forall|t: AnimationType| #[trigger] final(state).animation.has_id(t)
            == old(state).animation.has_id(t),
        out.frame == final(state).animation.clip_of(
            final(state).animation.current_animation).current_frame,
        (out.grounded_event matches Some(ev) ==> ev.0 == entity),
        (out.finished matches Some(ev) ==> ev.entity == entity
            && ev.animation_type == final(state).animation.current_animation),
        out.finished is Some ==> final(state).animation.clip_of(
            final(state).animation.current_animation).current_frame == 0,
        (out.died matches Some(ev) ==> ev.0 == entity),
        out.died is Some <==> final(state).health.current_health <= 0,
        final(state).health.current_health == old(state).health.current_health,
        final(state).sprint == old(state).sprint,
        final(state).acceleration == old(state).acceleration,
        final(state).cling.can_cling == old(state).cling.can_cling,
        final(state).cling.fling_speed == old(state).cling.fling_speed,
{
    // Collision events drive grounding and wall contact before anything
    // reads them; a grounding refills the jump budget at once.
    let grounded_event = process_collision_events(entity, &mut state.grounded,
        &mut state.on_wall, &mut state.can_jump, events);

    // The cling controller runs before movement input, so a hang can
    // withhold the axis; its clip request is applied right away.
    player_cling_cooldown(&mut state.cling, dt_ms);
    let cling_update = player_wall_cling(entity, &state.on_wall, &state.grounded,
        &mut state.cling, &mut state.velocity, &mut state.auto_anim, input.cling_held,
        input.right, input.left, input.up);
    if let Some(ev) = cling_update.animation {
        state.animation.change_animation(&ev);
    }

    // Input mirrors into intent, then movement integrates and caps.
    player_move(&mut state.move_dir, &state.cling, input.left, input.right);
    player_jump(&mut state.can_jump, input.jump_held, input.jump_just_pressed);
    player_sprint(&mut state.max_velocity, &state.sprint, &state.grounded, input.sprint_held);
    apply_movespeed(&state.move_dir, &state.acceleration, &mut state.velocity, dt_ms);
    apply_jump(&mut state.can_jump, &mut state.velocity, &state.grounded, dt_ms);
    cap_velocity(&mut state.velocity, &state.max_velocity, Some(&state.acceleration),
        Some(&state.grounded), dt_ms);
    tick_time_since_grounded(&mut state.grounded, dt_ms);

    // Clip selection applies before playback advances; the fling
    // controller consumes the finished event playback emits.
    let auto_request = set_sprite_auto(entity, &state.auto_anim, state.velocity,
        Some(state.grounded.grounded));
    if let Some(ev) = auto_request {
        state.animation.change_animation(&ev);
    }
    let (finished, frame) = animate_spritesheet(entity, &mut state.animation, dt_ms);
    let mut gravity_fling: Option<SetGravityScale> = None;
    if let Some(ev) = &finished {
        gravity_fling = player_wall_fling(entity, &state.on_wall, &mut state.cling,
            &mut state.velocity, &mut state.auto_anim, ev);
    }

    // The invincibility window runs out on its own; queued health
    // changes are the damage pass's business, between ticks.
    do_iframes(&mut state.health, dt_ms);
    let died = resolve_entity_death(entity, &state.health);

    TickOutput {
        gravity_cling: cling_update.gravity,
        gravity_fling,
        grounded_event,
        finished,
        frame,
        died,
    }
}

} // verus!
