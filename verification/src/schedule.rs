//! The per-tick system order as an explicit, checkable property: the
//! crate names its systems, states the ordering constraints its
//! correctness depends on as a dependency list, and verifies a scheduler
//! configuration against them, instead of leaving the order an accident
//! of registration.

use vstd::prelude::*;

verus! {

/// Collision events feed grounding and wall contact.
pub const SYS_COLLISION: u32 = 1;

/// The wall-cling controller (may withhold movement input).
pub const SYS_CLING: u32 = 2;

/// Input mirrored into movement, jump and weapon intent.
pub const SYS_PLAYER_INPUT: u32 = 3;

/// Velocity integration, the jump machine and the cap.
pub const SYS_MOVEMENT: u32 = 4;

/// Weapon windup and the falling-edge fire decision.
pub const SYS_WEAPON_CHARGE: u32 = 5;

/// Projectile spawn, travel, expiry and impact resolution.
pub const SYS_COMBAT: u32 = 6;

/// Queued health changes and invincibility windows.
pub const SYS_HEALTH: u32 = 7;

/// Clip selection from motion, and applying switch requests.
pub const SYS_ANIMATION_CHANGE: u32 = 8;

/// Clip playback.
pub const SYS_ANIMATION_ADVANCE: u32 = 9;

/// The fling controller, consuming finished-clip events.
pub const SYS_FLING: u32 = 10;

/// One edge of the dependency list: the first system must run before the
/// second within a tick.
#[derive(Clone, Copy, Debug, PartialEq, Eq, Structural)]
pub struct OrderingConstraint {
    pub before: u32,
    pub after: u32,
}

/// No system appears twice in a run order.
pub open spec fn labels_unique(order: Seq<u32>) -> bool {
    forall|i: int, j: int| 0 <= i < j < order.len() ==> order[i] != order[j]
}

/// The position of a system in the order (meaningful when present).
pub open spec fn position_of(order: Seq<u32>, label: u32) -> int {
    choose|i: int| 0 <= i < order.len() && order[i] == label
}

/// Whether a run order satisfies one constraint: both systems run, the
/// first strictly earlier.
pub open spec fn respects(order: Seq<u32>, c: OrderingConstraint) -> bool {
    &&& order.contains(c.before)
    &&& order.contains(c.after)
    &&& position_of(order, c.before) < position_of(order, c.after)
}

/// An entry at position `i` pins down `position_of` in a duplicate-free
/// order.
pub proof fn lemma_position_found(order: Seq<u32>, label: u32, i: int)
    requires
        labels_unique(order),
        0 <= i < order.len(),
        order[i] == label,
    ensures
        order.contains(label),
        position_of(order, label) == i,
{
    assert(order.contains(label));
    let j = position_of(order, label);
    assert(0 <= j < order.len() && order[j] == label);
    if i < j {
        assert(order[i] != order[j]);
    } else if j < i {
        assert(order[j] != order[i]);
    }
}

/// Where a system stands in the run order, if it runs at all.
pub fn find_position(order: &Vec<u32>, label: u32) -> (r: Option<usize>)
    requires
        labels_unique(order@),
    ensures
        (r matches Some(i) ==> 0 <= i < order@.len() && order@[i as int] == label
            && order@.contains(label) && position_of(order@, label) == i),
        r is None ==> !order@.contains(label),
{
    let mut j: usize = 0;
    while j < order.len()
        invariant
            labels_unique(order@),
            j <= order@.len(),
            forall|k: int| 0 <= k < j ==> order@[k] != label,
        decreases order@.len() - j,
    {
        if order[j] == label {
            proof {
                lemma_position_found(order@, label, j as int);
            }
            return Some(j);
        }
        j = j + 1;
    }
    proof {
        assert(forall|k: int| 0 <= k < order@.len() ==> order@[k] != label);
    }
    None
}

/// Check a scheduler configuration against a dependency list: every
/// constrained pair must run, in the constrained order.
pub fn order_respects(order: &Vec<u32>, constraints: &Vec<OrderingConstraint>) -> (r: bool)
    requires
        labels_unique(order@),
    ensures
        r == (forall|k: int| 0 <= k < constraints@.len()
            ==> respects(order@, #[trigger] constraints@[k])),
{
    let mut k: usize = 0;
    while k < constraints.len()
        invariant
            labels_unique(order@),
            k <= constraints@.len(),
            forall|m: int| 0 <= m < k ==> respects(order@, #[trigger] constraints@[m]),
        decreases constraints@.len() - k,
    {
        let c: OrderingConstraint = constraints[k];
        let before = find_position(order, c.before);
        let after = find_position(order, c.after);
        match (before, after) {
            (Some(b), Some(a)) => {
                if b >= a {
                    return false;
                }
            },
            _ => {
                return false;
            },
        }
        k = k + 1;
    }
    true
}

/// The dependency list this crate's correctness rests on, as a
/// specification value: one edge per ordering guarantee.
/// Collision-driven grounding and wall state are read by the cling
/// controller, the input mirror and the movement tick of the same tick;
/// the cling controller may withhold movement input, so it runs first;
/// intent is consumed by movement; the charge edge precedes the spawn
/// pass; combat queues health changes consumed the same tick; clip
/// switches are applied before playback advances; and the fling
/// controller consumes the finished-clip events playback emits.
pub open spec fn spec_tick_ordering_constraints() -> Seq<OrderingConstraint> {
    seq![
        OrderingConstraint { before: SYS_COLLISION, after: SYS_CLING },
        OrderingConstraint { before: SYS_COLLISION, after: SYS_MOVEMENT },
        OrderingConstraint { before: SYS_CLING, after: SYS_PLAYER_INPUT },
        OrderingConstraint { before: SYS_PLAYER_INPUT, after: SYS_MOVEMENT },
        OrderingConstraint { before: SYS_MOVEMENT, after: SYS_ANIMATION_CHANGE },
        OrderingConstraint { before: SYS_WEAPON_CHARGE, after: SYS_COMBAT },
        OrderingConstraint { before: SYS_COMBAT, after: SYS_HEALTH },
        OrderingConstraint { before: SYS_ANIMATION_CHANGE, after: SYS_ANIMATION_ADVANCE },
        OrderingConstraint { before: SYS_ANIMATION_ADVANCE, after: SYS_FLING },
    ]
}

/// The dependency list, edge for edge as the specification states it.
pub fn tick_ordering_constraints() -> (r: Vec<OrderingConstraint>)
    ensures
        r@ == spec_tick_ordering_constraints(),
{
    let mut constraints: Vec<OrderingConstraint> = Vec::new();
    constraints.push(OrderingConstraint { before: SYS_COLLISION, after: SYS_CLING });
    constraints.push(OrderingConstraint { before: SYS_COLLISION, after: SYS_MOVEMENT });
    constraints.push(OrderingConstraint { before: SYS_CLING, after: SYS_PLAYER_INPUT });
    constraints.push(OrderingConstraint { before: SYS_PLAYER_INPUT, after: SYS_MOVEMENT });
    constraints.push(OrderingConstraint { before: SYS_MOVEMENT, after: SYS_ANIMATION_CHANGE });
    constraints.push(OrderingConstraint { before: SYS_WEAPON_CHARGE, after: SYS_COMBAT });
    constraints.push(OrderingConstraint { before: SYS_COMBAT, after: SYS_HEALTH });
    constraints.push(OrderingConstraint {
        before: SYS_ANIMATION_CHANGE,
        after: SYS_ANIMATION_ADVANCE,
    });
    constraints.push(OrderingConstraint { before: SYS_ANIMATION_ADVANCE, after: SYS_FLING });
    proof {
        assert(constraints@ =~= spec_tick_ordering_constraints());
    }
    constraints
}

} // verus!
