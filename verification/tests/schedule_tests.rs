use platformer_core::schedule::OrderingConstraint;
use platformer_core::schedule::SYS_ANIMATION_ADVANCE;
use platformer_core::schedule::SYS_ANIMATION_CHANGE;
use platformer_core::schedule::SYS_CLING;
use platformer_core::schedule::SYS_COLLISION;
use platformer_core::schedule::SYS_COMBAT;
use platformer_core::schedule::SYS_FLING;
use platformer_core::schedule::SYS_HEALTH;
use platformer_core::schedule::SYS_MOVEMENT;
use platformer_core::schedule::SYS_PLAYER_INPUT;
use platformer_core::schedule::SYS_WEAPON_CHARGE;
use platformer_core::schedule::order_respects;
use platformer_core::schedule::tick_ordering_constraints;

fn canonical_order() -> Vec<u32> {
    vec![
        SYS_COLLISION,
        SYS_CLING,
        SYS_PLAYER_INPUT,
        SYS_MOVEMENT,
        SYS_WEAPON_CHARGE,
        SYS_COMBAT,
        SYS_HEALTH,
        SYS_ANIMATION_CHANGE,
        SYS_ANIMATION_ADVANCE,
        SYS_FLING,
    ]
}

#[test]
fn canonical_tick_order_respects_every_constraint() {
    let order = canonical_order();
    let constraints = tick_ordering_constraints();
    assert!(order_respects(&order, &constraints));
}

#[test]
fn advancing_playback_before_clip_switches_is_rejected() {
    let mut order = canonical_order();
    // Swap playback ahead of clip switching: a frame of the old clip
    // could then be drawn after a switch was already decided.
    order.swap(7, 8);
    assert!(!order_respects(&order, &tick_ordering_constraints()));
}

#[test]
fn a_missing_system_is_rejected() {
    let mut order = canonical_order();
    order.retain(|s| *s != SYS_HEALTH);
    assert!(!order_respects(&order, &tick_ordering_constraints()));
}

#[test]
fn unrelated_systems_may_come_in_any_order() {
    let mut order = canonical_order();
    // Health resolution and clip selection share no edge.
    order.swap(6, 7);
    assert!(order_respects(&order, &tick_ordering_constraints()));
}

#[test]
fn a_reversed_edge_is_rejected() {
    let order = canonical_order();
    let reversed = vec![OrderingConstraint { before: SYS_FLING, after: SYS_COLLISION }];
    assert!(!order_respects(&order, &reversed));
}
