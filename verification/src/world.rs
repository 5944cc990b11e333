//! World interaction: item pickups and the abilities or gear they unlock.

use vstd::prelude::*;
use crate::Entity;
use crate::player::{PlayerSprint, PlayerWallCling, PLAYER_PICKUP_DISTANCE};
use crate::tools::KINEMATIC_LIMIT;
use crate::vec2::Vec2i;
use crate::weapons::WeaponInventory;

verus! {

/// What a pickup grants when collected.
#[derive(Clone, Copy, Debug, PartialEq, Eq, Structural)]
pub enum PlayerPickupType {
    Coin,
    Gem,
    Boots,
    Axe,
    Knife,
}

impl Default for PlayerPickupType {
    /// An unrecognized pickup is a coin.
    fn default() -> (r: Self)
        ensures
            r == PlayerPickupType::Coin,
    {
        PlayerPickupType::Coin
    }
}

/// Whether a pickup has already been taken.
#[derive(Clone, Copy, Debug, Default)]
pub struct PickupCollected(pub bool);

/// A pickup the player just collected.
#[derive(Clone, Copy, Debug)]
pub struct ItemPickedUpEvent(pub PlayerPickupType);

/// One pickup's tick of the collection rule: an uncollected item within
/// the pickup distance is taken when the interact key goes down; taking
/// it marks it collected and announces it.  Distances are compared
/// squared, which orders them exactly.
pub fn player_pickup_item(player_pos: Vec2i, pickup_pos: Vec2i,
    pickup_type: PlayerPickupType, collected: &mut PickupCollected, interact_pressed: bool)
    -> (r: Option<ItemPickedUpEvent>)
    requires
        player_pos.bounded(KINEMATIC_LIMIT as int),
        pickup_pos.bounded(KINEMATIC_LIMIT as int),
    ensures
        ({
            let d2 = crate::enemy::dist_sq(player_pos, pickup_pos);
            let taken = !old(collected).0
                && d2 < PLAYER_PICKUP_DISTANCE * PLAYER_PICKUP_DISTANCE && interact_pressed;
            &&& taken ==> final(collected).0
                && r == Some(ItemPickedUpEvent(pickup_type))
            &&& !taken ==> *final(collected) == *old(collected) && r is None
        }),
{
    if collected.0 {
        return None;
    }
    let dx: i64 = pickup_pos.x - player_pos.x;
    let dy: i64 = pickup_pos.y - player_pos.y;
    proof {
        assert(0 <= dx * dx <= 4_000_000_000_000_000_000) by (nonlinear_arith)
            requires -2_000_000_000 <= dx <= 2_000_000_000;
        assert(0 <= dy * dy <= 4_000_000_000_000_000_000) by (nonlinear_arith)
            requires -2_000_000_000 <= dy <= 2_000_000_000;
    }
    let d2: u64 = ((dx * dx) as u64) + ((dy * dy) as u64);
    let reach_sq: u64 = (PLAYER_PICKUP_DISTANCE * PLAYER_PICKUP_DISTANCE) as u64;
    if d2 < reach_sq && interact_pressed {
        collected.0 = true;
        return Some(ItemPickedUpEvent(pickup_type));
    }
    None
}

/// Grant what a collected pickup unlocks: boots unlock sprinting, the
/// climbing axe unlocks wall clinging, knives go into the first weapon
/// slot (the caller spawns the weapon entity and despawns it again when
/// the slot was taken), and coins and gems grant nothing here.  Returns
/// whether the offered weapon entity was kept.
pub fn player_enable_item(event: &ItemPickedUpEvent, sprint: &mut PlayerSprint,
    cling: &mut PlayerWallCling, inventory: &mut WeaponInventory, new_weapon: Entity)
    -> (equipped: bool)
    ensures
        ({
            match event.0 {
                PlayerPickupType::Boots => {
                    &&& *final(sprint) == (PlayerSprint {
                        can_sprint: true,
                        ..*old(sprint)
                    })
                    &&& *final(cling) == *old(cling)
                    &&& *final(inventory) == *old(inventory)
                    &&& !equipped
                },
                PlayerPickupType::Axe => {
                    &&& *final(cling) == (PlayerWallCling {
                        can_cling: true,
                        ..*old(cling)
                    })
                    &&& *final(sprint) == *old(sprint)
                    &&& *final(inventory) == *old(inventory)
                    &&& !equipped
                },
                PlayerPickupType::Knife => {
                    &&& *final(sprint) == *old(sprint)
                    &&& *final(cling) == *old(cling)
                    &&& equipped == old(inventory).spec_slot1() is None
                    &&& equipped ==> final(inventory).spec_slot1() == Some(new_weapon)
                    &&& !equipped ==> final(inventory).spec_slot1()
                        == old(inventory).spec_slot1()
                    &&& final(inventory).spec_slot2() == old(inventory).spec_slot2()
                },
                _ => {
                    &&& *final(sprint) == *old(sprint)
                    &&& *final(cling) == *old(cling)
                    &&& *final(inventory) == *old(inventory)
                    &&& !equipped
                },
            }
        }),
{
    match event.0 {
        PlayerPickupType::Coin => false,
        PlayerPickupType::Gem => false,
        PlayerPickupType::Boots => {
            sprint.can_sprint = true;
            false
        },
        PlayerPickupType::Axe => {
            cling.can_cling = true;
            false
        },
        PlayerPickupType::Knife => inventory.add_slot1_weapon(new_weapon),
    }
}

} // verus!
