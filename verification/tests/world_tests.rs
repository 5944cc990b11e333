use platformer_core::player::PlayerSprint;
use platformer_core::player::PlayerWallCling;
use platformer_core::vec2::Vec2i;
use platformer_core::weapons::WeaponInventory;
use platformer_core::world::ItemPickedUpEvent;
use platformer_core::world::PickupCollected;
use platformer_core::world::PlayerPickupType;
use platformer_core::world::player_enable_item;
use platformer_core::world::player_pickup_item;

#[test]
fn pickup_needs_reach_and_the_interact_key() {
    let player = Vec2i { x: 0, y: 0 };
    let near = Vec2i { x: 10_000, y: 0 };
    let far = Vec2i { x: 30_000, y: 0 };
    let mut collected = PickupCollected(false);

    // Near but no key press: nothing happens.
    let r = player_pickup_item(player, near, PlayerPickupType::Coin, &mut collected, false);
    assert!(r.is_none());
    assert!(!collected.0);

    // Out of reach: nothing happens even with the key.
    let r = player_pickup_item(player, far, PlayerPickupType::Coin, &mut collected, true);
    assert!(r.is_none());

    // Near with the key down: taken and announced.
    let r = player_pickup_item(player, near, PlayerPickupType::Gem, &mut collected, true);
    assert!(matches!(r, Some(ItemPickedUpEvent(PlayerPickupType::Gem))));
    assert!(collected.0);

    // A taken pickup cannot be taken again.
    let r = player_pickup_item(player, near, PlayerPickupType::Gem, &mut collected, true);
    assert!(r.is_none());
}

#[test]
fn pickups_unlock_their_abilities() {
    let mut sprint = PlayerSprint { sprint_speed: 180_000, normal_speed: 120_000, can_sprint: false };
    let mut cling = PlayerWallCling::new(300_000, 500);
    cling.can_cling = false;
    let mut inventory = WeaponInventory::new();

    player_enable_item(&ItemPickedUpEvent(PlayerPickupType::Boots), &mut sprint, &mut cling,
        &mut inventory, 99);
    assert!(sprint.can_sprint);
    assert!(!cling.can_cling);

    player_enable_item(&ItemPickedUpEvent(PlayerPickupType::Axe), &mut sprint, &mut cling,
        &mut inventory, 99);
    assert!(cling.can_cling);

    // The knife pickup equips the offered weapon entity in the first
    // slot; a second knife finds the slot taken and is not kept.
    let equipped = player_enable_item(&ItemPickedUpEvent(PlayerPickupType::Knife), &mut sprint,
        &mut cling, &mut inventory, 99);
    assert!(equipped);
    assert_eq!(*inventory.get_slot1(), Some(99));
    let equipped = player_enable_item(&ItemPickedUpEvent(PlayerPickupType::Knife), &mut sprint,
        &mut cling, &mut inventory, 100);
    assert!(!equipped);
    assert_eq!(*inventory.get_slot1(), Some(99));

    // Coins grant nothing here.
    let equipped = player_enable_item(&ItemPickedUpEvent(PlayerPickupType::Coin), &mut sprint,
        &mut cling, &mut inventory, 100);
    assert!(!equipped);
}
