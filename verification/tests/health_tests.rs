use platformer_core::health::ColorMilli;
use platformer_core::health::Health;
use platformer_core::health::HealthChangeEvent;
use platformer_core::health::HealthChangeType;
use platformer_core::health::HealthFlash;
use platformer_core::health::change_health;
use platformer_core::health::do_iframes;
use platformer_core::health::health_flash;
use platformer_core::health::resolve_entity_death;

#[test]
fn damage_starts_invincibility_and_further_damage_is_dropped() {
    let mut h = Health::new(50, 1000);
    h.add_health(-10);
    assert_eq!(h.get_health(), 40);
    assert!(h.invincible());
    // A second wound before the window closes is dropped entirely.
    h.add_health(-10);
    assert_eq!(h.get_health(), 40);
    assert!(h.invincible());
    // Once the window runs out the next wound lands.
    h.tick(1000);
    assert!(!h.invincible());
    h.add_health(-10);
    assert_eq!(h.get_health(), 30);
}

#[test]
fn healing_is_clamped_at_the_maximum() {
    let mut h = Health::new(50, 1000);
    h.add_health(-30);
    h.tick(1000);
    h.add_health(100);
    assert_eq!(h.get_health(), 50);
    assert!(!h.invincible());
}

#[test]
fn health_goes_negative_as_the_death_signal() {
    let mut h = Health::new(20, 1000);
    h.add_health(-35);
    assert_eq!(h.get_health(), -15);
    assert!(h.is_dead());
}

#[test]
fn health_saturates_at_the_machine_floor() {
    let mut h = Health::new_full(50, i32::MIN + 5, 1000);
    h.add_health(-10);
    assert_eq!(h.get_health(), i32::MIN);
}

#[test]
fn set_health_clamps_only_above() {
    let mut h = Health::new(50, 1000);
    h.set_health(80);
    assert_eq!(h.get_health(), 50);
    h.set_health(-5);
    assert_eq!(h.get_health(), -5);
}

#[test]
fn death_is_announced_at_zero_or_less() {
    let mut h = Health::new(20, 1000);
    assert!(resolve_entity_death(3, &h).is_none());
    h.add_health(-20);
    let died = resolve_entity_death(3, &h).unwrap();
    assert_eq!(died.0, 3);
}

#[test]
fn change_health_event_picks_the_flash() {
    let mut h = Health::new(50, 1000);
    let wound = HealthChangeEvent {
        entity: 2,
        change_type: HealthChangeType::Add { value: -10 },
    };
    let flash = change_health(&mut h, &wound, 200).unwrap();
    assert_eq!(flash.target_color, ColorMilli::red());
    assert_eq!(h.get_health(), 40);
    // Wounding an invincible entity neither hurts nor flashes.
    let flash = change_health(&mut h, &wound, 200);
    assert!(flash.is_none());
    assert_eq!(h.get_health(), 40);
    // Healing flashes green.
    do_iframes(&mut h, 1000);
    let heal = HealthChangeEvent {
        entity: 2,
        change_type: HealthChangeType::Add { value: 5 },
    };
    let flash = change_health(&mut h, &heal, 200).unwrap();
    assert_eq!(flash.target_color, ColorMilli::green());
    assert_eq!(h.get_health(), 45);
}

#[test]
fn change_health_assign_sets_outright() {
    let mut h = Health::new(50, 1000);
    let set = HealthChangeEvent {
        entity: 2,
        change_type: HealthChangeType::Assign { value: 12 },
    };
    let flash = change_health(&mut h, &set, 200);
    assert!(flash.is_none());
    assert_eq!(h.get_health(), 12);
}

#[test]
fn flash_slides_there_and_back_then_asks_for_removal() {
    let mut flash = HealthFlash::new(ColorMilli::white(), ColorMilli::red(), 200);
    // Halfway through the first phase the tint is halfway to red.
    let (color, remove) = health_flash(&mut flash, 100);
    assert!(!remove);
    assert_eq!(color, ColorMilli { red: 1000, green: 500, blue: 500 });
    // The first phase ends: the slide turns around toward white.
    let (color, remove) = health_flash(&mut flash, 100);
    assert!(!remove);
    assert_eq!(color, ColorMilli::red());
    assert!(flash.returning_to_original);
    // The second phase ends: the tint is back and the flash is over.
    let (color, remove) = health_flash(&mut flash, 200);
    assert!(remove);
    assert_eq!(color, ColorMilli::white());
}
