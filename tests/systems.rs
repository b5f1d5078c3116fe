use arcade_sim::collision::{collision_system, GameOverEvent};
use arcade_sim::entity::{EntityKind, EntityStore};
use arcade_sim::geometry::{circles_overlap, Arena, Vec2, PIXEL};
use arcade_sim::motion::{confinement_system, movement_system, player_intent, PLAYER_SPEED};
use arcade_sim::spawn::{heading, spawn_system, SpawnRolls, SpawnTimer, HAZARD_SPEED};

fn px(v: i64) -> i64 {
    v * PIXEL
}

fn arena() -> Arena {
    Arena::new(px(800), px(600)).unwrap()
}

fn zero() -> Vec2 {
    Vec2::new(0, 0)
}

#[test]
fn hazard_overlapping_player_ends_round() {
    let mut store = EntityStore::new();
    let player = store.create(EntityKind::Player, Vec2::new(px(400), px(300)), zero(), 0);
    store.create(EntityKind::Hazard, Vec2::new(px(420), px(300)), Vec2::new(-1000, 0), 200);
    let mut score: u32 = 7;
    let event = collision_system(&mut store, &mut score);
    assert_eq!(event, Some(GameOverEvent { score: 7 }));
    assert_eq!(score, 7);
    assert_eq!(store.count(EntityKind::Player), 0);
    assert_eq!(store.count(EntityKind::Hazard), 1);
    assert!(store.find(player).is_none());
}

#[test]
fn hazard_past_left_wall_is_clamped_and_bounces() {
    let mut store = EntityStore::new();
    store.create(EntityKind::Hazard, Vec2::new(px(-5), px(300)), Vec2::new(-1000, 0), 200);
    confinement_system(&mut store, arena());
    let e = store.get(0);
    assert_eq!(e.pos, Vec2::new(px(32), px(300)));
    assert_eq!(e.direction, Vec2::new(1000, 0));
}

#[test]
fn full_hazard_population_blocks_spawn_but_resets_timer() {
    let mut store = EntityStore::new();
    for i in 0..20 {
        store.create(EntityKind::Hazard, Vec2::new(px(100 + i), px(100)), Vec2::new(1000, 0), 200);
    }
    let mut timer = SpawnTimer::new(5000).unwrap();
    timer.tick(5000);
    assert!(timer.due);
    let rolls = SpawnRolls { x: 1, y: 2, heading: 3 };
    let r = spawn_system(&mut store, &mut timer, EntityKind::Hazard, 20, arena(), rolls);
    assert_eq!(r, None);
    assert_eq!(store.count(EntityKind::Hazard), 20);
    assert!(!timer.due);
    assert_eq!(timer.elapsed_ms, 0);
}

#[test]
fn due_timer_below_cap_spawns_in_bounds() {
    let mut store = EntityStore::new();
    let mut timer = SpawnTimer::new(1000).unwrap();
    timer.tick(1200);
    let rolls = SpawnRolls { x: 0, y: u64::MAX, heading: 2 };
    let r = spawn_system(&mut store, &mut timer, EntityKind::Hazard, 20, arena(), rolls);
    assert_eq!(r, Some(0));
    let e = store.get(0);
    assert_eq!(e.kind, EntityKind::Hazard);
    assert_eq!(e.pos.x, px(32));
    assert!(e.pos.y >= px(32) && e.pos.y <= px(568));
    assert_eq!(e.direction, Vec2::new(0, 1000));
    assert_eq!(e.speed, HAZARD_SPEED);
    assert_eq!(timer.elapsed_ms, 0);
}

#[test]
fn timer_not_yet_due_spawns_nothing() {
    let mut store = EntityStore::new();
    let mut timer = SpawnTimer::new(1000).unwrap();
    timer.tick(999);
    let rolls = SpawnRolls { x: 5, y: 5, heading: 0 };
    let r = spawn_system(&mut store, &mut timer, EntityKind::Pickup, 10, arena(), rolls);
    assert_eq!(r, None);
    assert_eq!(store.len(), 0);
    assert_eq!(timer.elapsed_ms, 999);
}

#[test]
fn player_collects_pickup_within_reach() {
    let mut store = EntityStore::new();
    store.create(EntityKind::Player, Vec2::new(px(400), px(300)), zero(), 0);
    let pickup = store.create(EntityKind::Pickup, Vec2::new(px(410), px(300)), zero(), 0);
    let mut score: u32 = 0;
    let event = collision_system(&mut store, &mut score);
    assert_eq!(event, None);
    assert_eq!(score, 1);
    assert!(store.find(pickup).is_none());
    assert_eq!(store.count(EntityKind::Player), 1);
}

#[test]
fn two_pickups_in_reach_count_twice() {
    let mut store = EntityStore::new();
    store.create(EntityKind::Player, Vec2::new(px(400), px(300)), zero(), 0);
    store.create(EntityKind::Pickup, Vec2::new(px(410), px(300)), zero(), 0);
    store.create(EntityKind::Pickup, Vec2::new(px(400), px(290)), zero(), 0);
    let far = store.create(EntityKind::Pickup, Vec2::new(px(600), px(300)), zero(), 0);
    let mut score: u32 = 3;
    let event = collision_system(&mut store, &mut score);
    assert_eq!(event, None);
    assert_eq!(score, 5);
    assert_eq!(store.count(EntityKind::Pickup), 1);
    assert!(store.find(far).is_some());
}

#[test]
fn score_saturates_at_largest_value() {
    let mut store = EntityStore::new();
    store.create(EntityKind::Player, Vec2::new(px(400), px(300)), zero(), 0);
    store.create(EntityKind::Pickup, Vec2::new(px(400), px(300)), zero(), 0);
    let mut score: u32 = u32::MAX;
    collision_system(&mut store, &mut score);
    assert_eq!(score, u32::MAX);
}

#[test]
fn touching_circles_do_not_collide() {
    let p = Vec2::new(px(400), px(300));
    assert!(!circles_overlap(p, px(32), Vec2::new(px(464), px(300)), px(32)));
    assert!(circles_overlap(p, px(32), Vec2::new(px(463), px(300)), px(32)));
    let mut store = EntityStore::new();
    store.create(EntityKind::Player, p, zero(), 0);
    store.create(EntityKind::Hazard, Vec2::new(px(400), px(364)), Vec2::new(1000, 0), 200);
    store.create(EntityKind::Pickup, Vec2::new(px(447), px(300)), zero(), 0);
    let mut score: u32 = 0;
    assert_eq!(collision_system(&mut store, &mut score), None);
    assert_eq!(score, 0);
    assert_eq!(store.len(), 3);
}

#[test]
fn no_player_no_collision() {
    let mut store = EntityStore::new();
    store.create(EntityKind::Hazard, Vec2::new(px(400), px(300)), Vec2::new(1000, 0), 200);
    store.create(EntityKind::Pickup, Vec2::new(px(400), px(300)), zero(), 0);
    let mut score: u32 = 2;
    assert_eq!(collision_system(&mut store, &mut score), None);
    assert_eq!(score, 2);
    assert_eq!(store.len(), 2);
}

#[test]
fn zero_intent_does_not_move_player() {
    let mut store = EntityStore::new();
    store.create(EntityKind::Player, Vec2::new(px(123), px(456)), zero(), 0);
    let intent = player_intent(false, false, false, false);
    assert_eq!(intent, zero());
    movement_system(&mut store, intent, 16);
    assert_eq!(store.get(0).pos, Vec2::new(px(123), px(456)));
    let opposite = player_intent(true, true, true, true);
    assert_eq!(opposite, zero());
    movement_system(&mut store, opposite, 1000);
    assert_eq!(store.get(0).pos, Vec2::new(px(123), px(456)));
}

#[test]
fn movement_advances_by_speed_and_time() {
    let mut store = EntityStore::new();
    store.create(EntityKind::Player, Vec2::new(px(100), px(100)), zero(), 0);
    store.create(EntityKind::Hazard, Vec2::new(px(200), px(200)), Vec2::new(0, -1000), 200);
    store.create(EntityKind::Pickup, Vec2::new(px(300), px(300)), zero(), 0);
    let right = player_intent(false, false, false, true);
    assert_eq!(right, Vec2::new(1000, 0));
    movement_system(&mut store, right, 1000);
    assert_eq!(store.get(0).pos, Vec2::new(px(100 + PLAYER_SPEED as i64), px(100)));
    assert_eq!(store.get(1).pos, Vec2::new(px(200), px(0)));
    assert_eq!(store.get(2).pos, Vec2::new(px(300), px(300)));
}

#[test]
fn diagonal_intent_is_normalised() {
    assert_eq!(player_intent(true, false, false, true), Vec2::new(707, 707));
    assert_eq!(player_intent(false, true, true, false), Vec2::new(-707, -707));
    assert_eq!(player_intent(true, false, false, false), Vec2::new(0, 1000));
}

#[test]
fn confinement_clamps_both_axes() {
    let mut store = EntityStore::new();
    store.create(EntityKind::Player, Vec2::new(px(900), px(-40)), zero(), 0);
    store.create(EntityKind::Hazard, Vec2::new(px(400), px(590)), Vec2::new(707, 707), 200);
    store.create(EntityKind::Hazard, Vec2::new(px(400), px(300)), Vec2::new(707, -707), 200);
    store.create(EntityKind::Pickup, Vec2::new(px(5), px(5)), zero(), 0);
    confinement_system(&mut store, arena());
    assert_eq!(store.get(0).pos, Vec2::new(px(768), px(32)));
    assert_eq!(store.get(0).direction, zero());
    assert_eq!(store.get(1).pos, Vec2::new(px(400), px(568)));
    assert_eq!(store.get(1).direction, Vec2::new(707, -707));
    assert_eq!(store.get(2).pos, Vec2::new(px(400), px(300)));
    assert_eq!(store.get(2).direction, Vec2::new(707, -707));
    assert_eq!(store.get(3).pos, Vec2::new(px(5), px(5)));
}

#[test]
fn remove_twice_is_a_no_op() {
    let mut store = EntityStore::new();
    let a = store.create(EntityKind::Pickup, Vec2::new(px(10), px(10)), zero(), 0);
    let b = store.create(EntityKind::Pickup, Vec2::new(px(20), px(20)), zero(), 0);
    assert!(store.remove(a));
    assert!(!store.remove(a));
    assert_eq!(store.len(), 1);
    assert_eq!(store.get(0).id, b);
    assert!(!store.remove(99));
}

#[test]
fn ids_are_not_reused_after_clear() {
    let mut store = EntityStore::new();
    let a = store.create(EntityKind::Hazard, Vec2::new(px(10), px(10)), Vec2::new(1000, 0), 200);
    store.clear();
    assert_eq!(store.len(), 0);
    let b = store.create(EntityKind::Hazard, Vec2::new(px(10), px(10)), Vec2::new(1000, 0), 200);
    assert_ne!(a, b);
    assert_eq!(store.ids_left(), u64::MAX - 2);
}

#[test]
fn positions_of_lists_one_kind_in_order() {
    let mut store = EntityStore::new();
    store.create(EntityKind::Pickup, Vec2::new(px(1), px(1)), zero(), 0);
    store.create(EntityKind::Hazard, Vec2::new(px(2), px(2)), Vec2::new(1000, 0), 200);
    store.create(EntityKind::Pickup, Vec2::new(px(3), px(3)), zero(), 0);
    let v = store.positions_of(EntityKind::Pickup);
    assert_eq!(v, vec![(0, Vec2::new(px(1), px(1))), (2, Vec2::new(px(3), px(3)))]);
}

#[test]
fn headings_are_unit_compass_directions() {
    assert_eq!(heading(0), Vec2::new(1000, 0));
    assert_eq!(heading(9), Vec2::new(707, 707));
    assert_eq!(heading(4), Vec2::new(-1000, 0));
    assert_eq!(heading(7), Vec2::new(707, -707));
}

#[test]
fn invalid_configuration_is_rejected() {
    assert!(Arena::new(px(10), px(600)).is_none());
    assert!(Arena::from_pixels(800, 600).is_some());
    assert!(Arena::from_pixels(63, 600).is_none());
    assert!(SpawnTimer::new(0).is_none());
    assert!(arcade_sim::spawn::SpawnConfig::new(0, 10, 0, 5000, 1000).is_none());
    assert!(arcade_sim::spawn::SpawnConfig::new(20, 10, 21, 5000, 1000).is_none());
    assert!(arcade_sim::spawn::SpawnConfig::new(20, 10, 4, 0, 1000).is_none());
    assert!(arcade_sim::spawn::SpawnConfig::new(20, 10, 4, 5000, 1000).is_some());
}
