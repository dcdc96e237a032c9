use glam::Vec2;
use hecs::{Entity, World};
use resphys::builder::{BodyDesc, ColliderDesc};
use resphys::{BodyHandle, ColliderHandle, AABB};
use slimeu::combat::{
    damage_outcome, resolve_hits, spread_pain_system, Combatants, DamageEvent, DamageOutcome,
    DamageQueue, HurtInfo, HurtQueue, Knockback,
};
use slimeu::engine::BodyEntityMap;
use slimeu::phx::{Bodies, Category, ColliderTag, Colliders, Physics};

struct Arena {
    physics: Physics,
    bodies: Bodies,
    colliders: Colliders,
    owners: BodyEntityMap,
    world: World,
}

fn arena() -> Arena {
    Arena {
        physics: Physics::new(),
        bodies: Bodies::new(),
        colliders: Colliders::new(),
        owners: BodyEntityMap::default(),
        world: World::new(),
    }
}

fn add_box(arena: &mut Arena, x: f32, y: f32, category: u32) -> (BodyHandle, ColliderHandle) {
    let body = BodyDesc::new().with_position(Vec2::new(x, y)).build();
    let bhandle = arena.bodies.insert(body);
    let collider = ColliderDesc::new(AABB { half_exts: Vec2::new(5., 4.) }, ColliderTag::Player)
        .with_category(category)
        .with_mask(Category::GROUND);
    let chandle = arena
        .colliders
        .insert(collider.build(bhandle), &mut arena.bodies, &mut arena.physics)
        .unwrap();
    (bhandle, chandle)
}

fn add_fighter(arena: &mut Arena, x: f32, y: f32, category: u32) -> (Entity, ColliderHandle) {
    let (bhandle, chandle) = add_box(arena, x, y, category);
    let entity = arena.world.spawn(());
    arena.owners.insert(bhandle, entity);
    (entity, chandle)
}

fn probe(attacker: Entity, x: f32, y: f32, mask: u32) -> HurtInfo {
    HurtInfo { attacker, position: Vec2::new(x, y), half_exts: Vec2::new(8., 4.), mask }
}

fn resolve(arena: &Arena, hurt_queue: &mut HurtQueue, damage_queue: &mut DamageQueue) {
    spread_pain_system(
        hurt_queue,
        damage_queue,
        &arena.physics,
        &arena.bodies,
        &arena.colliders,
        &arena.owners,
    );
}

fn same(event: &DamageEvent, attacker: Entity, defender: Entity) -> bool {
    event.input == attacker && event.output == defender
}

#[test]
fn one_probe_over_one_collider_yields_one_damage_event() {
    let mut arena = arena();
    let (attacker, _) = add_fighter(&mut arena, 100., 60., Category::PLAYER);
    let (defender, _) = add_fighter(&mut arena, 116., 60., Category::ENEMY);
    let mut hurt_queue = HurtQueue::new();
    let mut damage_queue = DamageQueue::new();
    hurt_queue.push(probe(attacker, 116., 60., Category::ENEMY));
    assert_eq!(hurt_queue.len(), 1);
    resolve(&arena, &mut hurt_queue, &mut damage_queue);
    assert_eq!(damage_queue.len(), 1);
    let events = damage_queue.drain();
    assert_eq!(events.len(), 1);
    assert!(same(&events[0], attacker, defender));
    assert_eq!(hurt_queue.len(), 0);
    assert_eq!(hurt_queue.copy_msgs.len(), 1);
    assert_eq!(hurt_queue.copy_msgs[0].attacker, attacker);
}

#[test]
fn resolved_requests_are_not_resolved_again() {
    let mut arena = arena();
    let (attacker, _) = add_fighter(&mut arena, 100., 60., Category::PLAYER);
    let _ = add_fighter(&mut arena, 116., 60., Category::ENEMY);
    let mut hurt_queue = HurtQueue::new();
    let mut damage_queue = DamageQueue::new();
    hurt_queue.push(probe(attacker, 116., 60., Category::ENEMY));
    resolve(&arena, &mut hurt_queue, &mut damage_queue);
    resolve(&arena, &mut hurt_queue, &mut damage_queue);
    assert_eq!(damage_queue.len(), 1);
    assert_eq!(hurt_queue.len(), 0);
    assert_eq!(hurt_queue.copy_msgs.len(), 0);
}

#[test]
fn push_after_resolution_starts_a_fresh_buffer() {
    let mut arena = arena();
    let (attacker, _) = add_fighter(&mut arena, 100., 60., Category::PLAYER);
    let mut hurt_queue = HurtQueue::new();
    let mut damage_queue = DamageQueue::new();
    hurt_queue.push(probe(attacker, 0., 0., Category::ENEMY));
    hurt_queue.push(probe(attacker, 1., 0., Category::ENEMY));
    resolve(&arena, &mut hurt_queue, &mut damage_queue);
    hurt_queue.push(probe(attacker, 2., 0., Category::ENEMY));
    assert_eq!(hurt_queue.len(), 1);
    assert_eq!(hurt_queue.copy_msgs.len(), 2);
}

#[test]
fn probe_that_misses_hurts_nobody() {
    let mut arena = arena();
    let (attacker, _) = add_fighter(&mut arena, 100., 60., Category::PLAYER);
    let _ = add_fighter(&mut arena, 300., 60., Category::ENEMY);
    let mut hurt_queue = HurtQueue::new();
    let mut damage_queue = DamageQueue::new();
    hurt_queue.push(probe(attacker, 116., 60., Category::ENEMY));
    resolve(&arena, &mut hurt_queue, &mut damage_queue);
    assert_eq!(damage_queue.len(), 0);
    assert_eq!(hurt_queue.len(), 0);
}

#[test]
fn probe_hits_only_the_categories_of_its_mask() {
    let mut arena = arena();
    let (attacker, _) = add_fighter(&mut arena, 100., 60., Category::PLAYER);
    let (defender, _) = add_fighter(&mut arena, 104., 60., Category::ENEMY);
    let mut hurt_queue = HurtQueue::new();
    let mut damage_queue = DamageQueue::new();
    hurt_queue.push(probe(attacker, 102., 60., Category::ENEMY));
    resolve(&arena, &mut hurt_queue, &mut damage_queue);
    let events = damage_queue.drain();
    assert_eq!(events.len(), 1);
    assert!(same(&events[0], attacker, defender));
}

#[test]
fn hit_on_a_body_without_entity_hurts_nobody() {
    let mut arena = arena();
    let (attacker, _) = add_fighter(&mut arena, 100., 60., Category::PLAYER);
    let _ = add_box(&mut arena, 116., 60., Category::ENEMY);
    let mut hurt_queue = HurtQueue::new();
    let mut damage_queue = DamageQueue::new();
    hurt_queue.push(probe(attacker, 116., 60., Category::ENEMY));
    resolve(&arena, &mut hurt_queue, &mut damage_queue);
    assert_eq!(damage_queue.len(), 0);
}

#[test]
fn every_request_and_every_hit_counts() {
    let mut arena = arena();
    let (attacker, _) = add_fighter(&mut arena, 100., 60., Category::PLAYER);
    let (first, _) = add_fighter(&mut arena, 116., 60., Category::ENEMY);
    let (second, _) = add_fighter(&mut arena, 120., 60., Category::ENEMY);
    let mut hurt_queue = HurtQueue::new();
    let mut damage_queue = DamageQueue::new();
    hurt_queue.push(probe(attacker, 116., 60., Category::ENEMY));
    hurt_queue.push(probe(second, 104., 60., Category::PLAYER));
    resolve(&arena, &mut hurt_queue, &mut damage_queue);
    let events = damage_queue.drain();
    assert_eq!(events.len(), 3);
    assert!(same(&events[0], attacker, first));
    assert!(same(&events[1], attacker, second));
    assert!(same(&events[2], second, attacker));
}

#[test]
fn resolve_hits_appends_in_the_order_of_the_hits() {
    let mut arena = arena();
    let (attacker, _) = add_fighter(&mut arena, 100., 60., Category::PLAYER);
    let (first, first_collider) = add_fighter(&mut arena, 116., 60., Category::ENEMY);
    let (_, unowned) = add_box(&mut arena, 130., 60., Category::ENEMY);
    let (second, second_collider) = add_fighter(&mut arena, 150., 60., Category::ENEMY);
    let mut damage_queue = DamageQueue::new();
    damage_queue.push(DamageEvent { input: first, output: second });
    resolve_hits(
        attacker,
        &vec![second_collider, unowned, first_collider],
        &mut damage_queue,
        &arena.colliders,
        &arena.owners,
    );
    let events = damage_queue.drain();
    assert_eq!(events.len(), 3);
    assert!(same(&events[0], first, second));
    assert!(same(&events[1], attacker, second));
    assert!(same(&events[2], attacker, first));
}

#[test]
fn drain_empties_the_damage_queue() {
    let mut world = World::new();
    let a = world.spawn(());
    let b = world.spawn(());
    let mut queue = DamageQueue::new();
    assert_eq!(queue.len(), 0);
    queue.push(DamageEvent { input: a, output: b });
    queue.push(DamageEvent { input: b, output: a });
    assert_eq!(queue.len(), 2);
    let events = queue.drain();
    assert!(same(&events[0], a, b));
    assert!(same(&events[1], b, a));
    assert_eq!(queue.len(), 0);
    assert_eq!(queue.drain().len(), 0);
}

fn sides(attacker: bool, defender: bool, moves: bool, remembers: bool) -> Combatants {
    Combatants {
        attacker_fights: attacker,
        defender_fights: defender,
        defender_moves: moves,
        defender_remembers: remembers,
    }
}

#[test]
fn defender_without_stats_takes_no_damage() {
    let nothing = DamageOutcome { mark_hit: false, knockback: None, effect: false };
    assert_eq!(damage_outcome(sides(true, false, true, true)), nothing);
    assert_eq!(damage_outcome(sides(false, false, true, true)), nothing);
}

#[test]
fn attacker_with_stats_knocks_back() {
    assert_eq!(
        damage_outcome(sides(true, true, true, true)),
        DamageOutcome { mark_hit: true, knockback: Some(Knockback::Scaled), effect: true }
    );
}

#[test]
fn attacker_without_stats_knocks_back_with_zero() {
    assert_eq!(
        damage_outcome(sides(false, true, true, false)),
        DamageOutcome { mark_hit: false, knockback: Some(Knockback::Zero), effect: true }
    );
}

#[test]
fn defender_without_velocity_is_not_knocked_back() {
    assert_eq!(
        damage_outcome(sides(true, true, false, true)),
        DamageOutcome { mark_hit: true, knockback: None, effect: true }
    );
}
