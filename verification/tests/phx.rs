use glam::Vec2;
use resphys::builder::{BodyDesc, ColliderDesc};
use resphys::{BodyHandle, ColliderHandle, AABB};
use slimeu::phx::{
    ground_check, insert_body, insert_collider, is_backed, is_tracked, new_physics,
    reset_velocity, resphys_postsync, resphys_presync, Axis, Bodies, Category, ColliderTag,
    Colliders, Gravity, Hitbox, OnGround, Physics, Position, Reset, Velocity,
};

const FRAMETIME: f32 = 1. / 60.;

struct Level {
    physics: Physics,
    bodies: Bodies,
    colliders: Colliders,
}

fn level() -> Level {
    Level { physics: Physics::new(), bodies: Bodies::new(), colliders: Colliders::new() }
}

fn add_player(level: &mut Level, x: f32, y: f32) -> (BodyHandle, ColliderHandle) {
    let body = BodyDesc::new().with_position(Vec2::new(x, y)).build();
    let bhandle = level.bodies.insert(body);
    let collider = ColliderDesc::new(AABB { half_exts: Vec2::new(5., 4.) }, ColliderTag::Player)
        .with_category(Category::PLAYER)
        .with_mask(Category::GROUND)
        .with_offset(Vec2::new(0., 4.));
    let chandle = level
        .colliders
        .insert(collider.build(bhandle), &mut level.bodies, &mut level.physics)
        .unwrap();
    (bhandle, chandle)
}

fn add_sensor(level: &mut Level, owner: BodyHandle) -> ColliderHandle {
    let sensor = ColliderDesc::new(AABB { half_exts: Vec2::new(4.5, 0.5) }, ColliderTag::Player)
        .sensor()
        .with_offset(Vec2::new(0., 8.5))
        .with_mask(Category::GROUND);
    level.colliders.insert(sensor.build(owner), &mut level.bodies, &mut level.physics).unwrap()
}

fn add_platform(level: &mut Level, x: f32, y: f32) -> BodyHandle {
    let body = BodyDesc::new().with_position(Vec2::new(x, y)).make_static().build();
    let bhandle = level.bodies.insert(body);
    let collider = ColliderDesc::new(AABB { half_exts: Vec2::new(8., 8.) }, ColliderTag::Tile)
        .with_category(Category::GROUND);
    level.colliders.insert(collider.build(bhandle), &mut level.bodies, &mut level.physics).unwrap();
    bhandle
}

fn sync(level: &mut Level, pos: &mut Position, vel: &mut Velocity, hitbox: &Hitbox) {
    resphys_presync(&mut level.bodies, &level.colliders, pos, vel, hitbox);
    level.physics.step(FRAMETIME, &mut level.bodies, &mut level.colliders);
    resphys_postsync(&level.bodies, &level.colliders, pos, vel, hitbox);
}

fn contacts(level: &Level, hitbox: &Hitbox) -> Vec<Axis> {
    level
        .physics
        .collisions_of(hitbox.src)
        .map(|(_, info)| if info.normal.x() != 0. { Axis::X } else { Axis::Y })
        .collect()
}

#[test]
fn categories_are_distinct_bits() {
    assert_eq!(Category::GROUND, 0b10);
    assert_eq!(Category::PLAYER, 0b100);
    assert_eq!(Category::ENEMY, 0b1000);
}

#[test]
fn presync_writes_position_and_velocity_to_the_body() {
    let mut level = level();
    let (bhandle, chandle) = add_player(&mut level, 100., 60.);
    let (other, _) = add_player(&mut level, 200., 60.);
    let hitbox = Hitbox::new(chandle);
    let pos = Position { src: Vec2::new(10., 20.) };
    let vel = Velocity { src: Vec2::new(3., -4.) };
    resphys_presync(&mut level.bodies, &level.colliders, &pos, &vel, &hitbox);
    assert_eq!(level.bodies[bhandle].position, Vec2::new(10., 20.));
    assert_eq!(level.bodies[bhandle].velocity, Vec2::new(3., -4.));
    assert_eq!(level.bodies[other].position, Vec2::new(200., 60.));
    assert_eq!(level.bodies[other].velocity, Vec2::new(0., 0.));
}

#[test]
fn postsync_reads_position_and_velocity_from_the_body() {
    let mut level = level();
    let (bhandle, chandle) = add_player(&mut level, 100., 60.);
    level.bodies[bhandle].velocity = Vec2::new(7., 8.);
    let hitbox = Hitbox::new(chandle);
    let mut pos = Position { src: Vec2::new(0., 0.) };
    let mut vel = Velocity { src: Vec2::new(0., 0.) };
    resphys_postsync(&level.bodies, &level.colliders, &mut pos, &mut vel, &hitbox);
    assert_eq!(pos.src, Vec2::new(100., 60.));
    assert_eq!(vel.src, Vec2::new(7., 8.));
}

#[test]
fn sync_cycle_at_rest_changes_nothing() {
    let mut level = level();
    let (_, chandle) = add_player(&mut level, 100., 60.);
    let hitbox = Hitbox::new(chandle);
    let mut pos = Position { src: Vec2::new(10., 20.) };
    let mut vel = Velocity { src: Vec2::new(0., 0.) };
    sync(&mut level, &mut pos, &mut vel, &hitbox);
    assert_eq!(pos.src, Vec2::new(10., 20.));
    assert_eq!(vel.src, Vec2::new(0., 0.));
    assert!(contacts(&level, &hitbox).is_empty());
}

#[test]
fn sync_cycle_in_free_motion_integrates_velocity() {
    let mut level = level();
    let (_, chandle) = add_player(&mut level, 100., 60.);
    let hitbox = Hitbox::new(chandle);
    let mut pos = Position { src: Vec2::new(10., 20.) };
    let mut vel = Velocity { src: Vec2::new(60., -120.) };
    sync(&mut level, &mut pos, &mut vel, &hitbox);
    assert_eq!(pos.src, Vec2::new(10., 20.) + Vec2::new(60., -120.) * FRAMETIME);
    assert_eq!(vel.src, Vec2::new(60., -120.));
}

#[test]
fn hitbox_with_collider_and_body_is_backed() {
    let mut level = level();
    let (_, chandle) = add_player(&mut level, 100., 60.);
    assert!(is_backed(&level.bodies, &level.colliders, &Hitbox::new(chandle)));
}

#[test]
fn hitbox_of_another_world_is_not_backed() {
    let mut level = level();
    let (_, chandle) = add_player(&mut level, 100., 60.);
    let empty = self::level();
    assert!(!is_backed(&empty.bodies, &empty.colliders, &Hitbox::new(chandle)));
    assert!(!is_backed(&empty.bodies, &level.colliders, &Hitbox::new(chandle)));
}

#[test]
fn contact_with_horizontal_normal_resets_x_only() {
    assert_eq!(reset_velocity(&vec![Axis::X]), Reset { x: true, y: false });
}

#[test]
fn contact_with_vertical_normal_resets_y_only() {
    assert_eq!(reset_velocity(&vec![Axis::Y]), Reset { x: false, y: true });
}

#[test]
fn no_contact_resets_nothing() {
    assert_eq!(reset_velocity(&vec![]), Reset { x: false, y: false });
}

#[test]
fn contacts_on_both_axes_reset_both() {
    assert_eq!(reset_velocity(&vec![Axis::Y, Axis::X, Axis::Y]), Reset { x: true, y: true });
}

#[test]
fn landing_on_a_platform_resets_the_fall() {
    let mut level = level();
    let (_, chandle) = add_player(&mut level, 100., 59.);
    let _ = add_platform(&mut level, 100., 76.);
    let hitbox = Hitbox::new(chandle);
    let mut pos = Position { src: Vec2::new(100., 59.) };
    let mut vel = Velocity { src: Vec2::new(0., 120.) };
    sync(&mut level, &mut pos, &mut vel, &hitbox);
    assert_eq!(pos.src, Vec2::new(100., 60.));
    assert_eq!(reset_velocity(&contacts(&level, &hitbox)), Reset { x: false, y: false });
    sync(&mut level, &mut pos, &mut vel, &hitbox);
    assert_eq!(pos.src, Vec2::new(100., 60.));
    assert_eq!(reset_velocity(&contacts(&level, &hitbox)), Reset { x: false, y: true });
}

#[test]
fn sensor_over_a_platform_reports_ground() {
    let mut level = level();
    let (bhandle, chandle) = add_player(&mut level, 100., 60.);
    let sensor = add_sensor(&mut level, bhandle);
    let _ = add_platform(&mut level, 100., 76.);
    let hitbox = Hitbox::new(chandle);
    let mut pos = Position { src: Vec2::new(100., 60.) };
    let mut vel = Velocity { src: Vec2::new(0., 0.) };
    let mut ground = OnGround::new(sensor);
    assert!(ground.on_ground);
    ground.on_ground = false;
    sync(&mut level, &mut pos, &mut vel, &hitbox);
    ground_check(&mut ground, &level.physics);
    assert!(ground.on_ground);
    assert_eq!(ground.sensor_handle, sensor);
}

#[test]
fn sensor_in_the_air_reports_no_ground() {
    let mut level = level();
    let (bhandle, chandle) = add_player(&mut level, 100., 20.);
    let sensor = add_sensor(&mut level, bhandle);
    let _ = add_platform(&mut level, 100., 76.);
    let hitbox = Hitbox::new(chandle);
    let mut pos = Position { src: Vec2::new(100., 20.) };
    let mut vel = Velocity { src: Vec2::new(0., 0.) };
    let mut ground = OnGround::new(sensor);
    sync(&mut level, &mut pos, &mut vel, &hitbox);
    ground_check(&mut ground, &level.physics);
    assert!(!ground.on_ground);
}

#[test]
fn sensor_reports_no_ground_once_the_platform_is_gone() {
    let mut level = level();
    let (bhandle, chandle) = add_player(&mut level, 100., 60.);
    let sensor = add_sensor(&mut level, bhandle);
    let platform = add_platform(&mut level, 100., 76.);
    let hitbox = Hitbox::new(chandle);
    let mut pos = Position { src: Vec2::new(100., 60.) };
    let mut vel = Velocity { src: Vec2::new(0., 0.) };
    let mut ground = OnGround::new(sensor);
    sync(&mut level, &mut pos, &mut vel, &hitbox);
    ground_check(&mut ground, &level.physics);
    assert!(ground.on_ground);
    level.physics.remove_body(platform, &mut level.bodies, &mut level.colliders);
    sync(&mut level, &mut pos, &mut vel, &hitbox);
    ground_check(&mut ground, &level.physics);
    assert!(!ground.on_ground);
}

#[test]
fn gravity_starts_enabled() {
    let gravity = Gravity::new(Vec2::new(0., 448. / 60.));
    assert!(gravity.enabled());
    assert_eq!(gravity.strength(), Vec2::new(0., 448. / 60.));
}

#[test]
fn new_physics_is_empty() {
    let (physics, bodies, colliders) = new_physics();
    assert_eq!(bodies.iter().count(), 0);
    assert_eq!(colliders.iter().count(), 0);
    assert!(physics.collision_graph.binding.is_empty());
}

#[test]
fn inserted_body_is_held_as_described() {
    let (_, mut bodies, _) = new_physics();
    let first = insert_body(
        &mut bodies,
        BodyDesc::new().with_position(Vec2::new(3., 4.)).with_velocity(Vec2::new(5., 6.)),
    );
    let second = insert_body(&mut bodies, BodyDesc::new().with_position(Vec2::new(7., 8.)));
    assert_ne!(first, second);
    assert_eq!(bodies.iter().count(), 2);
    assert_eq!(bodies[first].position, Vec2::new(3., 4.));
    assert_eq!(bodies[first].velocity, Vec2::new(5., 6.));
    assert_eq!(bodies[second].position, Vec2::new(7., 8.));
    assert_eq!(bodies[second].velocity, Vec2::new(0., 0.));
}

#[test]
fn inserted_collider_is_owned_tracked_and_backed() {
    let (mut physics, mut bodies, mut colliders) = new_physics();
    let owner = insert_body(&mut bodies, BodyDesc::new().with_position(Vec2::new(1., 2.)));
    let desc = ColliderDesc::new(AABB { half_exts: Vec2::new(5., 4.) }, ColliderTag::Player)
        .with_category(Category::ENEMY);
    let handle = insert_collider(&mut colliders, desc, owner, &mut bodies, &mut physics).unwrap();
    assert_eq!(colliders[handle].owner, owner);
    assert_eq!(colliders.iter().count(), 1);
    assert!(is_backed(&bodies, &colliders, &Hitbox::new(handle)));
    assert!(is_tracked(&OnGround::new(handle), &physics));
    assert_eq!(bodies[owner].position, Vec2::new(1., 2.));
    let hits: Vec<ColliderHandle> = physics
        .overlap_test(Vec2::new(1., 2.), Vec2::new(1., 1.), Category::ENEMY, &bodies, &colliders)
        .collect();
    assert_eq!(hits, vec![handle]);
}

#[test]
fn collider_of_a_missing_body_is_not_inserted() {
    let (mut physics, mut bodies, mut colliders) = new_physics();
    let (_, mut elsewhere, _) = new_physics();
    let stranger = insert_body(&mut elsewhere, BodyDesc::new());
    let desc = ColliderDesc::new(AABB { half_exts: Vec2::new(5., 4.) }, ColliderTag::Tile);
    let handle = insert_collider(&mut colliders, desc, stranger, &mut bodies, &mut physics);
    assert!(handle.is_none());
    assert_eq!(colliders.iter().count(), 0);
    assert!(physics.collision_graph.binding.is_empty());
}
