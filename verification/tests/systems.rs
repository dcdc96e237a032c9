use glam::Vec2;
use hecs::World;
use resphys::builder::{BodyDesc, ColliderDesc};
use resphys::{BodyHandle, ColliderHandle, AABB};
use slimeu::phx::{
    ground_check_system, movers_backed, postsync_system, presync_system, sensors_tracked, Bodies,
    Category, ColliderTag, Colliders, Hitbox, OnGround, Physics, Position, Velocity,
};

struct Scene {
    world: World,
    physics: Physics,
    bodies: Bodies,
    colliders: Colliders,
}

fn scene() -> Scene {
    Scene {
        world: World::new(),
        physics: Physics::new(),
        bodies: Bodies::new(),
        colliders: Colliders::new(),
    }
}

fn body_with_box(scene: &mut Scene, x: f32, y: f32) -> (BodyHandle, ColliderHandle) {
    let bhandle = scene.bodies.insert(BodyDesc::new().with_position(Vec2::new(x, y)).build());
    let collider = ColliderDesc::new(AABB { half_exts: Vec2::new(5., 4.) }, ColliderTag::Player)
        .with_category(Category::PLAYER)
        .with_mask(Category::GROUND)
        .with_offset(Vec2::new(0., 4.));
    let chandle = scene
        .colliders
        .insert(collider.build(bhandle), &mut scene.bodies, &mut scene.physics)
        .unwrap();
    (bhandle, chandle)
}

fn sensor_under(scene: &mut Scene, owner: BodyHandle) -> ColliderHandle {
    let sensor = ColliderDesc::new(AABB { half_exts: Vec2::new(4.5, 0.5) }, ColliderTag::Player)
        .sensor()
        .with_offset(Vec2::new(0., 8.5))
        .with_mask(Category::GROUND);
    scene.colliders.insert(sensor.build(owner), &mut scene.bodies, &mut scene.physics).unwrap()
}

fn platform(scene: &mut Scene, x: f32, y: f32) {
    let bhandle =
        scene.bodies.insert(BodyDesc::new().with_position(Vec2::new(x, y)).make_static().build());
    let collider = ColliderDesc::new(AABB { half_exts: Vec2::new(8., 8.) }, ColliderTag::Tile)
        .with_category(Category::GROUND);
    scene.colliders.insert(collider.build(bhandle), &mut scene.bodies, &mut scene.physics).unwrap();
}

fn step(scene: &mut Scene) {
    presync_system(&mut scene.world, &mut scene.bodies, &scene.colliders);
    scene.physics.step(1. / 60., &mut scene.bodies, &mut scene.colliders);
    postsync_system(&mut scene.world, &scene.bodies, &scene.colliders);
}

#[test]
fn presync_system_writes_every_mover_and_no_other_body() {
    let mut scene = scene();
    let (first_body, first_box) = body_with_box(&mut scene, 0., 0.);
    let (second_body, second_box) = body_with_box(&mut scene, 50., 0.);
    let (idle_body, _) = body_with_box(&mut scene, 90., 0.);
    let (partial_body, partial_box) = body_with_box(&mut scene, 120., 0.);
    scene.world.spawn((
        Position { src: Vec2::new(1., 2.) },
        Velocity { src: Vec2::new(3., 4.) },
        Hitbox::new(first_box),
    ));
    scene.world.spawn((
        Position { src: Vec2::new(5., 6.) },
        Velocity { src: Vec2::new(7., 8.) },
        Hitbox::new(second_box),
        OnGround::new(first_box),
    ));
    scene.world.spawn((Position { src: Vec2::new(9., 9.) }, Hitbox::new(partial_box)));
    assert!(movers_backed(&mut scene.world, &scene.bodies, &scene.colliders));
    presync_system(&mut scene.world, &mut scene.bodies, &scene.colliders);
    assert_eq!(scene.bodies[first_body].position, Vec2::new(1., 2.));
    assert_eq!(scene.bodies[first_body].velocity, Vec2::new(3., 4.));
    assert_eq!(scene.bodies[second_body].position, Vec2::new(5., 6.));
    assert_eq!(scene.bodies[second_body].velocity, Vec2::new(7., 8.));
    assert_eq!(scene.bodies[idle_body].position, Vec2::new(90., 0.));
    assert_eq!(scene.bodies[partial_body].position, Vec2::new(120., 0.));
}

#[test]
fn postsync_system_reads_every_mover_back() {
    let mut scene = scene();
    let (first_body, first_box) = body_with_box(&mut scene, 10., 20.);
    let (second_body, second_box) = body_with_box(&mut scene, 30., 40.);
    scene.bodies[first_body].velocity = Vec2::new(1., 1.);
    scene.bodies[second_body].velocity = Vec2::new(2., 2.);
    let first = scene.world.spawn((
        Position { src: Vec2::new(0., 0.) },
        Velocity { src: Vec2::new(0., 0.) },
        Hitbox::new(first_box),
    ));
    let second = scene.world.spawn((
        Position { src: Vec2::new(0., 0.) },
        Velocity { src: Vec2::new(0., 0.) },
        Hitbox::new(second_box),
    ));
    let lonely = scene.world.spawn((Position { src: Vec2::new(7., 7.) },));
    postsync_system(&mut scene.world, &scene.bodies, &scene.colliders);
    assert_eq!(scene.world.get::<&Position>(first).unwrap().src, Vec2::new(10., 20.));
    assert_eq!(scene.world.get::<&Velocity>(first).unwrap().src, Vec2::new(1., 1.));
    assert_eq!(scene.world.get::<&Position>(second).unwrap().src, Vec2::new(30., 40.));
    assert_eq!(scene.world.get::<&Velocity>(second).unwrap().src, Vec2::new(2., 2.));
    assert_eq!(scene.world.get::<&Hitbox>(second).unwrap().src, second_box);
    assert_eq!(scene.world.get::<&Position>(lonely).unwrap().src, Vec2::new(7., 7.));
}

#[test]
fn sync_systems_around_a_step_leave_a_resting_entity_alone() {
    let mut scene = scene();
    let (_, chandle) = body_with_box(&mut scene, 100., 60.);
    let resting = scene.world.spawn((
        Position { src: Vec2::new(10., 20.) },
        Velocity { src: Vec2::new(0., 0.) },
        Hitbox::new(chandle),
    ));
    step(&mut scene);
    assert_eq!(scene.world.get::<&Position>(resting).unwrap().src, Vec2::new(10., 20.));
    assert_eq!(scene.world.get::<&Velocity>(resting).unwrap().src, Vec2::new(0., 0.));
}

#[test]
fn movers_of_another_scene_are_not_backed() {
    let mut scene = scene();
    let (_, chandle) = body_with_box(&mut scene, 0., 0.);
    scene.world.spawn((
        Position { src: Vec2::new(1., 2.) },
        Velocity { src: Vec2::new(3., 4.) },
        Hitbox::new(chandle),
    ));
    let mut other = self::scene();
    assert!(!movers_backed(&mut scene.world, &other.bodies, &other.colliders));
    assert!(movers_backed(&mut other.world, &other.bodies, &other.colliders));
}

#[test]
fn ground_check_system_asks_every_sensor() {
    let mut scene = scene();
    let (standing_body, standing_box) = body_with_box(&mut scene, 100., 60.);
    let standing_sensor = sensor_under(&mut scene, standing_body);
    let (flying_body, flying_box) = body_with_box(&mut scene, 200., 10.);
    let flying_sensor = sensor_under(&mut scene, flying_body);
    platform(&mut scene, 100., 76.);
    let standing = scene.world.spawn((
        Position { src: Vec2::new(100., 60.) },
        Velocity { src: Vec2::new(0., 0.) },
        Hitbox::new(standing_box),
        OnGround { sensor_handle: standing_sensor, on_ground: false },
    ));
    let flying = scene.world.spawn((
        Position { src: Vec2::new(200., 10.) },
        Velocity { src: Vec2::new(0., 0.) },
        Hitbox::new(flying_box),
        OnGround::new(flying_sensor),
    ));
    step(&mut scene);
    assert!(sensors_tracked(&mut scene.world, &scene.physics));
    ground_check_system(&mut scene.world, &scene.physics);
    assert!(scene.world.get::<&OnGround>(standing).unwrap().on_ground);
    assert_eq!(scene.world.get::<&OnGround>(standing).unwrap().sensor_handle, standing_sensor);
    assert!(!scene.world.get::<&OnGround>(flying).unwrap().on_ground);
    assert_eq!(scene.world.get::<&Position>(standing).unwrap().src, Vec2::new(100., 60.));
}

#[test]
fn sensors_of_another_scene_are_not_tracked() {
    let mut scene = scene();
    let (body, _) = body_with_box(&mut scene, 100., 60.);
    let sensor = sensor_under(&mut scene, body);
    scene.world.spawn((OnGround::new(sensor),));
    let mut other = self::scene();
    assert!(sensors_tracked(&mut scene.world, &scene.physics));
    assert!(!sensors_tracked(&mut scene.world, &other.physics));
    assert!(sensors_tracked(&mut other.world, &other.physics));
}
