//! Gameplay components that mirror the physics engine, and the bookkeeping
//! that keeps both in step around the engine's one step per tick.
//!
//! Before the step, position and velocity of every entity with a hitbox are
//! written to the body behind the hitbox; after it they are read back. The
//! ground sensors are then asked whether they touch anything, and the
//! contacts of the step say on which axes an entity was stopped.

use crate::engine::{
    add_body, add_collider, attached, attached_colliders, body_motions, collider_owners,
    described_motion, empty_bodies, empty_colliders, empty_physics, ground_sensors, interactions,
    interactions_of, list_ground_sensors, list_movers, lists, motion_of, movers, owner_of,
    put_ground_sensor, put_motion, set_motion, tracked_colliders, tracks,
};
use glam::Vec2;
use hecs::{Entity, World};
use resphys::builder::{BodyDesc, ColliderDesc};
use resphys::{BodyHandle, ColliderHandle};
use vstd::prelude::*;

verus! {

/// The tag that every collider of the game carries for its owner's use.
#[derive(Debug, Clone, Copy)]
pub enum ColliderTag {
    Tile,
    Player,
}

/// The physics world of the game.
pub type Physics = resphys::PhysicsWorld<ColliderTag>;

/// The bodies of the game's physics world.
pub type Bodies = resphys::BodySet;

/// The colliders of the game's physics world.
pub type Colliders = resphys::ColliderSet<ColliderTag>;

/// The collision categories: what a collider is, or, in a mask, what it
/// meets. Every category is one bit.
pub struct Category;

impl Category {
    /// Level geometry.
    pub const GROUND: u32 = 0b1 << 1;

    /// The player, who has a category of their own.
    pub const PLAYER: u32 = 0b1 << 2;

    /// Enemies.
    pub const ENEMY: u32 = 0b1 << 3;
}

/// An empty physics world with its sets of bodies and colliders: nothing is
/// held, nothing is tracked, and the two sets are attached.
pub fn new_physics() -> (r: (Physics, Bodies, Colliders))
    ensures
        tracked_colliders(r.0) == Set::<ColliderHandle>::empty(),
        body_motions(r.1).dom() == Set::<BodyHandle>::empty(),
        attached_colliders(r.1) == Set::<ColliderHandle>::empty(),
        collider_owners(r.2).dom() == Set::<ColliderHandle>::empty(),
        attached(r.1, r.2),
{
    (empty_physics(), empty_bodies(), empty_colliders())
}

/// Puts the body that `desc` describes into `bodies` and returns its handle,
/// which was not in use. The body has the position and the velocity of its
/// description and lists no collider, so that whatever colliders the set was
/// attached to, it still is. No other body changes.
pub fn insert_body(bodies: &mut Bodies, desc: BodyDesc) -> (handle: BodyHandle)
    ensures
        !body_motions(*old(bodies)).contains_key(handle),
        body_motions(*final(bodies)) == body_motions(*old(bodies)).insert(
            handle,
            described_motion(desc),
        ),
        attached_colliders(*final(bodies)) == attached_colliders(*old(bodies)),
{
    add_body(bodies, desc)
}

/// Puts the collider that `desc` describes into `colliders` as a collider of
/// the body `owner`, and returns its handle. Where `bodies` does not hold
/// `owner`, nothing changes and `None` is returned. Otherwise the handle was
/// not in use, the collider is held with `owner` as its owner, `owner` lists
/// it, and the collision graph of `phys_world` tracks it; sets that were
/// attached still are, and a hitbox made of the handle is backed.
pub fn insert_collider(
    colliders: &mut Colliders,
    desc: ColliderDesc<ColliderTag>,
    owner: BodyHandle,
    bodies: &mut Bodies,
    phys_world: &mut Physics,
) -> (handle: Option<ColliderHandle>)
    ensures
        handle is Some == body_motions(*old(bodies)).contains_key(owner),
        body_motions(*final(bodies)) == body_motions(*old(bodies)),
        handle matches Some(h) ==> !collider_owners(*old(colliders)).contains_key(h),
        collider_owners(*final(colliders)) == (match handle {
            Some(h) => collider_owners(*old(colliders)).insert(h, owner),
            None => collider_owners(*old(colliders)),
        }),
        attached_colliders(*final(bodies)) == (match handle {
            Some(h) => attached_colliders(*old(bodies)).insert(h),
            None => attached_colliders(*old(bodies)),
        }),
        tracked_colliders(*final(phys_world)) == (match handle {
            Some(h) => tracked_colliders(*old(phys_world)).insert(h),
            None => tracked_colliders(*old(phys_world)),
        }),
        attached(*old(bodies), *old(colliders)) ==> attached(*final(bodies), *final(colliders)),
        handle matches Some(h) ==> backed(*final(bodies), *final(colliders), Hitbox { src: h }),
{
    add_collider(colliders, desc, owner, bodies, phys_world)
}

/// Where an entity is.
#[derive(Debug, Clone, Copy)]
pub struct Position {
    pub src: Vec2,
}

/// How fast an entity moves. Before the engine's step this is what the
/// entity intends; after it, what the engine allowed.
#[derive(Debug, Clone, Copy)]
pub struct Velocity {
    pub src: Vec2,
}

/// The collider that stands for an entity in the physics world.
#[derive(Debug, Clone, Copy)]
pub struct Hitbox {
    pub src: ColliderHandle,
}

impl Hitbox {
    /// The hitbox made of the collider `chandle`.
    pub fn new(chandle: ColliderHandle) -> (r: Self)
        ensures
            r.src == chandle,
    {
        Self { src: chandle }
    }
}

/// Position, velocity and hitbox of an entity that the physics engine
/// moves.
#[derive(Debug, Clone, Copy)]
pub struct Mover {
    pub pos: Position,
    pub vel: Velocity,
    pub hitbox: Hitbox,
}

/// Whether the collider of `hitbox` is held by `colliders` and the body that
/// owns it by `bodies`.
pub open spec fn backed(bodies: Bodies, colliders: Colliders, hitbox: Hitbox) -> bool {
    &&& collider_owners(colliders).contains_key(hitbox.src)
    &&& body_motions(bodies).contains_key(collider_owners(colliders)[hitbox.src])
}

/// Tells whether the collider of `hitbox` and the body that owns it exist.
pub fn is_backed(bodies: &Bodies, colliders: &Colliders, hitbox: &Hitbox) -> (r: bool)
    ensures
        r == backed(*bodies, *colliders, *hitbox),
{
    match owner_of(colliders, hitbox.src) {
        Some(owner) => motion_of(bodies, owner).is_some(),
        None => false,
    }
}

/// Writes position and velocity of an entity to the body behind its hitbox.
/// No other body changes.
pub fn resphys_presync(
    bodies: &mut Bodies,
    colliders: &Colliders,
    pos: &Position,
    vel: &Velocity,
    hitbox: &Hitbox,
)
    requires
        backed(*old(bodies), *colliders, *hitbox),
    ensures
        body_motions(*final(bodies)) == body_motions(*old(bodies)).insert(
            collider_owners(*colliders)[hitbox.src],
            (pos.src, vel.src),
        ),
        attached_colliders(*final(bodies)) == attached_colliders(*old(bodies)),
{
    let owner = owner_of(colliders, hitbox.src).unwrap();
    set_motion(bodies, owner, pos.src, vel.src);
}

/// Reads position and velocity of an entity back from the body behind its
/// hitbox.
pub fn resphys_postsync(
    bodies: &Bodies,
    colliders: &Colliders,
    pos: &mut Position,
    vel: &mut Velocity,
    hitbox: &Hitbox,
)
    requires
        backed(*bodies, *colliders, *hitbox),
    ensures
        final(pos).src == body_motions(*bodies)[collider_owners(*colliders)[hitbox.src]].0,
        final(vel).src == body_motions(*bodies)[collider_owners(*colliders)[hitbox.src]].1,
{
    let owner = owner_of(colliders, hitbox.src).unwrap();
    let motion = motion_of(bodies, owner).unwrap();
    pos.src = motion.0;
    vel.src = motion.1;
}

/// Round trip. Writing an entity's position and velocity to its body and
/// reading them back, with no step of the engine in between, returns both
/// unchanged.
pub proof fn law_sync_round_trip(
    before: Bodies,
    after: Bodies,
    colliders: Colliders,
    pos: Position,
    vel: Velocity,
    hitbox: Hitbox,
)
    requires
        backed(before, colliders, hitbox),
        body_motions(after) == body_motions(before).insert(
            collider_owners(colliders)[hitbox.src],
            (pos.src, vel.src),
        ),
    ensures
        backed(after, colliders, hitbox),
        body_motions(after)[collider_owners(colliders)[hitbox.src]].0 == pos.src,
        body_motions(after)[collider_owners(colliders)[hitbox.src]].1 == vel.src,
{
}

/// The body behind the hitbox of `mover`.
pub open spec fn body_of(colliders: Colliders, mover: Mover) -> BodyHandle {
    collider_owners(colliders)[mover.hitbox.src]
}

/// Whether `body` is the body of one of `movers`.
pub open spec fn driven(movers: Map<Entity, Mover>, colliders: Colliders, body: BodyHandle) -> bool {
    exists|entity: Entity|
        movers.contains_key(entity) && body_of(colliders, #[trigger] movers[entity]) == body
}

/// Whether the hitbox of every one of `movers` is backed.
pub open spec fn all_backed(movers: Map<Entity, Mover>, bodies: Bodies, colliders: Colliders) -> bool {
    forall|entity: Entity|
        movers.contains_key(entity) ==> backed(bodies, colliders, (#[trigger] movers[entity]).hitbox)
}

/// Tells whether the hitbox of every entity of `world` that has position,
/// velocity and hitbox is backed.
pub fn movers_backed(world: &mut World, bodies: &Bodies, colliders: &Colliders) -> (r: bool)
    ensures
        r == all_backed(movers(*old(world)), *bodies, *colliders),
        movers(*final(world)) == movers(*old(world)),
        ground_sensors(*final(world)) == ground_sensors(*old(world)),
{
    let listing = list_movers(world);
    let mut i: usize = 0;
    while i < listing.len()
        invariant
            i <= listing.len(),
            movers(*world) == movers(*old(world)),
            ground_sensors(*world) == ground_sensors(*old(world)),
            lists(listing@, movers(*world)),
            forall|k: int|
                0 <= k < i ==> backed(*bodies, *colliders, (#[trigger] listing@[k]).1.hitbox),
        decreases listing.len() - i,
    {
        if !is_backed(bodies, colliders, &listing[i].1.hitbox) {
            assert(movers(*world).contains_key(listing@[i as int].0));
            return false;
        }
        i += 1;
    }
    assert forall|entity: Entity| movers(*world).contains_key(entity) implies backed(
        *bodies,
        *colliders,
        (#[trigger] movers(*world)[entity]).hitbox,
    ) by {
        let k = choose|k: int| 0 <= k < listing@.len() && (#[trigger] listing@[k]).0 == entity;
        assert(backed(*bodies, *colliders, listing@[k].1.hitbox));
    }
    true
}

/// Before the step: position and velocity of every entity of `world` that
/// has position, velocity and hitbox are written to the body behind its
/// hitbox. A body that backs no such entity stays as it is.
pub fn presync_system(world: &mut World, bodies: &mut Bodies, colliders: &Colliders)
    requires
        all_backed(movers(*old(world)), *old(bodies), *colliders),
    ensures
        movers(*final(world)) == movers(*old(world)),
        ground_sensors(*final(world)) == ground_sensors(*old(world)),
        body_motions(*final(bodies)).dom() == body_motions(*old(bodies)).dom(),
        attached_colliders(*final(bodies)) == attached_colliders(*old(bodies)),
        forall|body: BodyHandle|
            #![trigger body_motions(*final(bodies))[body]]
            body_motions(*old(bodies)).contains_key(body) && !driven(
                movers(*old(world)),
                *colliders,
                body,
            ) ==> body_motions(*final(bodies))[body] == body_motions(*old(bodies))[body],
        forall|body: BodyHandle|
            #![trigger body_motions(*final(bodies))[body]]
            driven(movers(*old(world)), *colliders, body) ==> exists|entity: Entity|
                movers(*old(world)).contains_key(entity) && body_of(
                    *colliders,
                    #[trigger] movers(*old(world))[entity],
                ) == body && body_motions(*final(bodies))[body] == (
                    movers(*old(world))[entity].pos.src,
                    movers(*old(world))[entity].vel.src,
                ),
{
    let listing = list_movers(world);
    let ghost all = movers(*world);
    let ghost before = body_motions(*bodies);
    let mut i: usize = 0;
    while i < listing.len()
        invariant
            i <= listing.len(),
            all == movers(*world),
            movers(*world) == movers(*old(world)),
            ground_sensors(*world) == ground_sensors(*old(world)),
            lists(listing@, all),
            all_backed(all, *old(bodies), *colliders),
            before == body_motions(*old(bodies)),
            body_motions(*bodies).dom() == before.dom(),
            attached_colliders(*bodies) == attached_colliders(*old(bodies)),
            forall|body: BodyHandle|
                #![trigger body_motions(*bodies)[body]]
                before.contains_key(body) && (forall|k: int|
                    0 <= k < i ==> body_of(*colliders, (#[trigger] listing@[k]).1) != body)
                    ==> body_motions(*bodies)[body] == before[body],
            forall|body: BodyHandle|
                #![trigger body_motions(*bodies)[body]]
                (exists|k: int| 0 <= k < i && body_of(*colliders, (#[trigger] listing@[k]).1) == body)
                    ==> exists|k: int|
                    0 <= k < i && body_of(*colliders, (#[trigger] listing@[k]).1) == body
                        && body_motions(*bodies)[body] == (
                        listing@[k].1.pos.src,
                        listing@[k].1.vel.src,
                    ),
        decreases listing.len() - i,
    {
        let mover = listing[i].1;
        let ghost now = body_motions(*bodies);
        let ghost body_i = body_of(*colliders, mover);
        assert(all.contains_key(listing@[i as int].0));
        assert(backed(*old(bodies), *colliders, mover.hitbox));
        assert(now.contains_key(body_i));
        resphys_presync(bodies, colliders, &mover.pos, &mover.vel, &mover.hitbox);
        assert forall|body: BodyHandle|
            #![trigger body_motions(*bodies)[body]]
            before.contains_key(body) && (forall|k: int|
                0 <= k < i + 1 ==> body_of(*colliders, (#[trigger] listing@[k]).1) != body)
            implies body_motions(*bodies)[body] == before[body] by {
            assert(body_of(*colliders, listing@[i as int].1) != body);
            assert(now[body] == before[body]);
        }
        assert forall|body: BodyHandle|
            #![trigger body_motions(*bodies)[body]]
            (exists|k: int| 0 <= k < i + 1 && body_of(*colliders, (#[trigger] listing@[k]).1) == body)
            implies exists|k: int|
            0 <= k < i + 1 && body_of(*colliders, (#[trigger] listing@[k]).1) == body
                && body_motions(*bodies)[body] == (listing@[k].1.pos.src, listing@[k].1.vel.src) by {
            if body == body_i {
                assert(body_of(*colliders, listing@[i as int].1) == body);
            } else {
                let k = choose|k: int|
                    0 <= k < i + 1 && body_of(*colliders, (#[trigger] listing@[k]).1) == body;
                assert(k < i);
                let w = choose|w: int|
                    0 <= w < i && body_of(*colliders, (#[trigger] listing@[w]).1) == body
                        && now[body] == (listing@[w].1.pos.src, listing@[w].1.vel.src);
                assert(body_of(*colliders, listing@[w].1) == body);
            }
        }
        i += 1;
    }
    proof {
        assert forall|body: BodyHandle|
            #![trigger body_motions(*bodies)[body]]
            before.contains_key(body) && !driven(all, *colliders, body) implies body_motions(
                *bodies,
            )[body] == before[body] by {
            assert forall|k: int| 0 <= k < listing@.len() implies body_of(
                *colliders,
                (#[trigger] listing@[k]).1,
            ) != body by {
                assert(all.contains_key(listing@[k].0));
                assert(all[listing@[k].0] == listing@[k].1);
            }
        }
        assert forall|body: BodyHandle|
            #![trigger body_motions(*bodies)[body]]
            driven(all, *colliders, body) implies exists|entity: Entity|
            all.contains_key(entity) && body_of(*colliders, #[trigger] all[entity]) == body
                && body_motions(*bodies)[body] == (all[entity].pos.src, all[entity].vel.src) by {
            let entity = choose|entity: Entity|
                all.contains_key(entity) && body_of(*colliders, #[trigger] all[entity]) == body;
            let k = choose|k: int| 0 <= k < listing@.len() && (#[trigger] listing@[k]).0 == entity;
            assert(body_of(*colliders, listing@[k].1) == body);
            let w = choose|w: int|
                0 <= w < listing@.len() && body_of(*colliders, (#[trigger] listing@[w]).1) == body
                    && body_motions(*bodies)[body] == (
                    listing@[w].1.pos.src,
                    listing@[w].1.vel.src,
                );
            assert(all.contains_key(listing@[w].0));
            assert(all[listing@[w].0] == listing@[w].1);
        }
    }
}

/// The mover `mover` after position and velocity were read back from the
/// body behind its hitbox.
pub open spec fn read_back(mover: Mover, bodies: Bodies, colliders: Colliders) -> Mover {
    Mover {
        pos: Position { src: body_motions(bodies)[body_of(colliders, mover)].0 },
        vel: Velocity { src: body_motions(bodies)[body_of(colliders, mover)].1 },
        hitbox: mover.hitbox,
    }
}

/// After the step: position and velocity of every entity of `world` that has
/// position, velocity and hitbox are read back from the body behind its
/// hitbox.
pub fn postsync_system(world: &mut World, bodies: &Bodies, colliders: &Colliders)
    requires
        all_backed(movers(*old(world)), *bodies, *colliders),
    ensures
        movers(*final(world)) == Map::<Entity, Mover>::new(
            |entity: Entity| movers(*old(world)).contains_key(entity),
            |entity: Entity| read_back(movers(*old(world))[entity], *bodies, *colliders),
        ),
        ground_sensors(*final(world)) == ground_sensors(*old(world)),
{
    let listing = list_movers(world);
    let ghost before = movers(*world);
    let mut i: usize = 0;
    while i < listing.len()
        invariant
            i <= listing.len(),
            before == movers(*old(world)),
            lists(listing@, before),
            all_backed(before, *bodies, *colliders),
            movers(*world).dom() == before.dom(),
            ground_sensors(*world) == ground_sensors(*old(world)),
            forall|k: int|
                0 <= k < i ==> movers(*world)[(#[trigger] listing@[k]).0] == read_back(
                    listing@[k].1,
                    *bodies,
                    *colliders,
                ),
            forall|k: int|
                i <= k < listing.len() ==> movers(*world)[(#[trigger] listing@[k]).0]
                    == listing@[k].1,
        decreases listing.len() - i,
    {
        let entity = listing[i].0;
        let mover = listing[i].1;
        let mut pos = mover.pos;
        let mut vel = mover.vel;
        let ghost now = movers(*world);
        assert(before.contains_key(listing@[i as int].0));
        assert(backed(*bodies, *colliders, mover.hitbox));
        resphys_postsync(bodies, colliders, &mut pos, &mut vel, &mover.hitbox);
        assert(now.dom().contains(entity));
        put_motion(world, entity, pos, vel);
        assert(movers(*world).dom() == before.dom());
        assert forall|k: int| 0 <= k < i + 1 implies movers(*world)[(#[trigger] listing@[k]).0]
            == read_back(listing@[k].1, *bodies, *colliders) by {
            if k < i {
                assert(listing@[k].0 != listing@[i as int].0);
                assert(movers(*world)[listing@[k].0] == now[listing@[k].0]);
            }
        }
        assert forall|k: int| i + 1 <= k < listing.len() implies movers(*world)[(
        #[trigger] listing@[k]).0] == listing@[k].1 by {
            assert(listing@[i as int].0 != listing@[k].0);
            assert(movers(*world)[listing@[k].0] == now[listing@[k].0]);
        }
        i += 1;
    }
    proof {
        let expected = Map::<Entity, Mover>::new(
            |entity: Entity| before.contains_key(entity),
            |entity: Entity| read_back(before[entity], *bodies, *colliders),
        );
        assert forall|entity: Entity| before.contains_key(entity) implies #[trigger] movers(
            *world,
        )[entity] == expected[entity] by {
            let k = choose|k: int| 0 <= k < listing@.len() && (#[trigger] listing@[k]).0 == entity;
            assert(before[listing@[k].0] == listing@[k].1);
        }
        assert(movers(*world).dom() == expected.dom());
        assert(movers(*world) == expected);
    }
}

/// Round trip of the systems. Where no two movers share a body, writing
/// every mover to its body and reading every mover back, with no step of the
/// engine in between, returns every mover unchanged.
pub proof fn law_sync_systems_round_trip(
    all: Map<Entity, Mover>,
    written: Bodies,
    colliders: Colliders,
    entity: Entity,
)
    requires
        all.contains_key(entity),
        forall|a: Entity, b: Entity|
            all.contains_key(a) && all.contains_key(b) && body_of(colliders, #[trigger] all[a])
                == body_of(colliders, #[trigger] all[b]) ==> a == b,
        forall|body: BodyHandle|
            #![trigger body_motions(written)[body]]
            driven(all, colliders, body) ==> exists|e: Entity|
                all.contains_key(e) && body_of(colliders, #[trigger] all[e]) == body
                    && body_motions(written)[body] == (all[e].pos.src, all[e].vel.src),
    ensures
        read_back(all[entity], written, colliders) == all[entity],
{
    let body = body_of(colliders, all[entity]);
    assert(driven(all, colliders, body));
    let e = choose|e: Entity|
        all.contains_key(e) && body_of(colliders, #[trigger] all[e]) == body && body_motions(
            written,
        )[body] == (all[e].pos.src, all[e].vel.src);
    assert(e == entity);
}

/// A constant pull on an entity.
#[derive(Debug)]
pub struct Gravity {
    enabled: bool,
    strength: Vec2,
}

impl Gravity {
    /// Whether the pull acts.
    pub closed spec fn spec_enabled(&self) -> bool {
        self.enabled
    }

    /// The change of velocity that the pull causes per tick.
    pub closed spec fn spec_strength(&self) -> Vec2 {
        self.strength
    }

    /// A pull of `strength` that acts.
    pub fn new(strength: Vec2) -> (r: Self)
        ensures
            r.spec_enabled(),
            r.spec_strength() == strength,
    {
        Self { strength, enabled: true }
    }

    /// Whether the pull acts.
    #[verifier::when_used_as_spec(spec_enabled)]
    pub fn enabled(&self) -> (r: bool)
        ensures
            r == self.spec_enabled(),
    {
        self.enabled
    }

    /// The change of velocity that the pull causes per tick.
    #[verifier::when_used_as_spec(spec_strength)]
    pub fn strength(&self) -> (r: Vec2)
        ensures
            r == self.spec_strength(),
    {
        self.strength
    }
}

/// The ground sensor of an entity: a thin collider just below the entity's
/// own, which meets ground only, and what it last reported.
#[derive(Debug, Clone, Copy)]
pub struct OnGround {
    pub sensor_handle: ColliderHandle,
    pub on_ground: bool,
}

impl OnGround {
    /// The ground state of an entity whose sensor is `sensor_handle`. Until
    /// the sensor was asked, the entity counts as standing on ground.
    pub fn new(sensor_handle: ColliderHandle) -> (r: Self)
        ensures
            r.sensor_handle == sensor_handle,
            r.on_ground,
    {
        Self { sensor_handle, on_ground: true }
    }
}

/// Whether the sensor `sensor` touched anything in the last step of `world`.
pub open spec fn touching(world: Physics, sensor: ColliderHandle) -> bool {
    interactions(world, sensor).len() > 0
}

/// Tells whether the collision graph of `phys_world` knows the sensor of
/// `ground`.
pub fn is_tracked(ground: &OnGround, phys_world: &Physics) -> (r: bool)
    ensures
        r == tracked_colliders(*phys_world).contains(ground.sensor_handle),
{
    tracks(phys_world, ground.sensor_handle)
}

/// Asks the sensor of `ground` whether it touched anything in the step just
/// made, and records the answer.
pub fn ground_check(ground: &mut OnGround, phys_world: &Physics)
    requires
        tracked_colliders(*phys_world).contains(old(ground).sensor_handle),
    ensures
        final(ground).sensor_handle == old(ground).sensor_handle,
        final(ground).on_ground == touching(*phys_world, old(ground).sensor_handle),
{
    let others = interactions_of(phys_world, ground.sensor_handle);
    ground.on_ground = others.len() > 0;
}

/// The ground sensor `ground` after it was asked in `phys_world`.
pub open spec fn asked(ground: OnGround, phys_world: Physics) -> OnGround {
    OnGround {
        sensor_handle: ground.sensor_handle,
        on_ground: touching(phys_world, ground.sensor_handle),
    }
}

/// Whether the collision graph of `phys_world` knows every one of `sensors`.
pub open spec fn all_tracked(sensors: Map<Entity, OnGround>, phys_world: Physics) -> bool {
    forall|entity: Entity|
        sensors.contains_key(entity) ==> tracked_colliders(phys_world).contains(
            (#[trigger] sensors[entity]).sensor_handle,
        )
}

/// Tells whether the collision graph of `phys_world` knows the ground sensor
/// of every entity of `world` that has one.
pub fn sensors_tracked(world: &mut World, phys_world: &Physics) -> (r: bool)
    ensures
        r == all_tracked(ground_sensors(*old(world)), *phys_world),
        ground_sensors(*final(world)) == ground_sensors(*old(world)),
        movers(*final(world)) == movers(*old(world)),
{
    let listing = list_ground_sensors(world);
    let mut i: usize = 0;
    while i < listing.len()
        invariant
            i <= listing.len(),
            ground_sensors(*world) == ground_sensors(*old(world)),
            movers(*world) == movers(*old(world)),
            lists(listing@, ground_sensors(*world)),
            forall|k: int|
                0 <= k < i ==> tracked_colliders(*phys_world).contains(
                    (#[trigger] listing@[k]).1.sensor_handle,
                ),
        decreases listing.len() - i,
    {
        if !is_tracked(&listing[i].1, phys_world) {
            assert(ground_sensors(*world).contains_key(listing@[i as int].0));
            return false;
        }
        i += 1;
    }
    assert forall|entity: Entity|
        ground_sensors(*world).contains_key(entity) implies tracked_colliders(
        *phys_world,
    ).contains((#[trigger] ground_sensors(*world)[entity]).sensor_handle) by {
        let k = choose|k: int| 0 <= k < listing@.len() && (#[trigger] listing@[k]).0 == entity;
        assert(tracked_colliders(*phys_world).contains(listing@[k].1.sensor_handle));
    }
    true
}

/// After the step: the ground sensor of every entity of `world` that has
/// one is asked whether it touched anything, and records the answer.
pub fn ground_check_system(world: &mut World, phys_world: &Physics)
    requires
        all_tracked(ground_sensors(*old(world)), *phys_world),
    ensures
        ground_sensors(*final(world)) == Map::<Entity, OnGround>::new(
            |entity: Entity| ground_sensors(*old(world)).contains_key(entity),
            |entity: Entity| asked(ground_sensors(*old(world))[entity], *phys_world),
        ),
        movers(*final(world)) == movers(*old(world)),
{
    let listing = list_ground_sensors(world);
    let ghost before = ground_sensors(*world);
    let mut i: usize = 0;
    while i < listing.len()
        invariant
            i <= listing.len(),
            before == ground_sensors(*old(world)),
            lists(listing@, before),
            all_tracked(before, *phys_world),
            ground_sensors(*world).dom() == before.dom(),
            movers(*world) == movers(*old(world)),
            forall|k: int|
                0 <= k < i ==> ground_sensors(*world)[(#[trigger] listing@[k]).0] == asked(
                    listing@[k].1,
                    *phys_world,
                ),
            forall|k: int|
                i <= k < listing.len() ==> ground_sensors(*world)[(#[trigger] listing@[k]).0]
                    == listing@[k].1,
        decreases listing.len() - i,
    {
        let entity = listing[i].0;
        let mut ground = listing[i].1;
        let ghost now = ground_sensors(*world);
        assert(before.contains_key(listing@[i as int].0));
        assert(tracked_colliders(*phys_world).contains(before[entity].sensor_handle));
        ground_check(&mut ground, phys_world);
        assert(now.dom().contains(entity));
        put_ground_sensor(world, entity, ground);
        assert(ground_sensors(*world).dom() == before.dom());
        assert forall|k: int| 0 <= k < i + 1 implies ground_sensors(*world)[(
        #[trigger] listing@[k]).0] == asked(listing@[k].1, *phys_world) by {
            if k < i {
                assert(listing@[k].0 != listing@[i as int].0);
                assert(ground_sensors(*world)[listing@[k].0] == now[listing@[k].0]);
            }
        }
        assert forall|k: int| i + 1 <= k < listing.len() implies ground_sensors(*world)[(
        #[trigger] listing@[k]).0] == listing@[k].1 by {
            assert(listing@[i as int].0 != listing@[k].0);
            assert(ground_sensors(*world)[listing@[k].0] == now[listing@[k].0]);
        }
        i += 1;
    }
    proof {
        let expected = Map::<Entity, OnGround>::new(
            |entity: Entity| before.contains_key(entity),
            |entity: Entity| asked(before[entity], *phys_world),
        );
        assert forall|entity: Entity| before.contains_key(entity) implies #[trigger] ground_sensors(
            *world,
        )[entity] == expected[entity] by {
            let k = choose|k: int| 0 <= k < listing@.len() && (#[trigger] listing@[k]).0 == entity;
            assert(before[listing@[k].0] == listing@[k].1);
        }
        assert(ground_sensors(*world).dom() == expected.dom());
        assert(ground_sensors(*world) == expected);
    }
}

/// The axis along which a contact stopped an entity.
#[derive(Debug, Clone, Copy, PartialEq, Eq, Structural)]
pub enum Axis {
    /// The contact's normal has a horizontal part.
    X,
    /// The contact's normal is vertical.
    Y,
}

/// The components of a velocity that the contacts of a step cancel.
#[derive(Debug, Clone, Copy, PartialEq, Eq, Structural)]
pub struct Reset {
    /// The horizontal component becomes zero.
    pub x: bool,
    /// The vertical component becomes zero.
    pub y: bool,
}

/// Which components of an entity's velocity the contacts of the step just
/// made cancel: each contact cancels the component along its axis, and a
/// component that no contact cancels stays as it is.
pub fn reset_velocity(contacts: &Vec<Axis>) -> (r: Reset)
    ensures
        r.x <==> contacts@.contains(Axis::X),
        r.y <==> contacts@.contains(Axis::Y),
{
    let mut reset = Reset { x: false, y: false };
    let mut i: usize = 0;
    while i < contacts.len()
        invariant
            i <= contacts.len(),
            reset.x <==> contacts@.take(i as int).contains(Axis::X),
            reset.y <==> contacts@.take(i as int).contains(Axis::Y),
        decreases contacts.len() - i,
    {
        let ghost seen = contacts@.take(i as int);
        let ghost more = contacts@.take(i + 1);
        assert(more == seen.push(contacts@[i as int]));
        assert(forall|a: Axis| more.contains(a) <==> seen.contains(a) || a == contacts@[i as int])
            by {
            assert forall|a: Axis| more.contains(a) implies seen.contains(a) || a == contacts@[i as int] by {
                let k = choose|k: int| 0 <= k < more.len() && more[k] == a;
                if k < i {
                    assert(seen[k] == a);
                }
            }
            assert forall|a: Axis| seen.contains(a) || a == contacts@[i as int] implies more.contains(
                a,
            ) by {
                if seen.contains(a) {
                    let k = choose|k: int| 0 <= k < seen.len() && seen[k] == a;
                    assert(more[k] == a);
                } else {
                    assert(more[i as int] == a);
                }
            }
        }
        match contacts[i] {
            Axis::X => {
                reset.x = true;
            },
            Axis::Y => {
                reset.y = true;
            },
        }
        i += 1;
    }
    assert(contacts@.take(i as int) == contacts@);
    reset
}

} // verus!
