//! The boundary to the outside crates that the gameplay code lives with: the
//! physics engine, the vector type that it shares with the game, the
//! component store and its entity ids, and the hasher of the map from bodies
//! to entities.
//!
//! Nothing in this module is proved. Every item states what the outside
//! code is relied upon to do; the rest of the crate is verified against
//! these statements.

use crate::phx::{
    Bodies, ColliderTag, Colliders, Hitbox, Mover, OnGround, Physics, Position, Velocity,
};
use fxhash::{FxHashMap, FxHasher};
use glam::Vec2;
use hecs::{Entity, World};
use resphys::builder::{BodyDesc, ColliderDesc};
use resphys::{BodyHandle, ColliderHandle};
use std::hash::BuildHasherDefault;
use vstd::prelude::*;

verus! {

/// `glam::Vec2`: a pair of floating-point coordinates. The crate carries such
/// values between the game and the engine and never looks inside.
#[verifier::external_type_specification]
#[verifier::external_body]
pub struct ExVec2(Vec2);

/// `hecs::Entity`: the id of an entity of the component store.
#[verifier::external_type_specification]
#[verifier::external_body]
pub struct ExEntity(Entity);

/// `hecs::World`: the component store.
#[verifier::external_type_specification]
#[verifier::external_body]
pub struct ExWorld(World);

/// `resphys::BodyHandle`: the id of a body in a `resphys::BodySet`.
#[verifier::external_type_specification]
#[verifier::external_body]
pub struct ExBodyHandle(BodyHandle);

/// `resphys::ColliderHandle`: the id of a collider in a
/// `resphys::ColliderSet`.
#[verifier::external_type_specification]
#[verifier::external_body]
pub struct ExColliderHandle(ColliderHandle);

/// `resphys::BodySet`: the bodies of the physics world.
#[verifier::external_type_specification]
#[verifier::external_body]
pub struct ExBodySet(resphys::BodySet);

/// `resphys::ColliderSet`: the colliders of the physics world.
#[verifier::external_type_specification]
#[verifier::external_body]
#[verifier::reject_recursive_types(T)]
pub struct ExColliderSet<T>(resphys::ColliderSet<T>);

/// `resphys::PhysicsWorld`: the collision graph and the events of the last
/// step.
#[verifier::external_type_specification]
#[verifier::external_body]
#[verifier::reject_recursive_types(T)]
pub struct ExPhysicsWorld<T>(resphys::PhysicsWorld<T>);

/// `resphys::builder::BodyDesc`: the description of a body that is not in a
/// set yet.
#[verifier::external_type_specification]
#[verifier::external_body]
pub struct ExBodyDesc(BodyDesc);

/// `resphys::builder::ColliderDesc`: the description of a collider that has
/// no owner yet.
#[verifier::external_type_specification]
#[verifier::external_body]
#[verifier::reject_recursive_types(T)]
pub struct ExColliderDesc<T>(ColliderDesc<T>);

/// `fxhash::FxHasher`: the hasher of the crate's maps, here and in the frame
/// timer's histogram.
#[verifier::external_type_specification]
#[verifier::external_body]
pub struct ExFxHasher(FxHasher);

/// `std::hash::BuildHasherDefault`: makes hashers by `Default`.
#[verifier::external_type_specification]
#[verifier::external_body]
#[verifier::reject_recursive_types(H)]
pub struct ExBuildHasherDefault<H>(BuildHasherDefault<H>);

/// The owner of every collider that `colliders` holds, by the collider's
/// handle.
pub uninterp spec fn collider_owners(colliders: Colliders) -> Map<
    ColliderHandle,
    BodyHandle,
>;

/// Position and velocity, in this order, of every body that `bodies` holds,
/// by the body's handle.
pub uninterp spec fn body_motions(bodies: Bodies) -> Map<BodyHandle, (Vec2, Vec2)>;

/// The handles of the colliders that the bodies of `bodies` list as their
/// own.
pub uninterp spec fn attached_colliders(bodies: Bodies) -> Set<ColliderHandle>;

/// The handles of the colliders that the collision graph of `world` was told
/// of.
pub uninterp spec fn tracked_colliders(world: Physics) -> Set<ColliderHandle>;

/// What `resphys::PhysicsWorld::overlap_test` yields, in its order, for the
/// box with centre `position` and half extents `half_exts` and for the
/// category mask `mask`, on `bodies` and `colliders`.
pub uninterp spec fn overlap_hits(
    bodies: Bodies,
    colliders: Colliders,
    position: Vec2,
    half_exts: Vec2,
    mask: u32,
) -> Seq<ColliderHandle>;

/// The colliders that `resphys::PhysicsWorld::interactions_of` yields for
/// `handle`, in its order: those with which the collider collided or
/// overlapped in the last step of `world`.
pub uninterp spec fn interactions(world: Physics, handle: ColliderHandle) -> Seq<
    ColliderHandle,
>;

/// Whether the colliders that the bodies of `bodies` list are all held by
/// `colliders`, as they are when both sets were only ever changed through
/// the engine.
pub open spec fn attached(bodies: Bodies, colliders: Colliders) -> bool {
    attached_colliders(bodies).subset_of(collider_owners(colliders).dom())
}

/// Position and velocity, in this order, of the body that
/// `resphys::builder::BodyDesc::build` makes of `desc`.
pub uninterp spec fn described_motion(desc: BodyDesc) -> (Vec2, Vec2);

/// `resphys::BodySet::new`: a set without bodies.
#[verifier::external_body]
pub(crate) fn empty_bodies() -> (bodies: Bodies)
    ensures
        body_motions(bodies).dom() == Set::<BodyHandle>::empty(),
        attached_colliders(bodies) == Set::<ColliderHandle>::empty(),
{
    resphys::BodySet::new()
}

/// `resphys::ColliderSet::new`: a set without colliders.
#[verifier::external_body]
pub(crate) fn empty_colliders() -> (colliders: Colliders)
    ensures
        collider_owners(colliders).dom() == Set::<ColliderHandle>::empty(),
{
    resphys::ColliderSet::new()
}

/// `resphys::PhysicsWorld::new`: a world whose collision graph was told of
/// no collider.
#[verifier::external_body]
pub(crate) fn empty_physics() -> (world: Physics)
    ensures
        tracked_colliders(world) == Set::<ColliderHandle>::empty(),
{
    resphys::PhysicsWorld::new()
}

/// `resphys::BodySet::insert` of the body that
/// `resphys::builder::BodyDesc::build` makes of `desc`: the body is held
/// under a handle that was not in use, and lists no collider. No other body
/// changes.
#[verifier::external_body]
pub(crate) fn add_body(bodies: &mut Bodies, desc: BodyDesc) -> (handle: BodyHandle)
    ensures
        !body_motions(*old(bodies)).contains_key(handle),
        body_motions(*final(bodies)) == body_motions(*old(bodies)).insert(
            handle,
            described_motion(desc),
        ),
        attached_colliders(*final(bodies)) == attached_colliders(*old(bodies)),
{
    bodies.insert(desc.build())
}

/// `resphys::ColliderSet::insert` of the collider that
/// `resphys::builder::ColliderDesc::build` makes of `desc` for `owner`.
/// Where `bodies` does not hold `owner`, nothing changes and `None` comes
/// back. Otherwise the collider is held under a handle that was not in use,
/// its owner lists it, and the collision graph is told of it. No body moves.
#[verifier::external_body]
pub(crate) fn add_collider(
    colliders: &mut Colliders,
    desc: ColliderDesc<ColliderTag>,
    owner: BodyHandle,
    bodies: &mut Bodies,
    world: &mut Physics,
) -> (handle: Option<ColliderHandle>)
    ensures
        handle is Some == body_motions(*old(bodies)).contains_key(owner),
        body_motions(*final(bodies)) == body_motions(*old(bodies)),
        handle matches Some(h) ==> !collider_owners(*old(colliders)).contains_key(h),
        collider_owners(*final(colliders)) == (match handle {
            Some(h) => collider_owners(*old(colliders)).insert(h, owner),
            None => collider_owners(*old(colliders)),
        }),
        attached_colliders(*final(bodies)) == (match handle {
            Some(h) => attached_colliders(*old(bodies)).insert(h),
            None => attached_colliders(*old(bodies)),
        }),
        tracked_colliders(*final(world)) == (match handle {
            Some(h) => tracked_colliders(*old(world)).insert(h),
            None => tracked_colliders(*old(world)),
        }),
{
    colliders.insert(desc.build(owner), bodies, world)
}

/// `resphys::ColliderSet::get`, reduced to the owner of the collider: `None`
/// for a handle that the set does not hold.
#[verifier::external_body]
pub(crate) fn owner_of(colliders: &Colliders, handle: ColliderHandle) -> (owner:
    Option<BodyHandle>)
    ensures
        owner == (if collider_owners(*colliders).contains_key(handle) {
            Some(collider_owners(*colliders)[handle])
        } else {
            None
        }),
{
    colliders.get(handle).map(|collider| collider.owner)
}

/// `resphys::BodySet::get`, reduced to the position and the velocity of the
/// body: `None` for a handle that the set does not hold.
#[verifier::external_body]
pub(crate) fn motion_of(bodies: &Bodies, handle: BodyHandle) -> (motion: Option<(Vec2, Vec2)>)
    ensures
        motion == (if body_motions(*bodies).contains_key(handle) {
            Some(body_motions(*bodies)[handle])
        } else {
            None
        }),
{
    bodies.get(handle).map(|body| (body.position, body.velocity))
}

/// The index of `resphys::BodySet` by a handle, followed by writes to the
/// fields `position` and `velocity` of the body. The index panics on a handle
/// that the set does not hold: the precondition rules that out. No other body
/// changes, nor the colliders that any body lists.
#[verifier::external_body]
pub(crate) fn set_motion(bodies: &mut Bodies, handle: BodyHandle, position: Vec2, velocity: Vec2)
    requires
        body_motions(*old(bodies)).contains_key(handle),
    ensures
        body_motions(*final(bodies)) == body_motions(*old(bodies)).insert(
            handle,
            (position, velocity),
        ),
        attached_colliders(*final(bodies)) == attached_colliders(*old(bodies)),
{
    let body = &mut bodies[handle];
    body.position = position;
    body.velocity = velocity;
}

/// `resphys::PhysicsWorld::overlap_test`, collected. The engine looks up in
/// `colliders` every collider that a body of `bodies` lists, and panics on
/// one that is missing: the precondition rules that out. Every handle that
/// comes back is both listed by a body and held by `colliders`.
#[verifier::external_body]
pub(crate) fn overlap_test(
    world: &Physics,
    position: Vec2,
    half_exts: Vec2,
    mask: u32,
    bodies: &Bodies,
    colliders: &Colliders,
) -> (hits: Vec<ColliderHandle>)
    requires
        attached(*bodies, *colliders),
    ensures
        hits@ == overlap_hits(*bodies, *colliders, position, half_exts, mask),
        forall|i: int|
            0 <= i < hits@.len() ==> attached_colliders(*bodies).contains(#[trigger] hits@[i])
                && collider_owners(*colliders).contains_key(hits@[i]),
{
    world.overlap_test(position, half_exts, mask, bodies, colliders).collect()
}

/// `resphys::PhysicsWorld::interactions_of`, reduced to the handles of the
/// other colliders and collected. The engine panics on a handle that its
/// collision graph was never told of: the precondition rules that out.
#[verifier::external_body]
pub(crate) fn interactions_of(world: &Physics, handle: ColliderHandle) -> (others:
    Vec<ColliderHandle>)
    requires
        tracked_colliders(*world).contains(handle),
    ensures
        others@ == interactions(*world, handle),
{
    world.interactions_of(handle).map(|(other, _)| other).collect()
}

/// The collision graph of `resphys::PhysicsWorld`, asked whether it was told
/// of a collider: the public map from handles to nodes is asked for the
/// handle.
#[verifier::external_body]
pub(crate) fn tracks(world: &Physics, handle: ColliderHandle) -> (known: bool)
    ensures
        known == tracked_colliders(*world).contains(handle),
{
    world.collision_graph.binding.contains_key(&handle)
}

/// The ground sensor of every entity of `world` that has one, by entity.
pub uninterp spec fn ground_sensors(world: World) -> Map<Entity, OnGround>;

/// Position, velocity and hitbox of every entity of `world` that has all
/// three, by entity.
pub uninterp spec fn movers(world: World) -> Map<Entity, Mover>;

/// Whether `listing` lists the entries of `map`: every pair of the listing is
/// an entry, no entity is listed twice, and every entry is listed.
pub open spec fn lists<V>(listing: Seq<(Entity, V)>, map: Map<Entity, V>) -> bool {
    &&& forall|i: int|
        0 <= i < listing.len() ==> map.contains_key((#[trigger] listing[i]).0)
            && map[listing[i].0] == listing[i].1
    &&& forall|i: int, j: int|
        0 <= i < j < listing.len() ==> (#[trigger] listing[i]).0 != (#[trigger] listing[j]).0
    &&& forall|entity: Entity| #[trigger]
        map.contains_key(entity) ==> exists|i: int|
            0 <= i < listing.len() && (#[trigger] listing[i]).0 == entity
}

/// `hecs::World::query_mut` for the entities with a ground sensor, copied
/// out of the store: every such entity comes once, in no order that the
/// store promises. The store is borrowed uniquely, so no borrow of a
/// component can be in the way, and it is left as it was.
#[verifier::external_body]
pub(crate) fn list_ground_sensors(world: &mut World) -> (listing: Vec<(Entity, OnGround)>)
    ensures
        lists(listing@, ground_sensors(*old(world))),
        ground_sensors(*final(world)) == ground_sensors(*old(world)),
        movers(*final(world)) == movers(*old(world)),
{
    world.query_mut::<(Entity, &OnGround)>().into_iter().map(
        |(entity, ground)| (entity, *ground),
    ).collect()
}

/// `hecs::World::query_one_mut` for the ground sensor of one entity, which is
/// overwritten. The entity must have one. Nothing else in the store changes.
#[verifier::external_body]
pub(crate) fn put_ground_sensor(world: &mut World, entity: Entity, ground: OnGround)
    requires
        ground_sensors(*old(world)).contains_key(entity),
    ensures
        ground_sensors(*final(world)) == ground_sensors(*old(world)).insert(entity, ground),
        movers(*final(world)) == movers(*old(world)),
{
    *world.query_one_mut::<&mut OnGround>(entity).unwrap() = ground;
}

/// `hecs::World::query_mut` for the entities with position, velocity and
/// hitbox, copied out of the store: every such entity comes once, in no
/// order that the store promises. The store is borrowed uniquely, so no
/// borrow of a component can be in the way, and it is left as it was.
#[verifier::external_body]
pub(crate) fn list_movers(world: &mut World) -> (listing: Vec<(Entity, Mover)>)
    ensures
        lists(listing@, movers(*old(world))),
        movers(*final(world)) == movers(*old(world)),
        ground_sensors(*final(world)) == ground_sensors(*old(world)),
{
    world.query_mut::<(Entity, &Position, &Velocity, &Hitbox)>().into_iter().map(
        |(entity, pos, vel, hitbox)| (entity, Mover { pos: *pos, vel: *vel, hitbox: *hitbox }),
    ).collect()
}

/// `hecs::World::query_one_mut` for position and velocity of one entity,
/// which are overwritten. The entity must have position, velocity and
/// hitbox. Nothing else in the store changes.
#[verifier::external_body]
pub(crate) fn put_motion(world: &mut World, entity: Entity, pos: Position, vel: Velocity)
    requires
        movers(*old(world)).contains_key(entity),
    ensures
        movers(*final(world)) == movers(*old(world)).insert(
            entity,
            Mover { pos, vel, hitbox: movers(*old(world))[entity].hitbox },
        ),
        ground_sensors(*final(world)) == ground_sensors(*old(world)),
{
    let (stored_pos, stored_vel) =
        world.query_one_mut::<(&mut Position, &mut Velocity)>(entity).unwrap();
    *stored_pos = pos;
    *stored_vel = vel;
}

/// The map from the bodies of the physics world to the entities that own
/// them.
pub type BodyEntityMap = FxHashMap<BodyHandle, Entity>;

/// `HashMap::get` on a [`BodyEntityMap`], copied out of the map.
#[verifier::external_body]
pub(crate) fn entity_of(map: &BodyEntityMap, body: BodyHandle) -> (entity: Option<Entity>)
    ensures
        entity == (if map@.contains_key(body) {
            Some(map@[body])
        } else {
            None
        }),
{
    map.get(&body).copied()
}

} // verus!
