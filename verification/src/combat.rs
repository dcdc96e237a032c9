//! Deferred hurt and damage events.
//!
//! An attack does not look for its victims at once. It leaves a [`HurtInfo`]
//! in the [`HurtQueue`]; once per tick, after the physics step,
//! [`spread_pain_system`] asks the engine which colliders each probe box
//! overlaps and turns every hit whose body belongs to an entity into a
//! [`DamageEvent`]. The [`DamageQueue`] is drained once per tick by whoever
//! applies the damage, and [`damage_outcome`] says what an event does to its
//! target.

use crate::engine::{collider_owners, entity_of, overlap_hits, overlap_test, owner_of, attached, BodyEntityMap};
use crate::phx::{Bodies, Colliders, Physics};
use glam::Vec2;
use hecs::Entity;
use resphys::{BodyHandle, ColliderHandle};
use vstd::prelude::*;

verus! {

/// One entity hit another.
#[derive(Debug, Clone, Copy)]
pub struct DamageEvent {
    /// The attacker.
    pub input: Entity,
    /// The entity that was hit.
    pub output: Entity,
}

/// The damage events of the current tick, oldest first.
pub struct DamageQueue {
    events: Vec<DamageEvent>,
}

impl View for DamageQueue {
    type V = Seq<DamageEvent>;

    closed spec fn view(&self) -> Seq<DamageEvent> {
        self.events@
    }
}

impl DamageQueue {
    /// An empty queue.
    pub fn new() -> (r: Self)
        ensures
            r@ == Seq::<DamageEvent>::empty(),
    {
        Self { events: Vec::with_capacity(128) }
    }

    /// Appends `damage_event`.
    pub fn push(&mut self, damage_event: DamageEvent)
        ensures
            final(self)@ == old(self)@.push(damage_event),
    {
        self.events.push(damage_event);
    }

    /// The number of events that wait.
    pub fn len(&self) -> (r: usize)
        ensures
            r == self@.len(),
    {
        self.events.len()
    }

    /// Takes all events out of the queue, oldest first, and leaves it empty.
    pub fn drain(&mut self) -> (events: Vec<DamageEvent>)
        ensures
            events@ == old(self)@,
            final(self)@ == Seq::<DamageEvent>::empty(),
    {
        let mut events: Vec<DamageEvent> = Vec::new();
        std::mem::swap(&mut events, &mut self.events);
        events
    }
}

/// A request to hurt whatever a probe box overlaps.
#[derive(Debug, Clone, Copy)]
pub struct HurtInfo {
    /// The entity that attacks.
    pub attacker: Entity,
    /// The centre of the probe box, in world coordinates.
    pub position: Vec2,
    /// Half the width and half the height of the probe box.
    pub half_exts: Vec2,
    /// The categories that the probe hits.
    pub mask: u32,
}

/// The hurt requests of the current tick, and those that the last resolution
/// handled, kept for inspection.
pub struct HurtQueue {
    msgs: Vec<HurtInfo>,
    /// The requests that the last resolution handled, oldest first.
    pub copy_msgs: Vec<HurtInfo>,
}

impl HurtQueue {
    /// The requests that wait for the next resolution, oldest first.
    pub closed spec fn pending(&self) -> Seq<HurtInfo> {
        self.msgs@
    }

    /// The requests that the last resolution handled, oldest first: what
    /// `copy_msgs` holds.
    pub closed spec fn previous(&self) -> Seq<HurtInfo> {
        self.copy_msgs@
    }

    /// A queue without requests.
    pub fn new() -> (r: Self)
        ensures
            r.pending() == Seq::<HurtInfo>::empty(),
            r.previous() == Seq::<HurtInfo>::empty(),
    {
        Self { msgs: Vec::with_capacity(128), copy_msgs: Vec::with_capacity(128) }
    }

    /// Appends `hurt_info` to the requests that wait. Nothing is resolved
    /// yet.
    pub fn push(&mut self, hurt_info: HurtInfo)
        ensures
            final(self).pending() == old(self).pending().push(hurt_info),
            final(self).previous() == old(self).previous(),
    {
        self.msgs.push(hurt_info);
    }

    /// The number of requests that wait.
    pub fn len(&self) -> (r: usize)
        ensures
            r == self.pending().len(),
    {
        self.msgs.len()
    }
}

/// The damage events that the hits `hits` of one probe cause for `attacker`,
/// in the order of the hits: a hit on a collider whose body belongs to an
/// entity hurts that entity; any other hit hurts nobody.
pub open spec fn events_for(
    attacker: Entity,
    hits: Seq<ColliderHandle>,
    owners: Map<ColliderHandle, BodyHandle>,
    entities: Map<BodyHandle, Entity>,
) -> Seq<DamageEvent>
    decreases hits.len(),
{
    if hits.len() == 0 {
        Seq::empty()
    } else {
        let earlier = events_for(attacker, hits.drop_last(), owners, entities);
        let hit = hits.last();
        if owners.contains_key(hit) && entities.contains_key(owners[hit]) {
            earlier.push(DamageEvent { input: attacker, output: entities[owners[hit]] })
        } else {
            earlier
        }
    }
}

/// The damage events that the requests `msgs` cause, request by request, when
/// the engine answers each probe on `bodies` and `colliders`.
pub open spec fn pain_of(
    msgs: Seq<HurtInfo>,
    bodies: Bodies,
    colliders: Colliders,
    entities: Map<BodyHandle, Entity>,
) -> Seq<DamageEvent>
    decreases msgs.len(),
{
    if msgs.len() == 0 {
        Seq::empty()
    } else {
        let msg = msgs.last();
        pain_of(msgs.drop_last(), bodies, colliders, entities) + events_for(
            msg.attacker,
            overlap_hits(bodies, colliders, msg.position, msg.half_exts, msg.mask),
            collider_owners(colliders),
            entities,
        )
    }
}

/// Turns the hits of one probe into damage events: for every hit, in order,
/// the body that owns the collider is looked up, then the entity that owns
/// the body, and where there is one, an event from `attacker` to it is
/// appended to `damage_queue`.
pub fn resolve_hits(
    attacker: Entity,
    hits: &Vec<ColliderHandle>,
    damage_queue: &mut DamageQueue,
    colliders: &Colliders,
    body_entity_map: &BodyEntityMap,
)
    ensures
        final(damage_queue)@ == old(damage_queue)@ + events_for(
            attacker,
            hits@,
            collider_owners(*colliders),
            body_entity_map@,
        ),
{
    let ghost owners = collider_owners(*colliders);
    let mut i: usize = 0;
    assert(hits@.take(0) == Seq::<ColliderHandle>::empty());
    assert(damage_queue@ + Seq::<DamageEvent>::empty() == damage_queue@);
    while i < hits.len()
        invariant
            i <= hits.len(),
            owners == collider_owners(*colliders),
            damage_queue@ == old(damage_queue)@ + events_for(
                attacker,
                hits@.take(i as int),
                owners,
                body_entity_map@,
            ),
        decreases hits.len() - i,
    {
        let ghost seen = hits@.take(i + 1);
        assert(seen.drop_last() == hits@.take(i as int));
        assert(seen.last() == hits@[i as int]);
        let ghost earlier = events_for(attacker, hits@.take(i as int), owners, body_entity_map@);
        if let Some(owner) = owner_of(colliders, hits[i]) {
            if let Some(defender) = entity_of(body_entity_map, owner) {
                let event = DamageEvent { input: attacker, output: defender };
                assert((old(damage_queue)@ + earlier).push(event) == old(damage_queue)@
                    + earlier.push(event));
                damage_queue.push(event);
            }
        }
        i += 1;
    }
    assert(hits@.take(i as int) == hits@);
}

/// Resolves the hurt requests of the tick. Every request that waits is
/// answered by the engine's overlap test, and its hits become damage events
/// in `damage_queue`, request by request and hit by hit. Afterwards no request
/// waits, and the requests just handled are kept in `copy_msgs` in place of
/// those of the tick before.
pub fn spread_pain_system(
    hurt_queue: &mut HurtQueue,
    damage_queue: &mut DamageQueue,
    phys_world: &Physics,
    bodies: &Bodies,
    colliders: &Colliders,
    body_entity_map: &BodyEntityMap,
)
    requires
        attached(*bodies, *colliders),
    ensures
        final(hurt_queue).pending() == Seq::<HurtInfo>::empty(),
        final(hurt_queue).previous() == old(hurt_queue).pending(),
        final(damage_queue)@ == old(damage_queue)@ + pain_of(
            old(hurt_queue).pending(),
            *bodies,
            *colliders,
            body_entity_map@,
        ),
{
    hurt_queue.copy_msgs.clear();
    let mut i: usize = 0;
    assert(hurt_queue.msgs@.take(0) == Seq::<HurtInfo>::empty());
    assert(damage_queue@ + Seq::<DamageEvent>::empty() == damage_queue@);
    while i < hurt_queue.msgs.len()
        invariant
            i <= hurt_queue.msgs.len(),
            hurt_queue.msgs@ == old(hurt_queue).msgs@,
            hurt_queue.copy_msgs@ == Seq::<HurtInfo>::empty(),
            attached(*bodies, *colliders),
            damage_queue@ == old(damage_queue)@ + pain_of(
                hurt_queue.msgs@.take(i as int),
                *bodies,
                *colliders,
                body_entity_map@,
            ),
        decreases hurt_queue.msgs.len() - i,
    {
        let ghost seen = hurt_queue.msgs@.take(i + 1);
        assert(seen.drop_last() == hurt_queue.msgs@.take(i as int));
        assert(seen.last() == hurt_queue.msgs@[i as int]);
        let ghost before = damage_queue@;
        let ghost earlier = pain_of(
            hurt_queue.msgs@.take(i as int),
            *bodies,
            *colliders,
            body_entity_map@,
        );
        let hurt_info = &hurt_queue.msgs[i];
        let hits = overlap_test(
            phys_world,
            hurt_info.position,
            hurt_info.half_exts,
            hurt_info.mask,
            bodies,
            colliders,
        );
        resolve_hits(hurt_info.attacker, &hits, damage_queue, colliders, body_entity_map);
        proof {
            let added = events_for(
                hurt_info.attacker,
                hits@,
                collider_owners(*colliders),
                body_entity_map@,
            );
            assert((old(damage_queue)@ + earlier) + added == old(damage_queue)@ + (earlier + added));
        }
        i += 1;
    }
    assert(hurt_queue.msgs@.take(i as int) == hurt_queue.msgs@);
    std::mem::swap(&mut hurt_queue.copy_msgs, &mut hurt_queue.msgs);
}

/// One probe, one hit. When a single request waits and its probe overlaps
/// exactly one collider, whose body belongs to an entity, the resolution
/// yields exactly one damage event, from the attacker to that entity.
pub proof fn law_single_hit(
    msg: HurtInfo,
    hit: ColliderHandle,
    bodies: Bodies,
    colliders: Colliders,
    entities: Map<BodyHandle, Entity>,
)
    requires
        overlap_hits(bodies, colliders, msg.position, msg.half_exts, msg.mask) == seq![hit],
        collider_owners(colliders).contains_key(hit),
        entities.contains_key(collider_owners(colliders)[hit]),
    ensures
        pain_of(seq![msg], bodies, colliders, entities) == seq![
            DamageEvent { input: msg.attacker, output: entities[collider_owners(colliders)[hit]] },
        ],
{
    let owners = collider_owners(colliders);
    let hits = seq![hit];
    let msgs = seq![msg];
    assert(hits.drop_last() == Seq::<ColliderHandle>::empty());
    assert(events_for(msg.attacker, hits.drop_last(), owners, entities) == Seq::<
        DamageEvent,
    >::empty());
    let event = DamageEvent { input: msg.attacker, output: entities[owners[hit]] };
    assert(events_for(msg.attacker, hits, owners, entities) == Seq::<DamageEvent>::empty().push(
        event,
    ));
    assert(msgs.drop_last() == Seq::<HurtInfo>::empty());
    assert(pain_of(msgs.drop_last(), bodies, colliders, entities) == Seq::<DamageEvent>::empty());
    assert(Seq::<DamageEvent>::empty() + Seq::<DamageEvent>::empty().push(event) == seq![event]);
}

/// No probe, no pain. Without waiting requests the resolution yields no
/// damage event.
pub proof fn law_no_request(bodies: Bodies, colliders: Colliders, entities: Map<BodyHandle, Entity>)
    ensures
        pain_of(Seq::<HurtInfo>::empty(), bodies, colliders, entities) == Seq::<
            DamageEvent,
        >::empty(),
{
}

/// What the component store knows of the two sides of a damage event.
#[derive(Debug, Clone, Copy, PartialEq, Eq, Structural)]
pub struct Combatants {
    /// The attacker has combat stats.
    pub attacker_fights: bool,
    /// The defender has combat stats.
    pub defender_fights: bool,
    /// The defender has a velocity.
    pub defender_moves: bool,
    /// The defender remembers hits.
    pub defender_remembers: bool,
}

/// The velocity that a hit gives to the defender.
#[derive(Debug, Clone, Copy, PartialEq, Eq, Structural)]
pub enum Knockback {
    /// The attacker's knockback force, scaled by what the defender's
    /// knockback resistance leaves of it.
    Scaled,
    /// None at all: the attacker has no knockback force.
    Zero,
}

/// What a damage event does to the defender.
#[derive(Debug, Clone, Copy, PartialEq, Eq, Structural)]
pub struct DamageOutcome {
    /// The defender's memory of hits is set.
    pub mark_hit: bool,
    /// The defender's velocity is overwritten with this knockback.
    pub knockback: Option<Knockback>,
    /// A short tint effect is spawned on the defender.
    pub effect: bool,
}

/// What a damage event does, given what the store knows of both sides. A
/// defender without combat stats takes no damage: nothing happens. Otherwise
/// the defender's memory of hits is set if it has one, its velocity is
/// overwritten if it has one, with zero where the attacker has no combat
/// stats, and the tint effect is spawned.
pub fn damage_outcome(sides: Combatants) -> (r: DamageOutcome)
    ensures
        r.mark_hit == (sides.defender_fights && sides.defender_remembers),
        r.effect == sides.defender_fights,
        r.knockback == (if sides.defender_fights && sides.defender_moves {
            Some(
                if sides.attacker_fights {
                    Knockback::Scaled
                } else {
                    Knockback::Zero
                },
            )
        } else {
            None
        }),
{
    if !sides.defender_fights {
        return DamageOutcome { mark_hit: false, knockback: None, effect: false };
    }
    let knockback = if sides.attacker_fights {
        Knockback::Scaled
    } else {
        Knockback::Zero
    };
    DamageOutcome {
        mark_hit: sides.defender_remembers,
        knockback: if sides.defender_moves {
            Some(knockback)
        } else {
            None
        },
        effect: true,
    }
}

} // verus!
