//! The game world: the entity-component store and the collision registry.

use vstd::prelude::*;
use crate::collision::{
    CollisionGroups, CollisionObject, CollisionWorld, Cuboid, GeometricQueryType, Handle, Isometry2,
};
use crate::components::{register_components, Collider, Motion, Position, Sprite};
use crate::store::{
    components, confined_to, empty_world, entities, fetch, no_components, no_entities, registered,
    spawn, store, Components, Datum, EntityStore, Kind, MAX_ENTITIES,
};

verus! {

/// The margin of the collision registry of a new world: a fifth of a unit.
pub const COLLISION_MARGIN: i64 = 13107;

/// The position that `c` holds for the entity `e`, if any.
pub open spec fn position_in(c: Components, e: specs::Entity) -> Option<Position> {
    if c.contains_key((Kind::Position, e)) {
        Some(c[(Kind::Position, e)].position())
    } else {
        None
    }
}

/// The motion that `c` holds for the entity `e`, if any.
pub open spec fn motion_in(c: Components, e: specs::Entity) -> Option<Motion> {
    if c.contains_key((Kind::Motion, e)) {
        Some(c[(Kind::Motion, e)].motion())
    } else {
        None
    }
}

/// The collider that `c` holds for the entity `e`, if any.
pub open spec fn collider_in(c: Components, e: specs::Entity) -> Option<Collider> {
    if c.contains_key((Kind::Collider, e)) {
        Some(c[(Kind::Collider, e)].collider())
    } else {
        None
    }
}

/// The sprite that `c` holds for the entity `e`, if any.
pub open spec fn sprite_in(c: Components, e: specs::Entity) -> Option<Sprite> {
    if c.contains_key((Kind::Sprite, e)) {
        Some(c[(Kind::Sprite, e)].sprite())
    } else {
        None
    }
}

/// The handle that the collider of `e` names in `c`.
pub open spec fn handle_in(c: Components, e: specs::Entity) -> Handle {
    c[(Kind::Collider, e)].collider().handle
}

/// Whether every collider in `c` names one of the collision objects `objects`,
/// and no two entities name the same one.
pub open spec fn colliders_live(c: Components, objects: Seq<CollisionObject>) -> bool {
    &&& forall|e: specs::Entity| #[trigger]
        c.contains_key((Kind::Collider, e)) ==> handle_in(c, e).0 < objects.len()
    &&& forall|a: specs::Entity, b: specs::Entity|
        #![trigger c.contains_key((Kind::Collider, a)), c.contains_key((Kind::Collider, b))]
        c.contains_key((Kind::Collider, a)) && c.contains_key((Kind::Collider, b)) && handle_in(
            c,
            a,
        ) == handle_in(c, b) ==> a == b
}

/// The game world: entities with their components, and the collision objects
/// that stand for some of them.
pub struct World {
    pub specs_world: EntityStore,
    pub collide_world: CollisionWorld,
    /// The number of entities in `specs_world`.
    pub count: usize,
}

impl World {
    /// The entities of the world.
    pub open spec fn entities(&self) -> Set<specs::Entity> {
        entities(self.specs_world)
    }

    /// The components of the world, by kind and entity.
    pub open spec fn components(&self) -> Components {
        components(self.specs_world)
    }

    /// The position of the entity `e`, if it has one.
    pub open spec fn position_of(&self, e: specs::Entity) -> Option<Position> {
        position_in(self.components(), e)
    }

    /// The motion of the entity `e`, if it has one.
    pub open spec fn motion_of(&self, e: specs::Entity) -> Option<Motion> {
        motion_in(self.components(), e)
    }

    /// The collider of the entity `e`, if it has one.
    pub open spec fn collider_of(&self, e: specs::Entity) -> Option<Collider> {
        collider_in(self.components(), e)
    }

    /// The sprite of the entity `e`, if it has one.
    pub open spec fn sprite_of(&self, e: specs::Entity) -> Option<Sprite> {
        sprite_in(self.components(), e)
    }

    /// Whether the world is fit for the systems: all storages exist, every
    /// component belongs to an entity of the world, the entities are counted,
    /// and the colliders are in step with the collision registry.
    pub open spec fn wf(&self) -> bool {
        &&& registered(self.specs_world)
        &&& confined_to(self.components(), self.entities())
        &&& self.entities().finite()
        &&& self.entities().len() == self.count
        &&& colliders_live(self.components(), self.collide_world@)
    }

    /// A world without entities, with the storages of all components and an
    /// empty collision registry.
    pub fn new() -> (world: World)
        ensures
            world.wf(),
            world.entities() == no_entities(),
            world.components() == no_components(),
            world.collide_world@.len() == 0,
            world.collide_world.margin_of() == COLLISION_MARGIN,
    {
        let mut w = empty_world();
        register_components(&mut w);
        World { specs_world: w, collide_world: CollisionWorld::new(COLLISION_MARGIN), count: 0 }
    }

    /// Creates an entity without components.
    pub fn create_entity(&mut self) -> (e: specs::Entity)
        requires
            old(self).wf(),
            old(self).entities().len() < MAX_ENTITIES,
        ensures
            final(self).wf(),
            !old(self).entities().contains(e),
            final(self).entities() == old(self).entities().insert(e),
            final(self).components() == old(self).components(),
            final(self).collide_world == old(self).collide_world,
    {
        let e = spawn(&mut self.specs_world);
        self.count = self.count + 1;
        e
    }

    /// The number of entities in the world.
    pub fn entity_count(&self) -> (n: usize)
        requires
            self.wf(),
        ensures
            n == self.entities().len(),
    {
        self.count
    }

    /// Gives the entity `e` the position `position` and returns the position
    /// that it had.
    pub fn insert_position(&mut self, e: specs::Entity, position: Position) -> (previous: Option<
        Position,
    >)
        requires
            old(self).wf(),
            old(self).entities().contains(e),
        ensures
            final(self).wf(),
            final(self).components() == old(self).components().insert(
                (Kind::Position, e),
                Datum::Position(position),
            ),
            previous == old(self).position_of(e),
            final(self).entities() == old(self).entities(),
            final(self).collide_world == old(self).collide_world,
    {
        match store::<Position>(&mut self.specs_world, e, position) {
            Ok(previous) => previous,
            Err(_) => None,
        }
    }

    /// Gives the entity `e` the motion `motion` and returns the motion that
    /// it had.
    pub fn insert_motion(&mut self, e: specs::Entity, motion: Motion) -> (previous: Option<Motion>)
        requires
            old(self).wf(),
            old(self).entities().contains(e),
        ensures
            final(self).wf(),
            final(self).components() == old(self).components().insert(
                (Kind::Motion, e),
                Datum::Motion(motion),
            ),
            previous == old(self).motion_of(e),
            final(self).entities() == old(self).entities(),
            final(self).collide_world == old(self).collide_world,
    {
        match store::<Motion>(&mut self.specs_world, e, motion) {
            Ok(previous) => previous,
            Err(_) => None,
        }
    }

    /// Gives the entity `e` the sprite `sprite` and returns the sprite that
    /// it had.
    pub fn insert_sprite(&mut self, e: specs::Entity, sprite: Sprite) -> (previous: Option<Sprite>)
        requires
            old(self).wf(),
            old(self).entities().contains(e),
        ensures
            final(self).wf(),
            final(self).components() == old(self).components().insert(
                (Kind::Sprite, e),
                Datum::Sprite(sprite),
            ),
            previous == old(self).sprite_of(e),
            final(self).entities() == old(self).entities(),
            final(self).collide_world == old(self).collide_world,
    {
        match store::<Sprite>(&mut self.specs_world, e, sprite) {
            Ok(previous) => previous,
            Err(_) => None,
        }
    }

    /// Registers a collision object for the entity `e` and gives the entity
    /// the collider that names it. Returns the object's handle.
    pub fn add_collider(
        &mut self,
        e: specs::Entity,
        position: Isometry2,
        shape: Cuboid,
        collision_groups: CollisionGroups,
        query_type: GeometricQueryType,
    ) -> (handle: Handle)
        requires
            old(self).wf(),
            old(self).entities().contains(e),
        ensures
            final(self).wf(),
            handle.0 == old(self).collide_world@.len(),
            final(self).collide_world@ == old(self).collide_world@.push(
                CollisionObject { position, shape, collision_groups, query_type, data: e },
            ),
            final(self).collide_world.margin_of() == old(self).collide_world.margin_of(),
            final(self).collide_world.extends(&old(self).collide_world),
            final(self).components() == old(self).components().insert(
                (Kind::Collider, e),
                Datum::Collider(Collider { handle }),
            ),
            final(self).entities() == old(self).entities(),
    {
        let handle = self.collide_world.add(position, shape, collision_groups, query_type, e);
        let _ = store::<Collider>(&mut self.specs_world, e, Collider { handle });
        proof {
            let c = self.components();
            assert forall|a: specs::Entity| #[trigger] c.contains_key((Kind::Collider, a)) implies handle_in(
                c,
                a,
            ).0 < self.collide_world@.len() by {
                if a != e {
                    assert(old(self).components().contains_key((Kind::Collider, a)));
                }
            }
            assert forall|a: specs::Entity, b: specs::Entity|
                #![trigger c.contains_key((Kind::Collider, a)), c.contains_key((Kind::Collider, b))]
                c.contains_key((Kind::Collider, a)) && c.contains_key((Kind::Collider, b))
                    && handle_in(c, a) == handle_in(c, b) implies a == b by {
                if a != e {
                    assert(old(self).components().contains_key((Kind::Collider, a)));
                }
                if b != e {
                    assert(old(self).components().contains_key((Kind::Collider, b)));
                }
            }
        }
        handle
    }

    /// The position of the entity `e`, if it has one.
    pub fn position(&self, e: specs::Entity) -> (found: Option<Position>)
        requires
            registered(self.specs_world),
        ensures
            found == self.position_of(e),
    {
        fetch::<Position>(&self.specs_world, e)
    }

    /// The motion of the entity `e`, if it has one.
    pub fn motion(&self, e: specs::Entity) -> (found: Option<Motion>)
        requires
            registered(self.specs_world),
        ensures
            found == self.motion_of(e),
    {
        fetch::<Motion>(&self.specs_world, e)
    }

    /// The collider of the entity `e`, if it has one.
    pub fn collider(&self, e: specs::Entity) -> (found: Option<Collider>)
        requires
            registered(self.specs_world),
        ensures
            found == self.collider_of(e),
    {
        fetch::<Collider>(&self.specs_world, e)
    }

    /// The sprite of the entity `e`, if it has one.
    pub fn sprite(&self, e: specs::Entity) -> (found: Option<Sprite>)
        requires
            registered(self.specs_world),
        ensures
            found == self.sprite_of(e),
    {
        fetch::<Sprite>(&self.specs_world, e)
    }
}

} // verus!
