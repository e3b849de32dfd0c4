//! The registry of collision objects.
//!
//! A collision engine tests shapes for overlap; this registry is what the
//! simulation needs to know of it: which collision objects exist, the pose
//! each one currently has, and the entity each one belongs to. Objects are
//! never removed, so a handle stays valid for as long as the registry lives.

use vstd::prelude::*;
use crate::types::Vector2;

verus! {

/// Names a collision object: its position in the registry.
#[derive(Clone, Copy, Debug, PartialEq, Eq, Structural)]
pub struct Handle(pub usize);

/// A pose: where a shape is and how far it is turned.
#[derive(Clone, Copy, Debug, PartialEq, Eq, Structural)]
pub struct Isometry2 {
    pub translation: Vector2,
    pub rotation: i64,
}

/// A box given by half of its width and half of its height.
#[derive(Clone, Copy, Debug, PartialEq, Eq, Structural)]
pub struct Cuboid {
    pub half_extents: Vector2,
}

/// Bit masks that decide which objects may interact.
#[derive(Clone, Copy, Debug, PartialEq, Eq, Structural)]
pub struct CollisionGroups {
    pub membership: u32,
    pub whitelist: u32,
    pub blacklist: u32,
}

/// What the engine computes for an object.
#[derive(Clone, Copy, Debug, PartialEq, Eq, Structural)]
pub enum GeometricQueryType {
    /// Contact points, with a linear and an angular prediction margin.
    Contacts(i64, i64),
    /// Proximity only, with a margin.
    Proximity(i64),
}

/// A change in the overlap of two collision objects.
#[derive(Clone, Copy, Debug, PartialEq, Eq, Structural)]
pub enum ContactEvent {
    /// The two objects began to overlap.
    Started(Handle, Handle),
    /// The two objects ceased to overlap.
    Stopped(Handle, Handle),
}

/// One registered collision object.
#[derive(Clone, Copy, Debug)]
pub struct CollisionObject {
    pub position: Isometry2,
    pub shape: Cuboid,
    pub collision_groups: CollisionGroups,
    pub query_type: GeometricQueryType,
    /// The entity that the object belongs to.
    pub data: specs::Entity,
}

/// The registry itself.
pub struct CollisionWorld {
    margin: i64,
    objects: Vec<CollisionObject>,
}

impl CollisionGroups {
    /// Groups that belong to everything and interact with everything.
    pub fn new() -> (g: CollisionGroups)
        ensures
            g == (CollisionGroups { membership: 0x3fff_ffff, whitelist: 0x3fff_ffff, blacklist: 0 }),
    {
        CollisionGroups { membership: 0x3fff_ffff, whitelist: 0x3fff_ffff, blacklist: 0 }
    }
}

impl ContactEvent {
    /// The first object of the pair.
    pub open spec fn first(self) -> Handle {
        match self {
            ContactEvent::Started(h, _) => h,
            ContactEvent::Stopped(h, _) => h,
        }
    }

    /// The second object of the pair.
    pub open spec fn second(self) -> Handle {
        match self {
            ContactEvent::Started(_, h) => h,
            ContactEvent::Stopped(_, h) => h,
        }
    }
}

impl View for CollisionWorld {
    type V = Seq<CollisionObject>;

    /// The registered objects in the order of their handles.
    closed spec fn view(&self) -> Seq<CollisionObject> {
        self.objects@
    }
}

impl CollisionWorld {
    /// The margin by which the engine enlarges bounding volumes.
    pub closed spec fn margin_of(&self) -> i64 {
        self.margin
    }

    /// Whether `handle` names a registered object.
    pub open spec fn holds(&self, handle: Handle) -> bool {
        handle.0 < self@.len()
    }

    /// The entity that each object belongs to, in the order of the handles.
    pub open spec fn owners(&self) -> Seq<specs::Entity> {
        Seq::new(self@.len(), |i: int| self@[i].data)
    }

    /// Whether every object of `earlier` is still registered in `self`, under
    /// the same handle and for the same entity.
    pub open spec fn extends(&self, earlier: &CollisionWorld) -> bool {
        &&& earlier@.len() <= self@.len()
        &&& forall|i: int| 0 <= i < earlier@.len() ==> self@[i].data == earlier@[i].data
    }

    /// Whether every handle named in `events` is registered.
    pub open spec fn knows(&self, events: Seq<ContactEvent>) -> bool {
        forall|i: int| 0 <= i < events.len() ==> self.holds(#[trigger] events[i].first()) && self.holds(events[i].second())
    }

    /// An empty registry.
    pub fn new(margin: i64) -> (cw: CollisionWorld)
        ensures
            cw@.len() == 0,
            cw.margin_of() == margin,
    {
        CollisionWorld { margin, objects: Vec::new() }
    }

    /// The margin that the registry was made with.
    pub fn margin(&self) -> (m: i64)
        ensures
            m == self.margin_of(),
    {
        self.margin
    }

    /// The number of registered objects.
    pub fn len(&self) -> (n: usize)
        ensures
            n == self@.len(),
    {
        self.objects.len()
    }

    /// Registers a collision object for the entity `data` and returns its
    /// handle. Nothing else in the registry changes.
    pub fn add(
        &mut self,
        position: Isometry2,
        shape: Cuboid,
        collision_groups: CollisionGroups,
        query_type: GeometricQueryType,
        data: specs::Entity,
    ) -> (handle: Handle)
        ensures
            handle.0 == old(self)@.len(),
            final(self)@ == old(self)@.push(
                CollisionObject { position, shape, collision_groups, query_type, data },
            ),
            final(self).margin_of() == old(self).margin_of(),
            final(self).holds(handle),
            final(self).extends(old(self)),
    {
        let handle = Handle(self.objects.len());
        self.objects.push(CollisionObject { position, shape, collision_groups, query_type, data });
        handle
    }

    /// The object that `handle` names, if it is registered.
    pub fn collision_object(&self, handle: Handle) -> (found: Option<CollisionObject>)
        ensures
            found == (if self.holds(handle) {
                Some(self@[handle.0 as int])
            } else {
                None
            }),
    {
        if handle.0 < self.objects.len() {
            Some(self.objects[handle.0])
        } else {
            None
        }
    }

    /// The entity that the object named by `handle` belongs to.
    pub fn resolve_owner(&self, handle: Handle) -> (owner: specs::Entity)
        requires
            self.holds(handle),
        ensures
            owner == self.owners()[handle.0 as int],
    {
        self.objects[handle.0].data
    }

    /// Overwrites the pose of the object named by `handle`. Nothing else
    /// changes, and writing the same pose again changes nothing.
    pub fn set_transform(&mut self, handle: Handle, position: Isometry2)
        requires
            old(self).holds(handle),
        ensures
            final(self)@ == old(self)@.update(
                handle.0 as int,
                CollisionObject { position, ..old(self)@[handle.0 as int] },
            ),
            final(self).margin_of() == old(self).margin_of(),
            final(self).extends(old(self)),
    {
        let mut object = self.objects[handle.0];
        object.position = position;
        self.objects.set(handle.0, object);
    }
}

/// Writing a pose twice is the same as writing it once.
pub proof fn lemma_set_transform_is_idempotent(
    objects: Seq<CollisionObject>,
    handle: Handle,
    position: Isometry2,
)
    requires
        handle.0 < objects.len(),
    ensures
        ({
            let once = objects.update(
                handle.0 as int,
                CollisionObject { position, ..objects[handle.0 as int] },
            );
            once.update(handle.0 as int, CollisionObject { position, ..once[handle.0 as int] })
                == once
        }),
{
    let once = objects.update(
        handle.0 as int,
        CollisionObject { position, ..objects[handle.0 as int] },
    );
    assert(once.update(handle.0 as int, CollisionObject { position, ..once[handle.0 as int] })
        =~= once);
}

/// A handle, once handed out, is good for ever: through any chain of
/// registries in which each extends the one before, a handle of the first
/// names an object of the last, and that object belongs to the same entity.
pub proof fn lemma_handles_persist(
    first: &CollisionWorld,
    middle: &CollisionWorld,
    last: &CollisionWorld,
    handle: Handle,
)
    requires
        middle.extends(first),
        last.extends(middle),
        first.holds(handle),
    ensures
        first.extends(first),
        last.extends(first),
        last.holds(handle),
        last.owners()[handle.0 as int] == first.owners()[handle.0 as int],
{
}

} // verus!
