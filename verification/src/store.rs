//! The entity-component store.
//!
//! Entities and their components live in a `specs::World`. Verus cannot look
//! into that type, so this module gives its contents names and states, for
//! each call into `specs` that the simulation makes, what the call does to
//! them. Those statements are taken on trust; everything else in the crate is
//! proved from them.

use vstd::prelude::*;
use specs::Builder;
use specs::Join;
use crate::components::{Collider, Motion, Player, Position, Sprite};

verus! {

/// `specs::Entity`: the identifier of an entity, carried through as it is.
#[verifier::external_type_specification]
#[verifier::external_body]
pub struct ExEntity(specs::Entity);

/// `specs::error::Error`: why a storage refused an insertion.
#[verifier::external_type_specification]
#[verifier::external_body]
pub struct ExError(specs::error::Error);

/// `specs::VecStorage`: the storage of the components that hold data.
#[verifier::external_type_specification]
#[verifier::external_body]
#[verifier::reject_recursive_types(T)]
pub struct ExVecStorage<T>(specs::VecStorage<T>);

/// `specs::NullStorage`: the storage of the components that are mere marks.
#[verifier::external_type_specification]
#[verifier::external_body]
#[verifier::reject_recursive_types(T)]
pub struct ExNullStorage<T>(specs::NullStorage<T>);

/// The store of entities and components: a `specs::World`, reached only
/// through the functions of this crate.
#[verifier::external_body]
pub struct EntityStore {
    pub(crate) world: specs::World,
}

/// The kinds of component that an entity can carry.
#[derive(Clone, Copy, Debug, PartialEq, Eq, Structural)]
pub enum Kind {
    Position,
    Motion,
    Collider,
    Player,
    Sprite,
}

/// A component of any kind.
pub enum Datum {
    Position(Position),
    Motion(Motion),
    Collider(Collider),
    Player(Player),
    Sprite(Sprite),
}

impl Datum {
    /// The position that a datum of that kind holds.
    pub open spec fn position(self) -> Position {
        match self {
            Datum::Position(p) => p,
            _ => arbitrary(),
        }
    }

    /// The motion that a datum of that kind holds.
    pub open spec fn motion(self) -> Motion {
        match self {
            Datum::Motion(m) => m,
            _ => arbitrary(),
        }
    }

    /// The collider that a datum of that kind holds.
    pub open spec fn collider(self) -> Collider {
        match self {
            Datum::Collider(c) => c,
            _ => arbitrary(),
        }
    }

    /// The sprite that a datum of that kind holds.
    pub open spec fn sprite(self) -> Sprite {
        match self {
            Datum::Sprite(s) => s,
            _ => arbitrary(),
        }
    }
}

/// A component type: it knows its kind and how it reads as a [`Datum`].
pub trait Stored: Sized {
    /// The kind of component that the type is.
    spec fn kind() -> Kind;

    /// The component as a datum of its kind.
    spec fn datum(self) -> Datum;
}

/// The most entities that a world is asked to hold.
pub const MAX_ENTITIES: usize = 1048576;

/// The entities of a world: those that a join over its entities yields.
pub uninterp spec fn entities(w: EntityStore) -> Set<specs::Entity>;

/// The components of a world: `(k, e)` maps to what the storage of kind `k`
/// returns for the entity `e`. A kind without a storage has no components.
pub uninterp spec fn components(w: EntityStore) -> Map<(Kind, specs::Entity), Datum>;

/// Whether a world has a storage for the components of kind `k`.
pub uninterp spec fn has_storage(w: EntityStore, k: Kind) -> bool;

/// Whether a world has a storage for every kind of component.
pub open spec fn registered(w: EntityStore) -> bool {
    forall|k: Kind| #[trigger] has_storage(w, k)
}

/// Whether `after` has a storage for exactly the kinds for which `before`
/// has one.
pub open spec fn same_storages(before: EntityStore, after: EntityStore) -> bool {
    forall|k: Kind| #[trigger] has_storage(after, k) == has_storage(before, k)
}

/// The components of a store, by kind and entity.
pub type Components = Map<(Kind, specs::Entity), Datum>;

/// Whether every component of `c` belongs to an entity of `ents`.
pub open spec fn confined_to(c: Components, ents: Set<specs::Entity>) -> bool {
    forall|k: Kind, e: specs::Entity| #[trigger] c.contains_key((k, e)) ==> ents.contains(e)
}

/// Whether every component of `w` belongs to one of its entities.
pub open spec fn confined(w: EntityStore) -> bool {
    confined_to(components(w), entities(w))
}

/// Whether the entity `e` carries a component of kind `k` in `w`.
pub open spec fn carries(w: EntityStore, k: Kind, e: specs::Entity) -> bool {
    components(w).contains_key((k, e))
}

/// The empty set of entities.
pub open spec fn no_entities() -> Set<specs::Entity> {
    Set::empty()
}

/// The empty map of components.
pub open spec fn no_components() -> Components {
    Map::empty()
}

/// Whether the entity `e` of `w` carries components of both kinds.
pub open spec fn has_both(w: EntityStore, a: Kind, b: Kind, e: specs::Entity) -> bool {
    entities(w).contains(e) && carries(w, a, e) && carries(w, b, e)
}

/// `specs::World::new`. The new world has no entities and no components.
#[verifier::external_body]
pub(crate) fn empty_world() -> (w: EntityStore)
    ensures
        entities(w) == no_entities(),
        components(w) == no_components(),
{
    EntityStore { world: specs::World::new() }
}

/// `specs::World::register_with_storage`, handed the storage's
/// `TryDefault::unwrap_default`, which is what `specs::World::register` hands
/// it for a storage that has a default. Adds an empty storage for `T` unless
/// one exists; the other storages, the entities and the components stay as
/// they are.
#[verifier::external_body]
pub(crate) fn register<T: Stored + specs::Component>(w: &mut EntityStore)
    ensures
        has_storage(*final(w), T::kind()),
        forall|k: Kind| k != T::kind() ==> #[trigger] has_storage(*final(w), k) == has_storage(*old(w), k),
        entities(*final(w)) == entities(*old(w)),
        components(*final(w)) == components(*old(w)),
{
    w.world.register_with_storage::<_, T>(
        <T::Storage as specs::storage::TryDefault>::unwrap_default,
    )
}

/// `specs::World::create_entity` and `specs::Builder::build`. Hands out an
/// entity that the world did not have; no component changes. The allocator's
/// bit sets hold at least `MAX_ENTITIES` indices on every target.
#[verifier::external_body]
pub(crate) fn spawn(w: &mut EntityStore) -> (e: specs::Entity)
    requires
        confined(*old(w)),
        entities(*old(w)).finite(),
        entities(*old(w)).len() < MAX_ENTITIES,
    ensures
        !entities(*old(w)).contains(e),
        entities(*final(w)) == entities(*old(w)).insert(e),
        components(*final(w)) == components(*old(w)),
        same_storages(*old(w), *final(w)),
{
    w.world.create_entity().build()
}

/// `specs::World::read_storage` and `specs::Storage::get`. Returns a copy of
/// the component of type `T` that `e` carries, if any.
#[verifier::external_body]
pub(crate) fn fetch<T: Stored + specs::Component + Clone>(w: &EntityStore, e: specs::Entity) -> (found: Option<T>)
    requires
        registered(*w),
    ensures
        found matches Some(c) ==> carries(*w, T::kind(), e) && components(*w)[(T::kind(), e)] == c.datum(),
        found is None ==> !carries(*w, T::kind(), e),
{
    w.world.read_storage::<T>().get(e).cloned()
}

/// `specs::World::write_storage` and `specs::Storage::insert`, for an entity
/// of the world or one that already carries a `T`: for such an entity the
/// call succeeds. Afterwards the entity carries `c` in place of what it
/// carried of that type, which is returned.
#[verifier::external_body]
pub(crate) fn store<T: Stored + specs::Component>(w: &mut EntityStore, e: specs::Entity, c: T) -> (r: Result<Option<T>, specs::error::Error>)
    requires
        registered(*old(w)),
        entities(*old(w)).contains(e) || carries(*old(w), T::kind(), e),
    ensures
        r is Ok,
        components(*final(w)) == components(*old(w)).insert((T::kind(), e), c.datum()),
        r matches Ok(Some(p)) ==> carries(*old(w), T::kind(), e) && components(*old(w))[(T::kind(), e)]
            == p.datum(),
        r matches Ok(None) ==> !carries(*old(w), T::kind(), e),
        entities(*final(w)) == entities(*old(w)),
        same_storages(*old(w), *final(w)),
{
    w.world.write_storage::<T>().insert(e, c)
}

/// `specs::Join::join` over the entities and the storages of `A` and `B`.
/// Returns, each once, the entities of the world that carry both an `A` and a
/// `B`.
#[verifier::external_body]
pub(crate) fn joined<A: Stored + specs::Component, B: Stored + specs::Component>(w: &EntityStore) -> (found: Vec<specs::Entity>)
    requires
        registered(*w),
    ensures
        found@.no_duplicates(),
        forall|e: specs::Entity| #[trigger] found@.contains(e) <==> has_both(*w, A::kind(), B::kind(), e),
{
    let entities = w.world.entities();
    let first = w.world.read_storage::<A>();
    let second = w.world.read_storage::<B>();
    (&entities, &first, &second).join().map(|(e, _, _)| e).collect()
}

} // verus!
