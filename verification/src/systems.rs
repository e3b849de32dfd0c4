//! The systems that run once per tick: movement, then the push of the new
//! positions into the collision registry.

use vstd::prelude::*;
use crate::collision::{CollisionObject, Isometry2};
use crate::components::{Collider, Motion, Position};
use crate::store::{fetch, joined, store, Components, Datum, Kind};
use crate::types::{negated, saturate, Point2, Vector2};
use crate::world::{handle_in, motion_in, position_in, World};

verus! {

/// Which way the vertical axis of velocities points.
#[derive(Clone, Copy, Debug, PartialEq, Eq, Structural)]
pub enum VerticalAxis {
    /// Upwards, against the vertical axis of positions: a positive vertical
    /// velocity lowers the vertical coordinate.
    Up,
    /// Downwards, as the vertical axis of positions does: velocities are
    /// added as they are.
    Down,
}

/// Moves every entity by its velocity.
pub struct MovementSystem {
    pub vertical_axis: VerticalAxis,
}

/// Copies every entity's position into its collision object.
pub struct CollisionSystem;

/// The systems of one tick in the order in which they run.
pub struct Dispatcher {
    pub movement: MovementSystem,
    pub collision: CollisionSystem,
}

/// The displacement per tick that the motion `m` stands for.
pub open spec fn screen_velocity(m: Motion, axis: VerticalAxis) -> Vector2 {
    match axis {
        VerticalAxis::Up => Vector2 { x: m.velocity.x, y: saturate(-m.velocity.y) },
        VerticalAxis::Down => m.velocity,
    }
}

/// The position that an entity at `p` with motion `m` has after one tick.
pub open spec fn integrated(p: Position, m: Motion, axis: VerticalAxis) -> Position {
    Position { point: p.point.moved_by(screen_velocity(m, axis)), rotation: m.orientation }
}

/// Whether the entity `e` has both a position and a motion in `c`.
pub open spec fn moves(c: Components, e: specs::Entity) -> bool {
    c.contains_key((Kind::Position, e)) && c.contains_key((Kind::Motion, e))
}

/// The components after one tick of movement: every entity that has a
/// position and a motion is moved, and nothing else changes.
pub open spec fn moved(c: Components, axis: VerticalAxis) -> Components {
    Map::new(
        |key: (Kind, specs::Entity)| c.contains_key(key),
        |key: (Kind, specs::Entity)|
            if key.0 == Kind::Position && moves(c, key.1) {
                Datum::Position(
                    integrated(c[key].position(), c[(Kind::Motion, key.1)].motion(), axis),
                )
            } else {
                c[key]
            },
    )
}

/// The pose of a collision object whose entity is at `p`.
pub open spec fn pose_of(p: Position) -> Isometry2 {
    Isometry2 { translation: Vector2 { x: p.point.x, y: p.point.y }, rotation: p.rotation }
}

/// Whether the entity `e` has both a collider and a position in `c`.
pub open spec fn placed(c: Components, e: specs::Entity) -> bool {
    c.contains_key((Kind::Collider, e)) && c.contains_key((Kind::Position, e))
}

/// The collision object `o` with its pose replaced by `pose`.
pub open spec fn with_pose(o: CollisionObject, pose: Isometry2) -> CollisionObject {
    CollisionObject { position: pose, ..o }
}

/// Whether `after` is `before` with the poses brought up to the positions in
/// `c`: the object of every entity that has a collider and a position sits
/// where the entity is, and every other object is as it was.
pub open spec fn synced(
    c: Components,
    before: Seq<CollisionObject>,
    after: Seq<CollisionObject>,
) -> bool {
    &&& after.len() == before.len()
    &&& forall|e: specs::Entity| #[trigger]
        placed(c, e) ==> after[handle_in(c, e).0 as int] == with_pose(
            before[handle_in(c, e).0 as int],
            pose_of(c[(Kind::Position, e)].position()),
        )
    &&& forall|i: int|
        0 <= i < before.len() ==> #[trigger] after[i] == before[i] || exists|e: specs::Entity|
            #[trigger] placed(c, e) && handle_in(c, e).0 == i
}

/// The vertical coordinate that one tick of the vertical velocity `vy` leads
/// to from `y`, as an integer without bounds.
pub open spec fn vertical_step(axis: VerticalAxis, y: int, vy: int) -> int {
    match axis {
        VerticalAxis::Up => y - vy,
        VerticalAxis::Down => y + vy,
    }
}

/// One tick of movement takes an entity with position `p` and motion `m` to
/// `p` plus the velocity of `m`, turned to the orientation of `m`, as long as
/// the sums (and, where the vertical axis points up, the negated vertical
/// velocity) stay within the range of the scalars. The motion itself, and
/// the position of every entity that lacks a position or a motion, stay as
/// they were.
pub proof fn lemma_movement_integrates(c: Components, axis: VerticalAxis, e: specs::Entity)
    requires
        moves(c, e),
        i64::MIN <= position_in(c, e)->0.point.x + motion_in(c, e)->0.velocity.x <= i64::MAX,
        i64::MIN <= vertical_step(
            axis,
            position_in(c, e)->0.point.y as int,
            motion_in(c, e)->0.velocity.y as int,
        ) <= i64::MAX,
        axis == VerticalAxis::Up ==> motion_in(c, e)->0.velocity.y > i64::MIN,
    ensures
        position_in(moved(c, axis), e) == Some(
            Position {
                point: Point2 {
                    x: (position_in(c, e)->0.point.x + motion_in(c, e)->0.velocity.x) as i64,
                    y: vertical_step(
                        axis,
                        position_in(c, e)->0.point.y as int,
                        motion_in(c, e)->0.velocity.y as int,
                    ) as i64,
                },
                rotation: motion_in(c, e)->0.orientation,
            },
        ),
        motion_in(moved(c, axis), e) == motion_in(c, e),
        forall|other: specs::Entity|
            !moves(c, other) ==> #[trigger] position_in(moved(c, axis), other) == position_in(
                c,
                other,
            ),
{
}

/// After movement and the push into the registry, the collision object of
/// every entity that has a collider and a position holds the position that
/// the entity has just been given, not the one it had before the tick.
pub proof fn lemma_sync_follows_movement(
    c: Components,
    axis: VerticalAxis,
    before: Seq<CollisionObject>,
    after: Seq<CollisionObject>,
    e: specs::Entity,
)
    requires
        synced(moved(c, axis), before, after),
        placed(c, e),
    ensures
        placed(moved(c, axis), e),
        handle_in(moved(c, axis), e) == handle_in(c, e),
        after[handle_in(c, e).0 as int].position == pose_of(position_in(moved(c, axis), e)->0),
        moves(c, e) ==> after[handle_in(c, e).0 as int].position == pose_of(
            integrated(position_in(c, e)->0, motion_in(c, e)->0, axis),
        ),
{
    assert(placed(moved(c, axis), e));
}

impl MovementSystem {
    /// A movement system for the given direction of the vertical axis.
    pub fn new(vertical_axis: VerticalAxis) -> (system: MovementSystem)
        ensures
            system.vertical_axis == vertical_axis,
    {
        MovementSystem { vertical_axis }
    }

    /// The displacement per tick that `motion` stands for.
    pub fn velocity_vector(&self, motion: &Motion) -> (v: Vector2)
        ensures
            v == screen_velocity(*motion, self.vertical_axis),
    {
        match self.vertical_axis {
            VerticalAxis::Up => Vector2 { x: motion.velocity.x, y: negated(motion.velocity.y) },
            VerticalAxis::Down => motion.velocity,
        }
    }

    /// The position after one tick of an entity at `position` with `motion`.
    pub fn integrate(&self, position: Position, motion: &Motion) -> (next: Position)
        ensures
            next == integrated(position, *motion, self.vertical_axis),
    {
        Position {
            point: position.point.translate(self.velocity_vector(motion)),
            rotation: motion.orientation,
        }
    }

    /// Moves every entity that has a position and a motion by one tick: its
    /// point by the velocity, its rotation to the motion's orientation.
    pub fn run(&self, world: &mut World)
        requires
            old(world).wf(),
        ensures
            final(world).wf(),
            final(world).components() == moved(old(world).components(), self.vertical_axis),
            final(world).entities() == old(world).entities(),
            final(world).collide_world == old(world).collide_world,
    {
        let ghost before = world.components();
        let ghost axis = self.vertical_axis;
        let found = joined::<Position, Motion>(&world.specs_world);
        let mut i: usize = 0;
        while i < found.len()
            invariant
                0 <= i <= found.len(),
                axis == self.vertical_axis,
                before == old(world).components(),
                old(world).wf(),
                world.wf(),
                world.entities() == old(world).entities(),
                world.collide_world == old(world).collide_world,
                found@.no_duplicates(),
                forall|e: specs::Entity| #[trigger] found@.contains(e) <==> moves(before, e),
                world.components().dom() == before.dom(),
                forall|key: (Kind, specs::Entity)| #[trigger]
                    before.contains_key(key) ==> world.components()[key] == (if key.0
                        == Kind::Position && found@.take(i as int).contains(key.1) {
                        moved(before, axis)[key]
                    } else {
                        before[key]
                    }),
            decreases found.len() - i,
        {
            let e = found[i];
            assert(found@.contains(e));
            assert(!found@.take(i as int).contains(e));
            let ghost mid = world.components();
            let position = fetch::<Position>(&world.specs_world, e);
            let motion = fetch::<Motion>(&world.specs_world, e);
            assert(moves(before, e));
            assert(mid[(Kind::Position, e)] == before[(Kind::Position, e)]);
            assert(mid[(Kind::Motion, e)] == before[(Kind::Motion, e)]);
            match position {
                Some(p) => match motion {
                    Some(m) => {
                        let next = self.integrate(p, &m);
                        let _ = store::<Position>(&mut world.specs_world, e, next);
                        assert(world.components() == mid.insert(
                            (Kind::Position, e),
                            Datum::Position(next),
                        ));
                        assert(Datum::Position(next) == moved(before, axis)[(Kind::Position, e)]);
                    },
                    None => {
                        assert(false);
                    },
                },
                None => {
                    assert(false);
                },
            }
            proof {
                let done = found@.take(i as int);
                let next_done = found@.take(i + 1);
                assert(next_done =~= done.push(e));
                assert(world.components().dom() =~= before.dom());
                assert forall|key: (Kind, specs::Entity)| #[trigger]
                    before.contains_key(key) implies world.components()[key] == (if key.0
                    == Kind::Position && next_done.contains(key.1) {
                    moved(before, axis)[key]
                } else {
                    before[key]
                }) by {
                    if key == (Kind::Position, e) {
                        assert(next_done[i as int] == e);
                    } else {
                        assert(world.components()[key] == mid[key]);
                        if done.contains(key.1) {
                            let j = choose|j: int| 0 <= j < done.len() && done[j] == key.1;
                            assert(next_done[j] == key.1);
                        }
                        if next_done.contains(key.1) && key.1 != e {
                            let j = choose|j: int| 0 <= j < next_done.len() && next_done[j] == key.1;
                            assert(j < i);
                            assert(done[j] == key.1);
                        }
                    }
                }
            }
            i += 1;
        }
        proof {
            assert(found@.take(i as int) =~= found@);
            assert(world.components() =~= moved(before, axis));
        }
    }
}

impl Dispatcher {
    /// Runs the movement system and then the collision system, so that on
    /// return every collision object sits where its entity has just moved to.
    pub fn dispatch(&self, world: &mut World)
        requires
            old(world).wf(),
        ensures
            final(world).wf(),
            final(world).components() == moved(
                old(world).components(),
                self.movement.vertical_axis,
            ),
            synced(
                final(world).components(),
                old(world).collide_world@,
                final(world).collide_world@,
            ),
            final(world).collide_world.extends(&old(world).collide_world),
            final(world).collide_world.margin_of() == old(world).collide_world.margin_of(),
            final(world).entities() == old(world).entities(),
    {
        self.movement.run(world);
        self.collision.run(world);
    }
}

impl CollisionSystem {
    /// Writes the position of every entity that has a collider and a position
    /// into the entity's collision object. Nothing else changes.
    pub fn run(&self, world: &mut World)
        requires
            old(world).wf(),
        ensures
            final(world).wf(),
            synced(old(world).components(), old(world).collide_world@, final(world).collide_world@),
            final(world).collide_world.extends(&old(world).collide_world),
            final(world).collide_world.margin_of() == old(world).collide_world.margin_of(),
            final(world).components() == old(world).components(),
            final(world).entities() == old(world).entities(),
    {
        let ghost c = world.components();
        let ghost before = world.collide_world@;
        let found = joined::<Collider, Position>(&world.specs_world);
        let mut i: usize = 0;
        while i < found.len()
            invariant
                0 <= i <= found.len(),
                c == old(world).components(),
                before == old(world).collide_world@,
                old(world).wf(),
                world.wf(),
                world.components() == c,
                world.entities() == old(world).entities(),
                world.collide_world.extends(&old(world).collide_world),
                world.collide_world.margin_of() == old(world).collide_world.margin_of(),
                world.collide_world@.len() == before.len(),
                found@.no_duplicates(),
                forall|e: specs::Entity| #[trigger] found@.contains(e) <==> placed(c, e),
                forall|j: int|
                    0 <= j < i ==> world.collide_world@[handle_in(c, #[trigger] found@[j]).0 as int]
                        == with_pose(
                        before[handle_in(c, found@[j]).0 as int],
                        pose_of(c[(Kind::Position, found@[j])].position()),
                    ),
                forall|k: int|
                    0 <= k < before.len() ==> #[trigger] world.collide_world@[k] == before[k]
                        || exists|j: int| 0 <= j < i && handle_in(c, #[trigger] found@[j]).0 == k,
            decreases found.len() - i,
        {
            let e = found[i];
            assert(found@.contains(e));
            let collider = fetch::<Collider>(&world.specs_world, e);
            let position = fetch::<Position>(&world.specs_world, e);
            match collider {
                Some(col) => match position {
                    Some(p) => {
                        let pose = Isometry2 {
                            translation: Vector2 { x: p.point.x, y: p.point.y },
                            rotation: p.rotation,
                        };
                        let ghost mid = world.collide_world@;
                        let ghost h = col.handle.0 as int;
                        proof {
                            assert(col.handle == handle_in(c, e));
                            assert(c.contains_key((Kind::Collider, e)));
                            assert(0 <= h < before.len());
                            assert forall|j: int| 0 <= j < i implies handle_in(
                                c,
                                #[trigger] found@[j],
                            ).0 != h by {
                                assert(found@.contains(found@[j]));
                                assert(c.contains_key((Kind::Collider, found@[j])));
                                assert(found@[j] != e);
                            }
                            assert(mid[h] == before[h]);
                        }
                        world.collide_world.set_transform(col.handle, pose);
                        proof {
                            assert forall|j: int| 0 <= j < i + 1 implies world.collide_world@[handle_in(
                                c,
                                #[trigger] found@[j],
                            ).0 as int] == with_pose(
                                before[handle_in(c, found@[j]).0 as int],
                                pose_of(c[(Kind::Position, found@[j])].position()),
                            ) by {
                                if j < i {
                                    assert(handle_in(c, found@[j]).0 != h);
                                    assert(found@.contains(found@[j]));
                                    assert(c.contains_key((Kind::Collider, found@[j])));
                                }
                            }
                            assert forall|k: int| 0 <= k < before.len() implies #[trigger] world.collide_world@[k]
                                == before[k] || exists|j: int|
                                0 <= j < i + 1 && handle_in(c, #[trigger] found@[j]).0 == k by {
                                if k == h {
                                    assert(handle_in(c, found@[i as int]).0 == k);
                                } else if mid[k] != before[k] {
                                    let j = choose|j: int|
                                        0 <= j < i && handle_in(c, #[trigger] found@[j]).0 == k;
                                    assert(0 <= j < i + 1 && handle_in(c, found@[j]).0 == k);
                                }
                            }
                        }
                    },
                    None => {},
                },
                None => {},
            }
            i += 1;
        }
        proof {
            let after = world.collide_world@;
            assert forall|e: specs::Entity| #[trigger] placed(c, e) implies after[handle_in(
                c,
                e,
            ).0 as int] == with_pose(
                before[handle_in(c, e).0 as int],
                pose_of(c[(Kind::Position, e)].position()),
            ) by {
                assert(found@.contains(e));
                let j = choose|j: int| 0 <= j < found@.len() && found@[j] == e;
                assert(found@[j] == e);
            }
            assert forall|k: int| 0 <= k < before.len() implies #[trigger] after[k] == before[k]
                || exists|e: specs::Entity| #[trigger] placed(c, e) && handle_in(c, e).0 == k by {
                if after[k] != before[k] {
                    let j = choose|j: int| 0 <= j < i && handle_in(c, #[trigger] found@[j]).0 == k;
                    assert(found@.contains(found@[j]));
                    assert(placed(c, found@[j]));
                }
            }
        }
    }
}

} // verus!
