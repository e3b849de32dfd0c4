//! The level: two cars on a map, one of them driven by the player.

use vstd::prelude::*;
use crate::collision::{
    CollisionGroups, CollisionObject, ContactEvent, Cuboid, GeometricQueryType, Handle, Isometry2,
};
use crate::components::{Collider, Motion, Position, Sprite};
use crate::store::{
    fetch, joined, no_components, store, Components, Datum, Kind, MAX_ENTITIES,
};
use crate::systems::{moved, synced, CollisionSystem, Dispatcher, MovementSystem, VerticalAxis};
use crate::types::{minus, plus, point2, saturate, vec2, Point2, Rect, Vector2};
use crate::world::{motion_in, World};

verus! {

/// What the scene asks of the scene stack after a tick.
#[derive(Clone, Copy, Debug, PartialEq, Eq, Structural)]
pub enum SceneSwitch {
    /// Stay in this scene.
    Stay,
    /// Leave this scene.
    Pop,
}

/// The controls as sampled for one tick: whether the menu button is down, and
/// the two axes, each between minus one and one unit.
#[derive(Clone, Copy, Debug, PartialEq, Eq, Structural)]
pub struct Controls {
    pub menu: bool,
    pub steering: i64,
    pub throttle: i64,
}

/// How to draw one sprite: the part of the sprite sheet to take, where on the
/// screen to put it, how far to turn it about the point `offset` of the
/// sprite, and at what scale.
#[derive(Clone, Copy, Debug, PartialEq, Eq, Structural)]
pub struct DrawParam {
    pub src: Rect,
    pub dest: Point2,
    pub rotation: i64,
    pub scale: Vector2,
    pub offset: Point2,
}

/// The level with its cars: whether it has been asked to end, the entity that
/// the player drives, and the systems that run each tick.
pub struct LevelScene {
    done: bool,
    player_entity: specs::Entity,
    dispatcher: Dispatcher,
}

/// Where the player's car starts.
pub open spec fn player_start() -> Position {
    Position { point: Point2 { x: 6553600, y: 19660800 }, rotation: 0 }
}

/// Where the other car stands.
pub open spec fn other_start() -> Position {
    Position { point: Point2 { x: 6553600, y: 6553600 }, rotation: 0 }
}

/// The motion of a car at rest.
pub open spec fn at_rest() -> Motion {
    Motion {
        is_blocked: false,
        velocity: Vector2 { x: 0, y: 0 },
        acceleration: Vector2 { x: 0, y: 0 },
        orientation: 0,
    }
}

/// The sprite of the car in column `column` of the sprite sheet, drawn at
/// half its size. A column is 76 of the sheet's 384 pixels wide.
pub open spec fn car_sprite(column: int) -> Sprite {
    Sprite {
        clip: Rect { x: (column * 12971) as i64, y: 0, w: 12971, h: 65536 },
        scale: Vector2 { x: 32768, y: 32768 },
    }
}

/// The collision object of a car at `p` that belongs to the entity `owner`:
/// a box of 38 by 76 units that reports contacts.
pub open spec fn car_object(p: Position, owner: specs::Entity) -> CollisionObject {
    CollisionObject {
        position: Isometry2 { translation: Vector2 { x: p.point.x, y: p.point.y }, rotation: 0 },
        shape: Cuboid { half_extents: Vector2 { x: 1245184, y: 2490368 } },
        collision_groups: CollisionGroups {
            membership: 0x3fff_ffff,
            whitelist: 0x3fff_ffff,
            blacklist: 0,
        },
        query_type: GeometricQueryType::Contacts(0, 0),
        data: owner,
    }
}

/// Whether `after` is `before` with the two cars of the level added: the
/// player's car `player`, which can move, and the car `other`, which cannot.
pub open spec fn furnished(
    before: &World,
    after: &World,
    player: specs::Entity,
    other: specs::Entity,
) -> bool {
    let n = before.collide_world@.len();
    &&& player != other
    &&& !before.entities().contains(player)
    &&& !before.entities().contains(other)
    &&& after.entities() == before.entities().insert(player).insert(other)
    &&& after.components() == before.components().insert(
        (Kind::Position, player),
        Datum::Position(player_start()),
    ).insert((Kind::Motion, player), Datum::Motion(at_rest())).insert(
        (Kind::Sprite, player),
        Datum::Sprite(car_sprite(0)),
    ).insert((Kind::Position, other), Datum::Position(other_start())).insert(
        (Kind::Sprite, other),
        Datum::Sprite(car_sprite(1)),
    ).insert(
        (Kind::Collider, player),
        Datum::Collider(Collider { handle: Handle(n as usize) }),
    ).insert(
        (Kind::Collider, other),
        Datum::Collider(Collider { handle: Handle((n + 1) as usize) }),
    )
    &&& after.collide_world@ == before.collide_world@.push(
        car_object(player_start(), player),
    ).push(car_object(other_start(), other))
    &&& after.collide_world.margin_of() == before.collide_world.margin_of()
}

/// By how much everything is shifted on the screen to keep the player's car
/// in view, on a map that is `map_width` wide. The screen is 800 by 600.
pub open spec fn camera_at(player: Point2, map_width: i64) -> Point2 {
    Point2 {
        x: if player.x > 26214400 {
            if player.x < saturate(map_width - 26214400) {
                (26214400 - player.x) as i64
            } else {
                saturate(map_width + 26214400)
            }
        } else {
            0
        },
        y: if player.y > 19660800 {
            (19660800 - player.y) as i64
        } else {
            0
        },
    }
}

/// How to draw the sprite `s` of an entity at `p` when the camera has shifted
/// the screen by `camera`: turned about its middle.
pub open spec fn sprite_param(p: Position, s: Sprite, camera: Point2) -> DrawParam {
    DrawParam {
        src: s.clip,
        dest: Point2 { x: saturate(camera.x + p.point.x), y: saturate(camera.y + p.point.y) },
        rotation: p.rotation,
        scale: s.scale,
        offset: Point2 { x: 32768, y: 32768 },
    }
}

/// Whether the entity `e` has both a position and a sprite in `c`.
pub open spec fn drawn(c: Components, e: specs::Entity) -> bool {
    c.contains_key((Kind::Position, e)) && c.contains_key((Kind::Sprite, e))
}

/// Whether `order` lists, each once, the entities that have a position and a
/// sprite in `c`.
pub open spec fn lists_drawn(c: Components, order: Seq<specs::Entity>) -> bool {
    &&& order.no_duplicates()
    &&& forall|e: specs::Entity| #[trigger] order.contains(e) <==> drawn(c, e)
}

/// How to draw the entities of `order`, one after the other.
pub open spec fn sprite_params(
    c: Components,
    order: Seq<specs::Entity>,
    camera: Point2,
) -> Seq<DrawParam> {
    Seq::new(
        order.len(),
        |i: int|
            sprite_param(
                c[(Kind::Position, order[i])].position(),
                c[(Kind::Sprite, order[i])].sprite(),
                camera,
            ),
    )
}

/// The components after one side of a contact event has reached the entity
/// `e`: an entity with a motion is thrown back when the contact starts and
/// set free when it stops; an entity without one is passed over.
pub open spec fn touched(c: Components, e: specs::Entity, started: bool) -> Components {
    if c.contains_key((Kind::Motion, e)) {
        c.insert(
            (Kind::Motion, e),
            Datum::Motion(
                if started {
                    c[(Kind::Motion, e)].motion().bounced()
                } else {
                    c[(Kind::Motion, e)].motion().released()
                },
            ),
        )
    } else {
        c
    }
}

/// The components after one contact event: it reaches the owner of its first
/// object and then the owner of its second.
pub open spec fn after_event(
    c: Components,
    owners: Seq<specs::Entity>,
    event: ContactEvent,
) -> Components {
    let started = event is Started;
    touched(
        touched(c, owners[event.first().0 as int], started),
        owners[event.second().0 as int],
        started,
    )
}

/// The components after a batch of contact events, taken in their order.
pub open spec fn resolved(
    c: Components,
    owners: Seq<specs::Entity>,
    events: Seq<ContactEvent>,
) -> Components
    decreases events.len(),
{
    if events.len() == 0 {
        c
    } else {
        after_event(resolved(c, owners, events.drop_last()), owners, events.last())
    }
}

/// When a contact between the objects of two different entities starts, each
/// of the two that has a motion is blocked and thrown back, and what it is
/// thrown back to depends on its own motion before the event alone.
pub proof fn lemma_contact_start_is_symmetric(
    c: Components,
    owners: Seq<specs::Entity>,
    first: Handle,
    second: Handle,
)
    requires
        first.0 < owners.len(),
        second.0 < owners.len(),
        owners[first.0 as int] != owners[second.0 as int],
    ensures
        ({
            let after = after_event(c, owners, ContactEvent::Started(first, second));
            let a = owners[first.0 as int];
            let b = owners[second.0 as int];
            &&& motion_in(c, a) matches Some(m) ==> motion_in(after, a) == Some(m.bounced())
                && motion_in(after, a)->0.is_blocked
            &&& motion_in(c, b) matches Some(m) ==> motion_in(after, b) == Some(m.bounced())
                && motion_in(after, b)->0.is_blocked
            &&& motion_in(c, a) is None ==> motion_in(after, a) is None
            &&& motion_in(c, b) is None ==> motion_in(after, b) is None
        }),
{
}

/// When a contact stops, each of its two entities that has a motion is free
/// again, whatever else it may still touch, and moves as it did before.
pub proof fn lemma_contact_stop_clears_block(
    c: Components,
    owners: Seq<specs::Entity>,
    first: Handle,
    second: Handle,
)
    requires
        first.0 < owners.len(),
        second.0 < owners.len(),
    ensures
        ({
            let after = after_event(c, owners, ContactEvent::Stopped(first, second));
            let a = owners[first.0 as int];
            let b = owners[second.0 as int];
            &&& motion_in(c, a) matches Some(m) ==> motion_in(after, a) == Some(m.released())
                && !motion_in(after, a)->0.is_blocked && motion_in(after, a)->0.velocity
                == m.velocity && motion_in(after, a)->0.acceleration == m.acceleration
            &&& motion_in(c, b) matches Some(m) ==> motion_in(after, b) == Some(m.released())
                && !motion_in(after, b)->0.is_blocked && motion_in(after, b)->0.velocity
                == m.velocity && motion_in(after, b)->0.acceleration == m.acceleration
        }),
{
}

/// A contact event changes nothing but the motions of its two entities.
pub proof fn lemma_contact_touches_its_pair_only(
    c: Components,
    owners: Seq<specs::Entity>,
    event: ContactEvent,
    key: (Kind, specs::Entity),
)
    requires
        key.0 != Kind::Motion || (key.1 != owners[event.first().0 as int] && key.1
            != owners[event.second().0 as int]),
    ensures
        after_event(c, owners, event).contains_key(key) == c.contains_key(key),
        after_event(c, owners, event)[key] == c[key],
        after_event(c, owners, event).dom() =~= c.dom(),
{
}

/// A blocked motion does not answer to the controls.
pub proof fn lemma_blocked_ignores_input(m: Motion, steering: i64, throttle: i64)
    requires
        m.is_blocked,
    ensures
        m.steered(steering, throttle) == m,
{
}

/// A tick on a world without entities and without collision objects changes
/// nothing: movement and the push into the registry leave it as it is, the
/// only batch of contact events that it admits is the empty one, and that
/// batch leaves the components as they are.
pub proof fn lemma_empty_tick(
    axis: VerticalAxis,
    objects: Seq<CollisionObject>,
    after: Seq<CollisionObject>,
    events: Seq<ContactEvent>,
)
    requires
        objects.len() == 0,
        synced(moved(no_components(), axis), objects, after),
        forall|i: int|
            0 <= i < events.len() ==> (#[trigger] events[i]).first().0 < objects.len()
                && events[i].second().0 < objects.len(),
    ensures
        moved(no_components(), axis) == no_components(),
        after == objects,
        events.len() == 0,
        resolved(no_components(), Seq::empty(), events) == no_components(),
{
    assert(moved(no_components(), axis) =~= no_components());
    assert(after =~= objects);
    if events.len() > 0 {
        assert(events[0].first().0 < objects.len());
    }
}

impl LevelScene {
    /// Whether the scene has been asked to end.
    pub closed spec fn is_done(&self) -> bool {
        self.done
    }

    /// The entity that the controls drive.
    pub closed spec fn player(&self) -> specs::Entity {
        self.player_entity
    }

    /// The direction of the vertical axis that the scene's movement uses.
    pub closed spec fn vertical_axis(&self) -> VerticalAxis {
        self.dispatcher.movement.vertical_axis
    }

    /// The entity that the controls drive.
    pub fn player_entity(&self) -> (e: specs::Entity)
        ensures
            e == self.player(),
    {
        self.player_entity
    }

    /// Whether the scene has been asked to end.
    pub fn done(&self) -> (done: bool)
        ensures
            done == self.is_done(),
    {
        self.done
    }

    /// Puts the two cars of the level into `world` and returns the scene that
    /// drives the first of them. The second car belongs to the last collision
    /// object of the world.
    pub fn new(world: &mut World) -> (scene: LevelScene)
        requires
            old(world).wf(),
            old(world).entities().len() + 2 <= MAX_ENTITIES,
        ensures
            final(world).wf(),
            !scene.is_done(),
            scene.vertical_axis() == VerticalAxis::Up,
            final(world).collide_world@.len() == old(world).collide_world@.len() + 2,
            final(world).collide_world.extends(&old(world).collide_world),
            furnished(
                old(world),
                final(world),
                scene.player(),
                final(world).collide_world@.last().data,
            ),
    {
        let half_height: i64 = 2490368;
        let half_width: i64 = 1245184;

        // shared collision properties
        let car_shape = Cuboid { half_extents: vec2(half_width, half_height) };
        let car_collision_group = CollisionGroups::new();
        let contacts_query = GeometricQueryType::Contacts(0, 0);
        let column: i64 = 12971;
        let half: i64 = 32768;
        let one: i64 = 65536;

        // player 1
        let player_entity = world.create_entity();
        world.insert_position(
            player_entity,
            Position { point: point2(6553600, 19660800), rotation: 0 },
        );
        world.insert_motion(
            player_entity,
            Motion {
                velocity: vec2(0, 0),
                acceleration: vec2(0, 0),
                is_blocked: false,
                orientation: 0,
            },
        );
        world.insert_sprite(
            player_entity,
            Sprite { clip: Rect { x: 0, y: 0, h: one, w: column }, scale: vec2(half, half) },
        );

        // other car
        let car_entity = world.create_entity();
        world.insert_position(car_entity, Position { point: point2(6553600, 6553600), rotation: 0 });
        world.insert_sprite(
            car_entity,
            Sprite { clip: Rect { x: column, y: 0, h: one, w: column }, scale: vec2(half, half) },
        );

        // collisions
        world.add_collider(
            player_entity,
            Isometry2 { translation: vec2(6553600, 19660800), rotation: 0 },
            car_shape,
            car_collision_group,
            contacts_query,
        );
        world.add_collider(
            car_entity,
            Isometry2 { translation: vec2(6553600, 6553600), rotation: 0 },
            car_shape,
            car_collision_group,
            contacts_query,
        );

        LevelScene { done: false, player_entity, dispatcher: Self::register_systems() }
    }

    /// The systems of the level: movement with the vertical axis of
    /// velocities pointing up, then the push into the collision registry.
    fn register_systems() -> (dispatcher: Dispatcher)
        ensures
            dispatcher.movement.vertical_axis == VerticalAxis::Up,
    {
        Dispatcher { movement: MovementSystem::new(VerticalAxis::Up), collision: CollisionSystem }
    }

    /// Lets one side of a contact event reach the owner of `handle`.
    fn touch(world: &mut World, handle: Handle, started: bool)
        requires
            old(world).wf(),
            old(world).collide_world.holds(handle),
        ensures
            final(world).wf(),
            final(world).components() == touched(
                old(world).components(),
                old(world).collide_world.owners()[handle.0 as int],
                started,
            ),
            final(world).entities() == old(world).entities(),
            final(world).collide_world == old(world).collide_world,
    {
        // look up the entity
        let owner = world.collide_world.resolve_owner(handle);
        match fetch::<Motion>(&world.specs_world, owner) {
            Some(found) => {
                let mut motion = found;
                if started {
                    motion.bounce();
                } else {
                    motion.release();
                }
                let _ = store::<Motion>(&mut world.specs_world, owner, motion);
            },
            None => {},
        }
    }

    /// Applies the contact events of the collision engine's last step to the
    /// motions of the entities that they name.
    pub fn update_collisions(&mut self, world: &mut World, events: &Vec<ContactEvent>)
        requires
            old(world).wf(),
            old(world).collide_world.knows(events@),
        ensures
            final(world).wf(),
            final(world).components() == resolved(
                old(world).components(),
                old(world).collide_world.owners(),
                events@,
            ),
            final(world).entities() == old(world).entities(),
            final(world).collide_world == old(world).collide_world,
            *final(self) == *old(self),
    {
        let ghost before = world.components();
        let ghost owners = world.collide_world.owners();
        let mut i: usize = 0;
        while i < events.len()
            invariant
                0 <= i <= events.len(),
                world.wf(),
                world.collide_world == old(world).collide_world,
                world.collide_world.knows(events@),
                owners == world.collide_world.owners(),
                before == old(world).components(),
                world.entities() == old(world).entities(),
                world.components() == resolved(before, owners, events@.take(i as int)),
            decreases events.len() - i,
        {
            let event = events[i];
            assert(world.collide_world.holds(events@[i as int].first()));
            match event {
                ContactEvent::Started(handle1, handle2) => {
                    Self::touch(world, handle1, true);
                    Self::touch(world, handle2, true);
                },
                ContactEvent::Stopped(handle1, handle2) => {
                    Self::touch(world, handle1, false);
                    Self::touch(world, handle2, false);
                },
            }
            proof {
                assert(events@.take(i + 1).drop_last() =~= events@.take(i as int));
                assert(events@.take(i + 1).last() == event);
            }
            i += 1;
        }
        proof {
            assert(events@.take(i as int) =~= events@);
        }
    }

    /// Runs the systems of one tick: movement, then the push of the new
    /// positions into the collision registry. The collision engine is to step
    /// next, on the poses that the registry now holds.
    pub fn update(&mut self, world: &mut World) -> (switch: SceneSwitch)
        requires
            old(world).wf(),
        ensures
            final(world).wf(),
            final(world).components() == moved(old(world).components(), old(self).vertical_axis()),
            synced(
                final(world).components(),
                old(world).collide_world@,
                final(world).collide_world@,
            ),
            final(world).collide_world.extends(&old(world).collide_world),
            final(world).collide_world.margin_of() == old(world).collide_world.margin_of(),
            final(world).entities() == old(world).entities(),
            switch == (if old(self).is_done() {
                SceneSwitch::Pop
            } else {
                SceneSwitch::Stay
            }),
            *final(self) == *old(self),
    {
        self.dispatcher.dispatch(world);
        if self.done {
            SceneSwitch::Pop
        } else {
            SceneSwitch::Stay
        }
    }

    /// By how much everything is shifted on the screen to keep the point
    /// `player` in view, on a map that is `map_width` wide.
    pub fn camera_offset(player: Point2, map_width: i64) -> (camera: Point2)
        ensures
            camera == camera_at(player, map_width),
    {
        let mut camera = Point2 { x: 0, y: 0 };
        // window is 800 x 600
        if player.x > 26214400 {
            if player.x < minus(map_width, 26214400) {
                camera.x = 26214400 - player.x;
            } else {
                camera.x = plus(map_width, 26214400);
            }
        }
        if player.y > 19660800 {
            camera.y = 19660800 - player.y;
        }
        camera
    }

    /// What to draw for the scene: one sprite for every entity that has a
    /// position and a sprite, in some order, shifted so that the player's car
    /// stays in view.
    pub fn draw(&self, world: &World, map_width: i64) -> (params: Vec<DrawParam>)
        requires
            world.wf(),
            world.position_of(self.player()) is Some,
        ensures
            exists|order: Seq<specs::Entity>|
                lists_drawn(world.components(), order) && params@ == #[trigger] sprite_params(
                    world.components(),
                    order,
                    camera_at(world.position_of(self.player())->0.point, map_width),
                ),
    {
        let mut params: Vec<DrawParam> = Vec::new();
        let camera = match fetch::<Position>(&world.specs_world, self.player_entity) {
            Some(p) => Self::camera_offset(p.point, map_width),
            None => Point2 { x: 0, y: 0 },
        };
        let found = joined::<Position, Sprite>(&world.specs_world);
        let ghost c = world.components();
        let mut i: usize = 0;
        while i < found.len()
            invariant
                0 <= i <= found.len(),
                world.wf(),
                c == world.components(),
                camera == camera_at(world.position_of(self.player())->0.point, map_width),
                forall|e: specs::Entity| #[trigger] found@.contains(e) <==> drawn(c, e),
                params@ == sprite_params(c, found@.take(i as int), camera),
            decreases found.len() - i,
        {
            let e = found[i];
            assert(found@.contains(e));
            let position = fetch::<Position>(&world.specs_world, e);
            let sprite = fetch::<Sprite>(&world.specs_world, e);
            match position {
                Some(p) => match sprite {
                    Some(s) => {
                        params.push(
                            DrawParam {
                                src: s.clip,
                                dest: Point2 {
                                    x: plus(camera.x, p.point.x),
                                    y: plus(camera.y, p.point.y),
                                },
                                rotation: p.rotation,
                                scale: s.scale,
                                offset: Point2 { x: 32768, y: 32768 },
                            },
                        );
                    },
                    None => {},
                },
                None => {},
            }
            proof {
                assert(found@.take(i + 1) =~= found@.take(i as int).push(e));
                assert(params@ =~= sprite_params(c, found@.take(i + 1), camera));
            }
            i += 1;
        }
        proof {
            assert(found@.take(i as int) =~= found@);
            assert(lists_drawn(c, found@));
        }
        params
    }

    /// The name of the scene.
    pub fn name(&self) -> (name: &'static str)
        ensures
            name@ == "LevelScene"@,
    {
        "LevelScene"
    }

    /// Gives the player's car the velocity `velocity`, unless the car is
    /// blocked: a blocked car keeps the velocity that it has.
    pub fn set_velocity(&self, world: &mut World, velocity: Vector2)
        requires
            old(world).wf(),
            old(world).motion_of(self.player()) is Some,
        ensures
            final(world).wf(),
            final(world).components() == (if old(world).motion_of(self.player())->0.is_blocked {
                old(world).components()
            } else {
                old(world).components().insert(
                    (Kind::Motion, self.player()),
                    Datum::Motion(
                        Motion { velocity, ..old(world).motion_of(self.player())->0 },
                    ),
                )
            }),
            final(world).entities() == old(world).entities(),
            final(world).collide_world == old(world).collide_world,
    {
        match fetch::<Motion>(&world.specs_world, self.player_entity) {
            Some(found) => {
                if !found.is_blocked {
                    let mut motion = found;
                    motion.velocity = velocity;
                    let _ = store::<Motion>(&mut world.specs_world, self.player_entity, motion);
                }
            },
            None => {},
        }
    }

    /// Lets the controls act: the menu button ends the scene, and the axes
    /// steer the player's car unless it is blocked.
    pub fn input(&mut self, world: &mut World, controls: Controls)
        requires
            old(world).wf(),
            old(world).motion_of(old(self).player()) is Some,
        ensures
            final(world).wf(),
            final(self).is_done() == (old(self).is_done() || controls.menu),
            final(self).player() == old(self).player(),
            final(self).vertical_axis() == old(self).vertical_axis(),
            final(world).components() == old(world).components().insert(
                (Kind::Motion, old(self).player()),
                Datum::Motion(
                    old(world).motion_of(old(self).player())->0.steered(
                        controls.steering,
                        controls.throttle,
                    ),
                ),
            ),
            old(world).motion_of(old(self).player())->0.is_blocked ==> final(world).components()
                == old(world).components(),
            final(world).entities() == old(world).entities(),
            final(world).collide_world == old(world).collide_world,
    {
        let ghost before = world.components();
        if controls.menu {
            self.done = true;
        }
        match fetch::<Motion>(&world.specs_world, self.player_entity) {
            Some(found) => {
                let mut motion = found;
                motion.steer(controls.steering, controls.throttle);
                let _ = store::<Motion>(&mut world.specs_world, self.player_entity, motion);
                assert(found.is_blocked ==> world.components() =~= before);
            },
            None => {},
        }
    }
}

} // verus!
