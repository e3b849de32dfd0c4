use car_sim::collision::{
    CollisionGroups, CollisionWorld, Cuboid, GeometricQueryType, Handle, Isometry2,
};
use car_sim::components::{Motion, Position};
use car_sim::systems::{CollisionSystem, Dispatcher, MovementSystem, VerticalAxis};
use car_sim::types::{point2, vec2, UNIT};
use car_sim::world::World;

fn box_shape() -> Cuboid {
    Cuboid { half_extents: vec2(19 * UNIT, 38 * UNIT) }
}

fn origin() -> Isometry2 {
    Isometry2 { translation: vec2(0, 0), rotation: 0 }
}

fn collide(world: &mut World, e: specs::Entity) -> Handle {
    world.add_collider(e, origin(), box_shape(), CollisionGroups::new(), GeometricQueryType::Contacts(0, 0))
}

#[test]
fn every_handle_that_add_returns_resolves_to_its_owner() {
    let mut world = World::new();
    let mut pairs = Vec::new();
    for _ in 0..20 {
        let e = world.create_entity();
        let h = collide(&mut world, e);
        pairs.push((h, e));
        for (h, e) in &pairs {
            assert_eq!(world.collide_world.resolve_owner(*h), *e);
        }
    }
    CollisionSystem.run(&mut world);
    world.collide_world.set_transform(Handle(3), Isometry2 { translation: vec2(1, 1), rotation: 1 });
    for (h, e) in &pairs {
        assert_eq!(world.collide_world.resolve_owner(*h), *e);
        assert_eq!(world.collide_world.collision_object(*h).unwrap().data, *e);
    }
}

#[test]
fn an_unregistered_handle_names_no_object() {
    let mut registry = CollisionWorld::new(5);
    assert!(registry.collision_object(Handle(0)).is_none());
    let mut world = World::new();
    let e = world.create_entity();
    registry.add(origin(), box_shape(), CollisionGroups::new(), GeometricQueryType::Contacts(0, 0), e);
    assert!(registry.collision_object(Handle(0)).is_some());
    assert!(registry.collision_object(Handle(1)).is_none());
    assert_eq!(registry.margin(), 5);
}

#[test]
fn set_transform_overwrites_the_pose_and_nothing_else() {
    let mut world = World::new();
    let a = world.create_entity();
    let b = world.create_entity();
    let ha = collide(&mut world, a);
    let hb = collide(&mut world, b);
    let pose = Isometry2 { translation: vec2(7 * UNIT, -UNIT), rotation: 9 };
    world.collide_world.set_transform(ha, pose);
    let once = world.collide_world.collision_object(ha).unwrap();
    assert_eq!(once.position, pose);
    assert_eq!(once.shape, box_shape());
    assert_eq!(once.data, a);
    assert_eq!(world.collide_world.collision_object(hb).unwrap().position, origin());
    world.collide_world.set_transform(ha, pose);
    let twice = world.collide_world.collision_object(ha).unwrap();
    assert_eq!(twice.position, once.position);
    assert_eq!(twice.shape, once.shape);
    assert_eq!(twice.query_type, once.query_type);
    assert_eq!(twice.data, once.data);
    assert_eq!(world.collide_world.len(), 2);
}

#[test]
fn the_collision_system_pushes_positions_into_the_registry() {
    let mut world = World::new();
    let a = world.create_entity();
    let b = world.create_entity();
    let c = world.create_entity();
    let ha = collide(&mut world, a);
    let hb = collide(&mut world, b);
    world.insert_position(a, Position { point: point2(UNIT, 2 * UNIT), rotation: 3 });
    world.insert_position(c, Position { point: point2(9, 9), rotation: 9 });
    CollisionSystem.run(&mut world);
    assert_eq!(
        world.collide_world.collision_object(ha).unwrap().position,
        Isometry2 { translation: vec2(UNIT, 2 * UNIT), rotation: 3 }
    );
    assert_eq!(world.collide_world.collision_object(hb).unwrap().position, origin());
    assert_eq!(world.collide_world.len(), 2);
    assert_eq!(world.position(a), Some(Position { point: point2(UNIT, 2 * UNIT), rotation: 3 }));
}

#[test]
fn the_registry_holds_the_new_position_after_the_systems_have_run() {
    let mut world = World::new();
    let e = world.create_entity();
    let h = collide(&mut world, e);
    world.insert_position(e, Position { point: point2(100 * UNIT, 300 * UNIT), rotation: 0 });
    world.insert_motion(
        e,
        Motion { is_blocked: false, velocity: vec2(2 * UNIT, UNIT), acceleration: vec2(0, 0), orientation: 40 },
    );
    let dispatcher = Dispatcher { movement: MovementSystem::new(VerticalAxis::Up), collision: CollisionSystem };
    dispatcher.dispatch(&mut world);
    let moved = Position { point: point2(102 * UNIT, 299 * UNIT), rotation: 40 };
    assert_eq!(world.position(e), Some(moved));
    assert_eq!(
        world.collide_world.collision_object(h).unwrap().position,
        Isometry2 { translation: vec2(102 * UNIT, 299 * UNIT), rotation: 40 }
    );
    dispatcher.dispatch(&mut world);
    assert_eq!(
        world.collide_world.collision_object(h).unwrap().position,
        Isometry2 { translation: vec2(104 * UNIT, 298 * UNIT), rotation: 40 }
    );
}
