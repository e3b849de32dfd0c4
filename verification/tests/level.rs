use car_sim::collision::{
    CollisionGroups, ContactEvent, Cuboid, GeometricQueryType, Handle, Isometry2,
};
use car_sim::components::{Collider, Motion, Position, Sprite};
use car_sim::scenes::level::{Controls, DrawParam, LevelScene, SceneSwitch};
use car_sim::systems::{CollisionSystem, MovementSystem, VerticalAxis};
use car_sim::types::{point2, vec2, Rect, UNIT};
use car_sim::world::World;

#[test]
fn the_level_starts_with_two_cars() {
    let mut world = World::new();
    let scene = LevelScene::new(&mut world);
    let player = scene.player_entity();
    assert!(!scene.done());
    assert_eq!(scene.name(), "LevelScene");
    assert_eq!(world.collide_world.len(), 2);
    let other = world.collide_world.resolve_owner(Handle(1));
    assert_eq!(world.collide_world.resolve_owner(Handle(0)), player);
    assert_ne!(player, other);

    assert_eq!(world.position(player), Some(Position { point: point2(100 * UNIT, 300 * UNIT), rotation: 0 }));
    assert_eq!(
        world.motion(player),
        Some(Motion { is_blocked: false, velocity: vec2(0, 0), acceleration: vec2(0, 0), orientation: 0 })
    );
    assert_eq!(
        world.sprite(player),
        Some(Sprite { clip: Rect { x: 0, y: 0, w: 12971, h: UNIT }, scale: vec2(UNIT / 2, UNIT / 2) })
    );
    assert_eq!(world.collider(player), Some(Collider { handle: Handle(0) }));

    assert_eq!(world.position(other), Some(Position { point: point2(100 * UNIT, 100 * UNIT), rotation: 0 }));
    assert_eq!(world.motion(other), None);
    assert_eq!(
        world.sprite(other),
        Some(Sprite { clip: Rect { x: 12971, y: 0, w: 12971, h: UNIT }, scale: vec2(UNIT / 2, UNIT / 2) })
    );
    assert_eq!(world.collider(other), Some(Collider { handle: Handle(1) }));

    let first = world.collide_world.collision_object(Handle(0)).unwrap();
    assert_eq!(first.position, Isometry2 { translation: vec2(100 * UNIT, 300 * UNIT), rotation: 0 });
    assert_eq!(first.shape, Cuboid { half_extents: vec2(19 * UNIT, 38 * UNIT) });
    assert_eq!(first.collision_groups, CollisionGroups::new());
    assert_eq!(first.query_type, GeometricQueryType::Contacts(0, 0));
    let second = world.collide_world.collision_object(Handle(1)).unwrap();
    assert_eq!(second.position, Isometry2 { translation: vec2(100 * UNIT, 100 * UNIT), rotation: 0 });
    assert_eq!(second.data, other);
}

#[test]
fn a_second_level_in_the_same_world_gets_its_own_cars() {
    let mut world = World::new();
    let first = LevelScene::new(&mut world);
    let second = LevelScene::new(&mut world);
    assert_ne!(first.player_entity(), second.player_entity());
    assert_eq!(world.collide_world.len(), 4);
    assert_eq!(world.collider(second.player_entity()), Some(Collider { handle: Handle(2) }));
    assert_eq!(world.collide_world.resolve_owner(Handle(2)), second.player_entity());
    assert_eq!(world.collider(first.player_entity()), Some(Collider { handle: Handle(0) }));
}

#[test]
fn a_tick_moves_the_player_and_keeps_the_registry_in_step() {
    let mut world = World::new();
    let mut scene = LevelScene::new(&mut world);
    let player = scene.player_entity();
    world.insert_motion(
        player,
        Motion { is_blocked: false, velocity: vec2(UNIT, 2 * UNIT), acceleration: vec2(0, 0), orientation: 123 },
    );
    assert_eq!(scene.update(&mut world), SceneSwitch::Stay);
    assert_eq!(world.position(player), Some(Position { point: point2(101 * UNIT, 298 * UNIT), rotation: 123 }));
    assert_eq!(
        world.collide_world.collision_object(Handle(0)).unwrap().position,
        Isometry2 { translation: vec2(101 * UNIT, 298 * UNIT), rotation: 123 }
    );
    assert_eq!(
        world.collide_world.collision_object(Handle(1)).unwrap().position,
        Isometry2 { translation: vec2(100 * UNIT, 100 * UNIT), rotation: 0 }
    );
}

#[test]
fn a_whole_tick_with_a_contact() {
    let mut world = World::new();
    let mut scene = LevelScene::new(&mut world);
    let player = scene.player_entity();
    scene.input(&mut world, Controls { menu: false, steering: 0, throttle: UNIT });
    let mut motion = world.motion(player).unwrap();
    assert_eq!(motion.acceleration, vec2(0, UNIT));
    motion.velocity = vec2(0, UNIT);
    world.insert_motion(player, motion);
    scene.update(&mut world);
    assert_eq!(world.position(player).unwrap().point, point2(100 * UNIT, 299 * UNIT));
    scene.update_collisions(&mut world, &vec![ContactEvent::Started(Handle(0), Handle(1))]);
    let after = world.motion(player).unwrap();
    assert!(after.is_blocked);
    assert_eq!(after.velocity, vec2(0, -UNIT));
    assert_eq!(after.acceleration, vec2(0, -UNIT));
    scene.input(&mut world, Controls { menu: false, steering: UNIT, throttle: UNIT });
    assert_eq!(world.motion(player), Some(after));
    scene.update(&mut world);
    assert_eq!(world.position(player).unwrap().point, point2(100 * UNIT, 300 * UNIT));
    scene.update_collisions(&mut world, &vec![ContactEvent::Stopped(Handle(0), Handle(1))]);
    assert!(!world.motion(player).unwrap().is_blocked);
    scene.input(&mut world, Controls { menu: false, steering: UNIT, throttle: UNIT });
    assert_eq!(world.motion(player).unwrap().acceleration, vec2(0, 0));
    assert_eq!(world.motion(player).unwrap().orientation, 16384);
}

#[test]
fn a_tick_on_an_empty_world_changes_nothing() {
    let mut world = World::new();
    MovementSystem::new(VerticalAxis::Up).run(&mut world);
    CollisionSystem.run(&mut world);
    assert_eq!(world.collide_world.len(), 0);
    let first = world.create_entity();
    assert_eq!(world.position(first), None);
    assert_eq!(world.motion(first), None);
}

#[test]
fn the_camera_follows_the_player_past_the_middle_of_the_screen() {
    let width = 2000 * UNIT;
    assert_eq!(LevelScene::camera_offset(point2(100 * UNIT, 100 * UNIT), width), point2(0, 0));
    assert_eq!(LevelScene::camera_offset(point2(400 * UNIT, 300 * UNIT), width), point2(0, 0));
    assert_eq!(LevelScene::camera_offset(point2(500 * UNIT, 100 * UNIT), width), point2(-100 * UNIT, 0));
    assert_eq!(LevelScene::camera_offset(point2(100 * UNIT, 450 * UNIT), width), point2(0, -150 * UNIT));
    assert_eq!(
        LevelScene::camera_offset(point2(1599 * UNIT, 301 * UNIT), width),
        point2(-1199 * UNIT, -UNIT)
    );
    assert_eq!(LevelScene::camera_offset(point2(1600 * UNIT, 0), width), point2(2400 * UNIT, 0));
    assert_eq!(LevelScene::camera_offset(point2(1700 * UNIT, 0), width), point2(2400 * UNIT, 0));
    assert_eq!(LevelScene::camera_offset(point2(401 * UNIT, 0), i64::MAX), point2(-UNIT, 0));
    assert_eq!(LevelScene::camera_offset(point2(401 * UNIT, 0), i64::MIN), point2(i64::MIN + 400 * UNIT, 0));
}

#[test]
fn the_scene_draws_one_sprite_for_each_car() {
    let mut world = World::new();
    let scene = LevelScene::new(&mut world);
    let bare = world.create_entity();
    world.insert_position(bare, Position { point: point2(1, 1), rotation: 1 });
    let mut params = scene.draw(&world, 2000 * UNIT);
    params.sort_by_key(|p| p.dest.y);
    assert_eq!(
        params,
        vec![
            DrawParam {
                src: Rect { x: 12971, y: 0, w: 12971, h: UNIT },
                dest: point2(100 * UNIT, 100 * UNIT),
                rotation: 0,
                scale: vec2(UNIT / 2, UNIT / 2),
                offset: point2(UNIT / 2, UNIT / 2),
            },
            DrawParam {
                src: Rect { x: 0, y: 0, w: 12971, h: UNIT },
                dest: point2(100 * UNIT, 300 * UNIT),
                rotation: 0,
                scale: vec2(UNIT / 2, UNIT / 2),
                offset: point2(UNIT / 2, UNIT / 2),
            },
        ]
    );
}

#[test]
fn the_scene_shifts_what_it_draws_by_the_camera() {
    let mut world = World::new();
    let scene = LevelScene::new(&mut world);
    let player = scene.player_entity();
    world.insert_position(player, Position { point: point2(500 * UNIT, 350 * UNIT), rotation: 77 });
    let mut params = scene.draw(&world, 2000 * UNIT);
    params.sort_by_key(|p| p.rotation);
    assert_eq!(params.len(), 2);
    assert_eq!(params[0].dest, point2(0, 50 * UNIT));
    assert_eq!(params[1].dest, point2(400 * UNIT, 300 * UNIT));
    assert_eq!(params[1].rotation, 77);
}
