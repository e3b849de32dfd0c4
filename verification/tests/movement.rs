use car_sim::components::{Motion, Position};
use car_sim::systems::{MovementSystem, VerticalAxis};
use car_sim::types::{point2, vec2, UNIT};
use car_sim::world::World;

fn still() -> Motion {
    Motion { is_blocked: false, velocity: vec2(0, 0), acceleration: vec2(0, 0), orientation: 0 }
}

#[test]
fn movement_adds_velocity_without_inversion() {
    let mut world = World::new();
    let e = world.create_entity();
    world.insert_position(e, Position { point: point2(100 * UNIT, 300 * UNIT), rotation: 0 });
    world.insert_motion(e, Motion { velocity: vec2(0, -UNIT), ..still() });
    MovementSystem::new(VerticalAxis::Down).run(&mut world);
    assert_eq!(
        world.position(e),
        Some(Position { point: point2(100 * UNIT, 299 * UNIT), rotation: 0 })
    );
}

#[test]
fn movement_inverts_the_vertical_axis_when_it_points_up() {
    let mut world = World::new();
    let e = world.create_entity();
    world.insert_position(e, Position { point: point2(100 * UNIT, 300 * UNIT), rotation: 0 });
    world.insert_motion(e, Motion { velocity: vec2(3 * UNIT, UNIT / 2), orientation: 7, ..still() });
    MovementSystem::new(VerticalAxis::Up).run(&mut world);
    assert_eq!(
        world.position(e),
        Some(Position { point: point2(103 * UNIT, 300 * UNIT - UNIT / 2), rotation: 7 })
    );
}

#[test]
fn movement_skips_entities_without_motion() {
    let mut world = World::new();
    let a = world.create_entity();
    let b = world.create_entity();
    let start = Position { point: point2(UNIT, 2 * UNIT), rotation: 5 };
    world.insert_position(a, start);
    world.insert_position(b, start);
    world.insert_motion(b, Motion { velocity: vec2(UNIT, UNIT), orientation: 9, ..still() });
    MovementSystem::new(VerticalAxis::Down).run(&mut world);
    assert_eq!(world.position(a), Some(start));
    assert_eq!(world.position(b), Some(Position { point: point2(2 * UNIT, 3 * UNIT), rotation: 9 }));
    assert_eq!(world.motion(a), None);
}

#[test]
fn movement_saturates_at_the_end_of_the_range() {
    let mut world = World::new();
    let e = world.create_entity();
    world.insert_position(e, Position { point: point2(i64::MAX, i64::MIN), rotation: 0 });
    world.insert_motion(e, Motion { velocity: vec2(1, 1), ..still() });
    MovementSystem::new(VerticalAxis::Up).run(&mut world);
    assert_eq!(world.position(e), Some(Position { point: point2(i64::MAX, i64::MIN), rotation: 0 }));
    world.insert_motion(e, Motion { velocity: vec2(-1, i64::MIN), ..still() });
    MovementSystem::new(VerticalAxis::Up).run(&mut world);
    assert_eq!(world.position(e), Some(Position { point: point2(i64::MAX - 1, -1), rotation: 0 }));
}

#[test]
fn movement_leaves_motion_and_other_components_alone() {
    let mut world = World::new();
    let e = world.create_entity();
    let motion = Motion { is_blocked: true, velocity: vec2(UNIT, 0), acceleration: vec2(4, 5), orientation: 6 };
    world.insert_position(e, Position { point: point2(0, 0), rotation: 0 });
    world.insert_motion(e, motion);
    let system = MovementSystem::new(VerticalAxis::Up);
    system.run(&mut world);
    system.run(&mut world);
    assert_eq!(world.motion(e), Some(motion));
    assert_eq!(world.position(e), Some(Position { point: point2(2 * UNIT, 0), rotation: 6 }));
    assert_eq!(system.velocity_vector(&motion), vec2(UNIT, 0));
    assert_eq!(
        system.integrate(Position { point: point2(1, 1), rotation: 0 }, &motion),
        Position { point: point2(UNIT + 1, 1), rotation: 6 }
    );
}

#[test]
fn movement_handles_many_entities() {
    let mut world = World::new();
    let mut entities = Vec::new();
    for i in 0..50i64 {
        let e = world.create_entity();
        world.insert_position(e, Position { point: point2(i, 2 * i), rotation: 0 });
        if i % 2 == 0 {
            world.insert_motion(e, Motion { velocity: vec2(i, -i), orientation: i, ..still() });
        }
        entities.push(e);
    }
    MovementSystem::new(VerticalAxis::Down).run(&mut world);
    for (i, e) in entities.iter().enumerate() {
        let i = i as i64;
        let expected = if i % 2 == 0 {
            Position { point: point2(2 * i, i), rotation: i }
        } else {
            Position { point: point2(i, 2 * i), rotation: 0 }
        };
        assert_eq!(world.position(*e), Some(expected));
    }
}
