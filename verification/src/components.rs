//! The components that entities carry.

use vstd::prelude::*;
use crate::collision::Handle;
use crate::store::{
    components, entities, has_storage, register, registered, Datum, EntityStore, Kind, Stored,
};
use crate::types::{
    clamp, clamped, negated, plus, quarter, quartered, saturate, Point2, Rect, Vector2, TAU,
};

verus! {

/// A position in the game world.
#[derive(Clone, Copy, Debug, PartialEq, Eq, Structural)]
pub struct Position {
    pub point: Point2,
    pub rotation: i64,
}

/// A sprite: the part of the sprite sheet to draw, and at what scale.
#[derive(Clone, Copy, Debug, PartialEq, Eq, Structural)]
pub struct Sprite {
    pub clip: Rect,
    pub scale: Vector2,
}

/// Motion in the game world.
#[derive(Clone, Copy, Debug, PartialEq, Eq, Structural)]
pub struct Motion {
    pub is_blocked: bool,
    pub velocity: Vector2,
    pub acceleration: Vector2,
    pub orientation: i64,
}

/// The collision object that stands for an entity.
#[derive(Clone, Copy, Debug, PartialEq, Eq, Structural)]
pub struct Collider {
    pub handle: Handle,
}

/// Just a marker that a particular entity is the player.
#[derive(Clone, Copy, Debug, Default, PartialEq, Eq, Structural)]
pub struct Player;

/// The damage that a shot deals.
#[derive(Clone, Copy, Debug, Default, PartialEq, Eq, Structural)]
pub struct Shot {
    pub damage: u32,
}

/// The least velocity along the driving axis: half a unit per tick, backwards.
pub const MIN_VELOCITY: i64 = -32768;

/// The greatest velocity along the driving axis: two units per tick.
pub const MAX_VELOCITY: i64 = 131072;

/// The orientation `o` brought back by one full turn where it has left the
/// range from zero to a full turn.
pub open spec fn wrapped(o: i64) -> i64 {
    if o < 0 {
        (o + TAU) as i64
    } else if o > TAU {
        (o - TAU) as i64
    } else {
        o
    }
}

impl Motion {
    /// The motion after its entity has run into something: blocked, thrown
    /// back along the vertical axis, and at rest along the horizontal one.
    pub open spec fn bounced(self) -> Motion {
        Motion {
            is_blocked: true,
            velocity: Vector2 { x: 0, y: saturate(-self.velocity.y) },
            acceleration: Vector2 { x: 0, y: saturate(-self.acceleration.y) },
            orientation: self.orientation,
        }
    }

    /// The motion after its entity has come free: no longer blocked, and
    /// otherwise as it was.
    pub open spec fn released(self) -> Motion {
        Motion { is_blocked: false, ..self }
    }

    /// The motion after the controls have acted on it for one tick. A blocked
    /// motion does not answer to the controls. Otherwise a quarter of
    /// `steering` is added to the orientation, which is then wrapped once, and
    /// `throttle` is added to the vertical acceleration, which is then limited
    /// to the range from `MIN_VELOCITY` to `MAX_VELOCITY`.
    pub open spec fn steered(self, steering: i64, throttle: i64) -> Motion {
        if self.is_blocked {
            self
        } else {
            Motion {
                is_blocked: false,
                velocity: self.velocity,
                acceleration: Vector2 {
                    x: self.acceleration.x,
                    y: clamped(
                        saturate(self.acceleration.y + throttle),
                        MIN_VELOCITY,
                        MAX_VELOCITY,
                    ),
                },
                orientation: wrapped(saturate(self.orientation + quartered(steering))),
            }
        }
    }

    /// Blocks the motion and throws it back.
    pub fn bounce(&mut self)
        ensures
            *final(self) == old(self).bounced(),
    {
        self.is_blocked = true;
        self.velocity = Vector2 { x: 0, y: negated(self.velocity.y) };
        self.acceleration = Vector2 { x: 0, y: negated(self.acceleration.y) };
    }

    /// Lets the motion go free again.
    pub fn release(&mut self)
        ensures
            *final(self) == old(self).released(),
    {
        self.is_blocked = false;
    }

    /// Lets the controls act on the motion for one tick.
    pub fn steer(&mut self, steering: i64, throttle: i64)
        ensures
            *final(self) == old(self).steered(steering, throttle),
    {
        if !self.is_blocked {
            let turned = plus(self.orientation, quarter(steering));
            if turned < 0 {
                self.orientation = turned + TAU;
            } else if turned > TAU {
                self.orientation = turned - TAU;
            } else {
                self.orientation = turned;
            }
            self.acceleration.y = clamp(
                plus(self.acceleration.y, throttle),
                MIN_VELOCITY,
                MAX_VELOCITY,
            );
        }
    }
}

impl specs::Component for Position {
    type Storage = specs::VecStorage<Position>;
}

impl specs::Component for Sprite {
    type Storage = specs::VecStorage<Sprite>;
}

impl specs::Component for Motion {
    type Storage = specs::VecStorage<Motion>;
}

impl specs::Component for Collider {
    type Storage = specs::VecStorage<Collider>;
}

impl specs::Component for Player {
    type Storage = specs::NullStorage<Player>;
}

impl specs::Component for Shot {
    type Storage = specs::VecStorage<Shot>;
}

impl Stored for Position {
    open spec fn kind() -> Kind {
        Kind::Position
    }

    open spec fn datum(self) -> Datum {
        Datum::Position(self)
    }
}

impl Stored for Sprite {
    open spec fn kind() -> Kind {
        Kind::Sprite
    }

    open spec fn datum(self) -> Datum {
        Datum::Sprite(self)
    }
}

impl Stored for Motion {
    open spec fn kind() -> Kind {
        Kind::Motion
    }

    open spec fn datum(self) -> Datum {
        Datum::Motion(self)
    }
}

impl Stored for Collider {
    open spec fn kind() -> Kind {
        Kind::Collider
    }

    open spec fn datum(self) -> Datum {
        Datum::Collider(self)
    }
}

impl Stored for Player {
    open spec fn kind() -> Kind {
        Kind::Player
    }

    open spec fn datum(self) -> Datum {
        Datum::Player(self)
    }
}

/// Registers the storages of all kinds of component. A storage that existed
/// already is left alone, so entities and components stay as they are.
pub fn register_components(specs_world: &mut EntityStore)
    ensures
        registered(*final(specs_world)),
        entities(*final(specs_world)) == entities(*old(specs_world)),
        components(*final(specs_world)) == components(*old(specs_world)),
{
    register::<Position>(specs_world);
    register::<Motion>(specs_world);
    register::<Collider>(specs_world);
    register::<Player>(specs_world);
    register::<Sprite>(specs_world);
    assert forall|k: Kind| #[trigger] has_storage(*specs_world, k) by {
        match k {
            Kind::Position => {},
            Kind::Motion => {},
            Kind::Collider => {},
            Kind::Player => {},
            Kind::Sprite => {},
        }
    }
}

} // verus!
