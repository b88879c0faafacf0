//! The player's ship: steered by two axes, kept within its bounds, carried
//! forward with the camera.

use crate::camera::Rectangle;
use crate::collision_lines::{Collidable, CollisionLines, CollisionModel};
use crate::geometry::{Segment, Transform, Vector};
use crate::health::{Alive, Health, Killable};
use crate::world_pos::{Body, WorldPos};
use vstd::prelude::*;

verus! {

pub struct Player {
    pos: Vector,
    angle: i32,
    velocity: Vector,
    bounds: Rectangle,
    collision_model: CollisionModel,
    collision_lines: CollisionLines,
    health: Health,
}

/// Grid units by which the ship moves along an axis in one tick.
pub const PLAYER_SPEED: i32 = 2;

/// The part of the view in which the ship may fly when the camera stands at
/// the origin: its left two thirds.
pub open spec fn home_bounds() -> Rectangle {
    Rectangle { pos: Vector { x: 0, y: 0 }, size: Vector { x: 853, y: 720 } }
}

/// A living ship in state `before` after one tick of steering by `dx` and
/// `dy`, each -1, 0 or 1: it takes the velocity that the axes ask for, moves
/// by it, is brought back into `bounds`, and has its outline rebuilt there.
pub open spec fn steered(before: Body, bounds: Rectangle, dx: i32, dy: i32) -> Body {
    let velocity = Vector { x: (2 * dx) as i32, y: (2 * dy) as i32 };
    (Body { pos: bounds.nearest(before.pos.shifted(velocity)), velocity, ..before }).outlined()
}

impl View for Player {
    type V = Body;

    closed spec fn view(&self) -> Body {
        Body {
            pos: self.pos,
            angle: self.angle,
            velocity: self.velocity,
            model: self.collision_model@,
            outline: self.collision_lines@,
            alive: self.health.alive(),
        }
    }
}

impl WorldPos for Player {
    open spec fn position(&self) -> Vector {
        self@.pos
    }

    open spec fn heading(&self) -> i32 {
        self@.angle
    }

    fn world_pos(&self) -> (pos: Vector) {
        self.pos
    }

    fn angle(&self) -> (degrees: i32) {
        self.angle
    }
}

impl Alive for Player {
    open spec fn alive(&self) -> bool {
        self@.alive
    }

    fn is_alive(&self) -> (r: bool) {
        self.health.is_alive()
    }

    fn is_dead(&self) -> (r: bool) {
        self.health.is_dead()
    }
}

impl Killable for Player {
    open spec fn killed_from(&self, before: &Self) -> bool {
        self@ == before@.killed() && self.bounds() == before.bounds()
    }

    fn kill(&mut self) {
        self.health.kill();
    }
}

impl Collidable for Player {
    open spec fn outline(&self) -> Seq<Segment> {
        self@.outline
    }

    fn collision_lines(&self) -> (lines: &CollisionLines) {
        &self.collision_lines
    }
}


impl Player {
    /// How far it moves in one tick.
    pub fn velocity(&self) -> (v: Vector)
        ensures
            v == self@.velocity,
    {
        self.velocity
    }

    /// The rectangle in which the ship may fly.
    pub closed spec fn bounds(&self) -> Rectangle {
        self.bounds
    }

    /// A ship at `pos`, facing forward at 90 degrees, at rest.
    pub fn new(collision_model: CollisionModel, pos: Vector) -> (player: Self)
        ensures
            player@ == Body::fresh(collision_model@, pos, 90, Vector { x: 0, y: 0 }),
            player.bounds() == home_bounds(),
    {
        Player {
            pos,
            angle: 90,
            velocity: Vector { x: 0, y: 0 },
            bounds: Rectangle { pos: Vector { x: 0, y: 0 }, size: Vector { x: 853, y: 720 } },
            collision_model,
            collision_lines: CollisionLines::new(),
            health: Health::new(),
        }
    }

    /// Carries the ship and its bounds along with the camera.
    pub fn advance(&mut self, forward_velocity: Vector)
        ensures
            final(self)@ == (Body {
                pos: old(self)@.pos.shifted(forward_velocity),
                ..old(self)@
            }),
            final(self).bounds() == old(self).bounds().shifted(forward_velocity),
    {
        self.pos = self.pos.translate(forward_velocity);
        self.bounds = self.bounds.translate(forward_velocity);
    }

    /// One tick of steering. A dead ship does not respond.
    pub fn control(&mut self, dx: i32, dy: i32)
        requires
            -1 <= dx <= 1,
            -1 <= dy <= 1,
        ensures
            final(self).bounds() == old(self).bounds(),
            final(self)@ == if old(self)@.alive {
                steered(old(self)@, old(self).bounds(), dx, dy)
            } else {
                old(self)@
            },
    {
        if self.health.is_dead() {
            return ;
        }
        self.velocity = Vector { x: dx * PLAYER_SPEED, y: dy * PLAYER_SPEED };
        if dx != 0 || dy != 0 {
            self.pos = self.pos.translate(self.velocity);
        }
        self.pos = self.bounds.clamp(self.pos);
        let transform = Transform::place(self.pos, self.angle);
        self.collision_lines.update(transform, self.collision_model.clone());
    }
}

} // verus!
