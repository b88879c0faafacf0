//! Shots: fired by the player or by a turret, flying straight until they hit
//! something or leave the playfield.

use crate::camera::Rectangle;
use crate::collision_lines::{Collidable, CollisionLines, CollisionModel};
use crate::geometry::{placement, Segment, Transform, Vector};
use crate::health::{Alive, Health, Killable};
use crate::world_pos::{Body, WorldPos};
use vstd::prelude::*;

verus! {

pub struct Shot {
    pos: Vector,
    angle: i32,
    velocity: Vector,
    collision_model: CollisionModel,
    collision_lines: CollisionLines,
    health: Health,
}

/// The velocity of a shot fired at `angle` from something that moves by
/// `forward_velocity`: 8 units along the barrel, carried along by the shooter.
pub open spec fn muzzle_velocity(forward_velocity: Vector, angle: i32) -> Vector {
    placement(forward_velocity, angle).lands(Vector { x: 0, y: -8i32 })
}

impl View for Shot {
    type V = Body;

    closed spec fn view(&self) -> Body {
        Body {
            pos: self.pos,
            angle: self.angle,
            velocity: self.velocity,
            model: self.collision_model@,
            outline: self.collision_lines@,
            alive: self.health.alive(),
        }
    }
}

impl WorldPos for Shot {
    open spec fn position(&self) -> Vector {
        self@.pos
    }

    open spec fn heading(&self) -> i32 {
        self@.angle
    }

    fn world_pos(&self) -> (pos: Vector) {
        self.pos
    }

    fn angle(&self) -> (degrees: i32) {
        self.angle
    }
}

impl Alive for Shot {
    open spec fn alive(&self) -> bool {
        self@.alive
    }

    fn is_alive(&self) -> (r: bool) {
        self.health.is_alive()
    }

    fn is_dead(&self) -> (r: bool) {
        self.health.is_dead()
    }
}

impl Killable for Shot {
    open spec fn killed_from(&self, before: &Self) -> bool {
        self@ == before@.killed()
    }

    fn kill(&mut self) {
        self.health.kill();
    }
}

impl Collidable for Shot {
    open spec fn outline(&self) -> Seq<Segment> {
        self@.outline
    }

    fn collision_lines(&self) -> (lines: &CollisionLines) {
        &self.collision_lines
    }
}

impl Shot {
    /// How far it moves in one tick.
    pub fn velocity(&self) -> (v: Vector)
        ensures
            v == self@.velocity,
    {
        self.velocity
    }

    pub fn new(
        collision_model: CollisionModel,
        pos: Vector,
        forward_velocity: Vector,
        angle: i32,
    ) -> (shot: Self)
        ensures
            shot@ == Body::fresh(
                collision_model@,
                pos,
                angle,
                muzzle_velocity(forward_velocity, angle),
            ),
    {
        Shot {
            pos,
            angle,
            velocity: Transform::place(forward_velocity, angle).apply(Vector { x: 0, y: -8 }),
            collision_model,
            collision_lines: CollisionLines::new(),
            health: Health::new(),
        }
    }

    /// One tick of flight: the shot moves by its velocity, its outline is
    /// rebuilt there, and it dies if it has left `playfield`.
    pub fn control(&mut self, playfield: &Rectangle)
        ensures
            final(self)@ == old(self)@.moved_on().outlined().kept_within(*playfield),
    {
        self.pos = self.pos.translate(self.velocity);
        let transform = Transform::place(self.pos, self.angle);
        self.collision_lines.update(transform, self.collision_model.clone());
        if self.health.is_alive() && !playfield.contains(self.pos) {
            self.health.kill();
        }
    }
}

/// One tick of flight for each of `shots`.
pub fn control_shots(shots: &mut Vec<Shot>, playfield: &Rectangle)
    ensures
        final(shots)@.len() == old(shots)@.len(),
        forall|i: int|
            0 <= i < old(shots)@.len() ==> (#[trigger] final(shots)@[i])@ == old(
                shots,
            )@[i]@.moved_on().outlined().kept_within(*playfield),
{
    let n: usize = shots.len();
    let mut i: usize = 0;
    while i < n
        invariant
            0 <= i <= n,
            n == shots@.len(),
            n == old(shots)@.len(),
            forall|k: int|
                0 <= k < i ==> (#[trigger] shots@[k])@ == old(
                    shots,
                )@[k]@.moved_on().outlined().kept_within(*playfield),
            forall|k: int| i <= k < n ==> shots@[k] == old(shots)@[k],
        decreases n - i,
    {
        shots[i].control(playfield);
        i += 1;
    }
}

} // verus!
