//! Rockets: standing on the terrain until, at random, they launch.

use crate::camera::Rectangle;
use crate::chance::{new_rng, roll};
use crate::collision_lines::{Collidable, CollisionLines, CollisionModel};
use crate::geometry::{placement, Segment, Transform, Vector};
use crate::health::{Alive, Health, Killable};
use crate::world_pos::{Body, WorldPos};
use rand::rngs::ThreadRng;
use vstd::prelude::*;

verus! {

pub struct Rocket {
    pos: Vector,
    angle: i32,
    velocity: Vector,
    flight_velocity: Vector,
    collision_model: CollisionModel,
    collision_lines: CollisionLines,
    health: Health,
    rng: ThreadRng,
}

/// Out of 1000 equally likely draws, those below this launch a waiting rocket.
pub const ROCKET_LAUNCH_DRAWS: i32 = 5;

/// The velocity of a launched rocket that is turned by `angle`: 4 units
/// along its nose.
pub open spec fn launch_velocity(angle: i32) -> Vector {
    placement(Vector { x: 0, y: 0 }, angle).lands(Vector { x: 0, y: -4i32 })
}

/// A rocket in state `before` after the launch decision on `draw`: one that
/// stands still takes its flight velocity if the draw is below
/// `ROCKET_LAUNCH_DRAWS`.
pub open spec fn launched(before: Body, draw: i32) -> Body {
    if before.velocity == (Vector { x: 0, y: 0 }) && draw < 5 {
        Body { velocity: launch_velocity(before.angle), ..before }
    } else {
        before
    }
}

impl View for Rocket {
    type V = Body;

    closed spec fn view(&self) -> Body {
        Body {
            pos: self.pos,
            angle: self.angle,
            velocity: self.velocity,
            model: self.collision_model@,
            outline: self.collision_lines@,
            alive: self.health.alive(),
        }
    }
}

impl WorldPos for Rocket {
    open spec fn position(&self) -> Vector {
        self@.pos
    }

    open spec fn heading(&self) -> i32 {
        self@.angle
    }

    fn world_pos(&self) -> (pos: Vector) {
        self.pos
    }

    fn angle(&self) -> (degrees: i32) {
        self.angle
    }
}

impl Alive for Rocket {
    open spec fn alive(&self) -> bool {
        self@.alive
    }

    fn is_alive(&self) -> (r: bool) {
        self.health.is_alive()
    }

    fn is_dead(&self) -> (r: bool) {
        self.health.is_dead()
    }
}

impl Killable for Rocket {
    open spec fn killed_from(&self, before: &Self) -> bool {
        self@ == before@.killed() && self.wf() == before.wf()
    }

    fn kill(&mut self) {
        self.health.kill();
    }
}

impl Collidable for Rocket {
    open spec fn outline(&self) -> Seq<Segment> {
        self@.outline
    }

    fn collision_lines(&self) -> (lines: &CollisionLines) {
        &self.collision_lines
    }
}


impl Rocket {
    /// How far it moves in one tick.
    pub fn velocity(&self) -> (v: Vector)
        ensures
            v == self@.velocity,
    {
        self.velocity
    }

    /// Whether the rocket carries the flight velocity that belongs to its angle.
    pub closed spec fn wf(&self) -> bool {
        self.flight_velocity == launch_velocity(self.angle)
    }

    pub fn new(collision_model: CollisionModel, pos: Vector, angle: i32) -> (rocket: Self)
        ensures
            rocket@ == Body::fresh(collision_model@, pos, angle, Vector { x: 0, y: 0 }),
            rocket.wf(),
    {
        Rocket {
            pos,
            angle,
            velocity: Vector { x: 0, y: 0 },
            flight_velocity: Transform::rotate(angle).apply(Vector { x: 0, y: -4 }),
            collision_model,
            collision_lines: CollisionLines::new(),
            health: Health::new(),
            rng: new_rng(),
        }
    }

    /// One tick with the draw given: a waiting rocket launches if the draw
    /// says so; then the rocket moves by its velocity, its outline is rebuilt
    /// there, and it dies if it has left `playfield`.
    pub fn control_with(&mut self, playfield: &Rectangle, draw: i32)
        requires
            old(self).wf(),
        ensures
            final(self).wf(),
            final(self)@ == launched(old(self)@, draw).moved_on().outlined().kept_within(
                *playfield,
            ),
    {
        if self.velocity.x == 0 && self.velocity.y == 0 && draw < ROCKET_LAUNCH_DRAWS {
            self.velocity = self.flight_velocity;
        }
        self.pos = self.pos.translate(self.velocity);
        let transform = Transform::place(self.pos, self.angle);
        self.collision_lines.update(transform, self.collision_model.clone());
        if self.health.is_alive() && !playfield.contains(self.pos) {
            self.health.kill();
        }
    }

    /// One tick: as `control_with`, on a draw from the rocket's own generator
    /// among 0 to 999.
    pub fn control(&mut self, playfield: &Rectangle)
        requires
            old(self).wf(),
        ensures
            final(self).wf(),
            exists|draw: i32|
                0 <= draw < 1000 && final(self)@ == #[trigger] launched(
                    old(self)@,
                    draw,
                ).moved_on().outlined().kept_within(*playfield),
    {
        let draw: i32 = roll(&mut self.rng, 0, 1000);
        assert(self@ == old(self)@);
        self.control_with(playfield, draw);
    }
}

/// Whether `after` is what one tick on some draw among 0 to 999 makes of a
/// rocket in state `before`.
pub open spec fn rocket_ticked(before: Body, after: Body, playfield: Rectangle) -> bool {
    exists|draw: i32|
        0 <= draw < 1000 && after == #[trigger] launched(
            before,
            draw,
        ).moved_on().outlined().kept_within(playfield)
}

/// One tick for each of `rockets`, each on a draw of its own.
pub fn control_rockets(rockets: &mut Vec<Rocket>, playfield: &Rectangle)
    requires
        forall|i: int| 0 <= i < old(rockets)@.len() ==> (#[trigger] old(rockets)@[i]).wf(),
    ensures
        final(rockets)@.len() == old(rockets)@.len(),
        forall|i: int| 0 <= i < final(rockets)@.len() ==> (#[trigger] final(rockets)@[i]).wf(),
        forall|i: int|
            0 <= i < old(rockets)@.len() ==> rocket_ticked(
                old(rockets)@[i]@,
                (#[trigger] final(rockets)@[i])@,
                *playfield,
            ),
{
    let n: usize = rockets.len();
    let mut i: usize = 0;
    while i < n
        invariant
            0 <= i <= n,
            n == rockets@.len(),
            n == old(rockets)@.len(),
            forall|k: int| 0 <= k < n ==> (#[trigger] rockets@[k]).wf(),
            forall|k: int|
                0 <= k < i ==> rocket_ticked(
                    old(rockets)@[k]@,
                    (#[trigger] rockets@[k])@,
                    *playfield,
                ),
            forall|k: int| i <= k < n ==> rockets@[k] == old(rockets)@[k],
        decreases n - i,
    {
        rockets[i].control(playfield);
        i += 1;
    }
}

} // verus!
