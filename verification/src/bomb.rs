//! Bombs: dropped by the player, falling forward and tumbling until they hit
//! something or leave the playfield.

use crate::camera::Rectangle;
use crate::collision_lines::{Collidable, CollisionLines, CollisionModel};
use crate::geometry::{Segment, Transform, Vector};
use crate::health::{Alive, Health, Killable};
use crate::world_pos::{Body, WorldPos};
use vstd::prelude::*;

verus! {

pub struct Bomb {
    pos: Vector,
    angle: i32,
    velocity: Vector,
    collision_model: CollisionModel,
    collision_lines: CollisionLines,
    health: Health,
}

/// The velocity of a bomb released by something that moves by
/// `forward_velocity`: carried along, and 4 units down.
pub open spec fn release_velocity(forward_velocity: Vector) -> Vector {
    forward_velocity.shifted(Vector { x: 0, y: 4 })
}

/// The angle of a tumbling bomb one tick after `angle`: one degree further,
/// but never past 180.
pub open spec fn tumbled(angle: i32) -> i32 {
    if angle >= 180 {
        180
    } else {
        (angle + 1) as i32
    }
}

impl View for Bomb {
    type V = Body;

    closed spec fn view(&self) -> Body {
        Body {
            pos: self.pos,
            angle: self.angle,
            velocity: self.velocity,
            model: self.collision_model@,
            outline: self.collision_lines@,
            alive: self.health.alive(),
        }
    }
}

impl WorldPos for Bomb {
    open spec fn position(&self) -> Vector {
        self@.pos
    }

    open spec fn heading(&self) -> i32 {
        self@.angle
    }

    fn world_pos(&self) -> (pos: Vector) {
        self.pos
    }

    fn angle(&self) -> (degrees: i32) {
        self.angle
    }
}

impl Alive for Bomb {
    open spec fn alive(&self) -> bool {
        self@.alive
    }

    fn is_alive(&self) -> (r: bool) {
        self.health.is_alive()
    }

    fn is_dead(&self) -> (r: bool) {
        self.health.is_dead()
    }
}

impl Killable for Bomb {
    open spec fn killed_from(&self, before: &Self) -> bool {
        self@ == before@.killed()
    }

    fn kill(&mut self) {
        self.health.kill();
    }
}

impl Collidable for Bomb {
    open spec fn outline(&self) -> Seq<Segment> {
        self@.outline
    }

    fn collision_lines(&self) -> (lines: &CollisionLines) {
        &self.collision_lines
    }
}


impl Bomb {
    /// How far it moves in one tick.
    pub fn velocity(&self) -> (v: Vector)
        ensures
            v == self@.velocity,
    {
        self.velocity
    }

    /// A bomb at `pos`, nose forward at 90 degrees.
    pub fn new(collision_model: CollisionModel, pos: Vector, forward_velocity: Vector) -> (bomb:
        Self)
        ensures
            bomb@ == Body::fresh(collision_model@, pos, 90, release_velocity(forward_velocity)),
    {
        Bomb {
            pos,
            angle: 90,
            velocity: forward_velocity.translate(Vector { x: 0, y: 4 }),
            collision_model,
            collision_lines: CollisionLines::new(),
            health: Health::new(),
        }
    }

    /// One tick of the fall: the bomb moves by its velocity and tumbles on by
    /// a degree, its outline is rebuilt there, and it dies if it has left
    /// `playfield`.
    pub fn control(&mut self, playfield: &Rectangle)
        ensures
            final(self)@ == (Body {
                angle: tumbled(old(self)@.angle),
                ..old(self)@.moved_on()
            }).outlined().kept_within(*playfield),
    {
        self.pos = self.pos.translate(self.velocity);
        self.angle = if self.angle >= 180 {
            180
        } else {
            self.angle + 1
        };
        let transform = Transform::place(self.pos, self.angle);
        self.collision_lines.update(transform, self.collision_model.clone());
        if self.health.is_alive() && !playfield.contains(self.pos) {
            self.health.kill();
        }
    }
}

/// One tick of the fall for each of `bombs`.
pub fn control_bombs(bombs: &mut Vec<Bomb>, playfield: &Rectangle)
    ensures
        final(bombs)@.len() == old(bombs)@.len(),
        forall|i: int|
            0 <= i < old(bombs)@.len() ==> (#[trigger] final(bombs)@[i])@ == (Body {
                angle: tumbled(old(bombs)@[i]@.angle),
                ..old(bombs)@[i]@.moved_on()
            }).outlined().kept_within(*playfield),
{
    let n: usize = bombs.len();
    let mut i: usize = 0;
    while i < n
        invariant
            0 <= i <= n,
            n == bombs@.len(),
            n == old(bombs)@.len(),
            forall|k: int|
                0 <= k < i ==> (#[trigger] bombs@[k])@ == (Body {
                    angle: tumbled(old(bombs)@[k]@.angle),
                    ..old(bombs)@[k]@.moved_on()
                }).outlined().kept_within(*playfield),
            forall|k: int| i <= k < n ==> bombs@[k] == old(bombs)@[k],
        decreases n - i,
    {
        bombs[i].control(playfield);
        i += 1;
    }
}

} // verus!
