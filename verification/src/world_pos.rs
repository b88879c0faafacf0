//! Where an entity stands, and the plain state that all entities share.

use crate::camera::Rectangle;
use crate::collision_lines::placed;
use crate::geometry::{placement, Segment, Vector};
use vstd::prelude::*;

verus! {

/// Something that stands at a point of the world, turned by an angle.
pub trait WorldPos {
    /// The point that `world_pos` reports.
    spec fn position(&self) -> Vector;

    /// The angle in degrees that `angle` reports.
    spec fn heading(&self) -> i32;

    fn world_pos(&self) -> (pos: Vector)
        ensures
            pos == self.position(),
    ;

    fn angle(&self) -> (degrees: i32)
        ensures
            degrees == self.heading(),
    ;
}

/// The state of an entity as contracts speak of it: where it stands, how it
/// is turned, how far it moves in one tick, its outline in model space and in
/// the world, and whether it lives.
pub struct Body {
    pub pos: Vector,
    pub angle: i32,
    pub velocity: Vector,
    pub model: Seq<Segment>,
    pub outline: Seq<Segment>,
    pub alive: bool,
}

impl Body {
    /// A new entity: alive, with no outline in the world yet.
    pub open spec fn fresh(model: Seq<Segment>, pos: Vector, angle: i32, velocity: Vector) -> Body {
        Body { pos, angle, velocity, model, outline: Seq::empty(), alive: true }
    }

    /// The same entity, dead.
    pub open spec fn killed(self) -> Body {
        Body { alive: false, ..self }
    }

    /// The same entity one velocity further.
    pub open spec fn moved_on(self) -> Body {
        Body { pos: self.pos.shifted(self.velocity), ..self }
    }

    /// The same entity with its outline rebuilt for where it stands now.
    pub open spec fn outlined(self) -> Body {
        Body { outline: placed(self.model, placement(self.pos, self.angle)), ..self }
    }

    /// The same entity, dead if it stands outside `playfield`.
    pub open spec fn kept_within(self, playfield: Rectangle) -> Body {
        Body { alive: self.alive && playfield.holds(self.pos), ..self }
    }
}

} // verus!
