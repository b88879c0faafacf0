//! The scrolling camera and the upright rectangles measured from it.

use crate::geometry::{clamp_to_grid, clamped, Vector};
use vstd::prelude::*;

verus! {

/// An upright rectangle: its corner with the least coordinates, and its size.
#[derive(Clone, Copy, Debug, PartialEq, Eq, Structural)]
pub struct Rectangle {
    pub pos: Vector,
    pub size: Vector,
}

/// The corner of the visible part of the world with the least coordinates.
#[derive(Clone, Copy, Debug, PartialEq, Eq, Structural)]
pub struct Camera {
    pub pos: Vector,
}

impl Rectangle {
    pub fn new(pos: Vector, size: Vector) -> (r: Self)
        ensures
            r == (Rectangle { pos, size }),
    {
        Rectangle { pos, size }
    }

    /// Whether `p` lies in the rectangle. The edges with the least coordinates
    /// belong to it, the opposite edges do not.
    pub open spec fn holds(self, p: Vector) -> bool {
        &&& self.pos.x <= p.x < self.pos.x + self.size.x
        &&& self.pos.y <= p.y < self.pos.y + self.size.y
    }

    /// This rectangle moved by `by`, kept on the grid.
    pub open spec fn shifted(self, by: Vector) -> Rectangle {
        Rectangle { pos: self.pos.shifted(by), size: self.size }
    }

    /// The point of the rectangle nearest to `p`, the far edges counted in.
    pub open spec fn nearest(self, p: Vector) -> Vector {
        Vector {
            x: clamped(least(self.pos.x + self.size.x, most(self.pos.x as int, p.x as int))),
            y: clamped(least(self.pos.y + self.size.y, most(self.pos.y as int, p.y as int))),
        }
    }

    /// Tests whether `p` lies in the rectangle.
    pub fn contains(&self, p: Vector) -> (inside: bool)
        ensures
            inside == self.holds(p),
    {
        let right: i64 = self.pos.x as i64 + self.size.x as i64;
        let bottom: i64 = self.pos.y as i64 + self.size.y as i64;
        p.x >= self.pos.x && p.y >= self.pos.y && (p.x as i64) < right && (p.y as i64) < bottom
    }

    /// Moves the rectangle by `by`.
    pub fn translate(&self, by: Vector) -> (r: Self)
        ensures
            r == self.shifted(by),
    {
        Rectangle { pos: self.pos.translate(by), size: self.size }
    }

    /// Brings `p` into the rectangle: each coordinate is raised to the near
    /// edge where it is below it, then lowered to the far edge where it is
    /// beyond it.
    pub fn clamp(&self, p: Vector) -> (q: Vector)
        ensures
            q == self.nearest(p),
    {
        let right: i64 = self.pos.x as i64 + self.size.x as i64;
        let bottom: i64 = self.pos.y as i64 + self.size.y as i64;
        let x: i64 = if p.x < self.pos.x {
            self.pos.x as i64
        } else {
            p.x as i64
        };
        let y: i64 = if p.y < self.pos.y {
            self.pos.y as i64
        } else {
            p.y as i64
        };
        let x: i64 = if right < x {
            right
        } else {
            x
        };
        let y: i64 = if bottom < y {
            bottom
        } else {
            y
        };
        Vector { x: clamp_to_grid(x), y: clamp_to_grid(y) }
    }
}

/// The lesser of two integers.
pub open spec fn least(a: int, b: int) -> int {
    if a <= b {
        a
    } else {
        b
    }
}

/// The greater of two integers.
pub open spec fn most(a: int, b: int) -> int {
    if a >= b {
        a
    } else {
        b
    }
}

impl Camera {
    pub fn new(pos: Vector) -> (c: Self)
        ensures
            c == (Camera { pos }),
    {
        Camera { pos }
    }

    /// The rectangle outside of which projectiles and enemies are dropped:
    /// the view with a margin of 16 before it and above it, 48 behind it and
    /// 16 below it.
    pub open spec fn playfield_spec(self) -> Rectangle {
        Rectangle {
            pos: self.pos.shifted(Vector { x: -16i32, y: -16i32 }),
            size: Vector { x: 1344, y: 752 },
        }
    }

    /// The rectangle outside of which projectiles and enemies are dropped.
    pub fn playfield(&self) -> (r: Rectangle)
        ensures
            r == self.playfield_spec(),
    {
        Rectangle {
            pos: self.pos.translate(Vector { x: -16, y: -16 }),
            size: Vector { x: 1344, y: 752 },
        }
    }

    /// Scrolls the camera by `by`.
    pub fn advance(&mut self, by: Vector)
        ensures
            final(self).pos == old(self).pos.shifted(by),
    {
        self.pos = self.pos.translate(by);
    }
}

} // verus!
