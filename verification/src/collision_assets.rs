//! The collision templates of the five archetypes.

use crate::collision_lines::CollisionModel;
use crate::geometry::{Segment, Vector};
use vstd::prelude::*;

verus! {

pub struct CollisionAssets {
    shot: CollisionModel,
    bomb: CollisionModel,
    turret: CollisionModel,
    player: CollisionModel,
    rocket: CollisionModel,
}

/// The segment from (`ax`, `ay`) to (`bx`, `by`).
pub open spec fn edge(ax: i32, ay: i32, bx: i32, by: i32) -> Segment {
    Segment { a: Vector { x: ax, y: ay }, b: Vector { x: bx, y: by } }
}

fn line(ax: i32, ay: i32, bx: i32, by: i32) -> (s: Segment)
    ensures
        s == edge(ax, ay, bx, by),
{
    Segment { a: Vector { x: ax, y: ay }, b: Vector { x: bx, y: by } }
}

/// The outline of a shot: a small triangle with a barrel.
pub open spec fn shot_outline() -> Seq<Segment> {
    seq![edge(-4i32, 4, 4, 4), edge(4, 4, 0, -4i32), edge(0, -4i32, -4i32, 4), edge(0, 0, 0, -8i32)]
}

/// The outline of a bomb: a finned body.
pub open spec fn bomb_outline() -> Seq<Segment> {
    seq![
        edge(-8i32, 4, 0, 2),
        edge(8, 4, 0, 2),
        edge(8, 4, 0, -4i32),
        edge(0, -4i32, -8i32, 4),
        edge(4, 0, 0, -12i32),
        edge(-4i32, 0, 0, -12i32),
    ]
}

/// The outline of a turret: a base with a gun on it.
pub open spec fn turret_outline() -> Seq<Segment> {
    seq![
        edge(-16i32, 0, 16, 0),
        edge(-16i32, 0, -12i32, 16),
        edge(-12i32, 16, -4i32, 16),
        edge(-4i32, 16, 0, 24),
        edge(0, 24, 4, 16),
        edge(-4i32, 16, 12, 16),
        edge(12, 16, 16, 0),
    ]
}

/// The outline of the player's ship: a triangle.
pub open spec fn player_outline() -> Seq<Segment> {
    seq![edge(-16i32, 16, 16, 16), edge(16, 16, 0, -16i32), edge(0, -16i32, -16i32, 16)]
}

/// The outline of a rocket: a dart.
pub open spec fn rocket_outline() -> Seq<Segment> {
    seq![edge(-12i32, 16, 0, -32i32), edge(0, -32i32, 12, 16), edge(12, 16, 0, 0), edge(0, 0, -12i32, 16)]
}

impl CollisionAssets {
    /// Whether each template holds the outline of its archetype.
    pub closed spec fn wf(&self) -> bool {
        &&& self.shot@ == shot_outline()
        &&& self.bomb@ == bomb_outline()
        &&& self.turret@ == turret_outline()
        &&& self.player@ == player_outline()
        &&& self.rocket@ == rocket_outline()
    }

    pub fn new() -> (assets: Self)
        ensures
            assets.wf(),
    {
        let mut shot_lines: Vec<Segment> = Vec::new();
        shot_lines.push(line(-4, 4, 4, 4));
        shot_lines.push(line(4, 4, 0, -4));
        shot_lines.push(line(0, -4, -4, 4));
        shot_lines.push(line(0, 0, 0, -8));
        assert(shot_lines@ =~= shot_outline());

        let mut bomb_lines: Vec<Segment> = Vec::new();
        bomb_lines.push(line(-8, 4, 0, 2));
        bomb_lines.push(line(8, 4, 0, 2));
        bomb_lines.push(line(8, 4, 0, -4));
        bomb_lines.push(line(0, -4, -8, 4));
        bomb_lines.push(line(4, 0, 0, -12));
        bomb_lines.push(line(-4, 0, 0, -12));
        assert(bomb_lines@ =~= bomb_outline());

        let mut turret_lines: Vec<Segment> = Vec::new();
        turret_lines.push(line(-16, 0, 16, 0));
        turret_lines.push(line(-16, 0, -12, 16));
        turret_lines.push(line(-12, 16, -4, 16));
        turret_lines.push(line(-4, 16, 0, 24));
        turret_lines.push(line(0, 24, 4, 16));
        turret_lines.push(line(-4, 16, 12, 16));
        turret_lines.push(line(12, 16, 16, 0));
        assert(turret_lines@ =~= turret_outline());

        let mut player_lines: Vec<Segment> = Vec::new();
        player_lines.push(line(-16, 16, 16, 16));
        player_lines.push(line(16, 16, 0, -16));
        player_lines.push(line(0, -16, -16, 16));
        assert(player_lines@ =~= player_outline());

        let mut rocket_lines: Vec<Segment> = Vec::new();
        rocket_lines.push(line(-12, 16, 0, -32));
        rocket_lines.push(line(0, -32, 12, 16));
        rocket_lines.push(line(12, 16, 0, 0));
        rocket_lines.push(line(0, 0, -12, 16));
        assert(rocket_lines@ =~= rocket_outline());

        CollisionAssets {
            shot: CollisionModel::new(shot_lines),
            bomb: CollisionModel::new(bomb_lines),
            turret: CollisionModel::new(turret_lines),
            player: CollisionModel::new(player_lines),
            rocket: CollisionModel::new(rocket_lines),
        }
    }

    pub fn shot(&self) -> (model: CollisionModel)
        requires
            self.wf(),
        ensures
            model@ == shot_outline(),
    {
        self.shot.clone()
    }

    pub fn bomb(&self) -> (model: CollisionModel)
        requires
            self.wf(),
        ensures
            model@ == bomb_outline(),
    {
        self.bomb.clone()
    }

    pub fn turret(&self) -> (model: CollisionModel)
        requires
            self.wf(),
        ensures
            model@ == turret_outline(),
    {
        self.turret.clone()
    }

    pub fn player(&self) -> (model: CollisionModel)
        requires
            self.wf(),
        ensures
            model@ == player_outline(),
    {
        self.player.clone()
    }

    pub fn rocket(&self) -> (model: CollisionModel)
        requires
            self.wf(),
        ensures
            model@ == rocket_outline(),
    {
        self.rocket.clone()
    }
}

} // verus!
