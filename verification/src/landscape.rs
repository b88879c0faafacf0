//! The terrain: a ribbon of segments that grows ahead of the camera, is cut
//! off behind it, and now and then asks for an enemy to stand on it.

use crate::camera::Camera;
use crate::chance::{new_rng, roll};
use crate::collision_lines::{placed, Collidable, CollisionLines};
use crate::geometry::{clamp_to_grid, clamped, Segment, Transform, Vector};
use rand::rngs::ThreadRng;
use vstd::prelude::*;

verus! {

/// The least height at which the terrain runs.
pub const LANDSCAPE_MIN_Y: i32 = 180;

/// The greatest height at which the terrain runs.
pub const LANDSCAPE_MAX_Y: i32 = 712;

/// The most by which one segment rises or falls.
pub const LANDSCAPE_MAX_DY: i32 = 128;

/// The width of one segment.
pub const LANDSCAPE_STEP: i32 = 16;

/// The height of the level ground that a new terrain starts with.
pub const LANDSCAPE_START_Y: i32 = 675;

/// The number of segments that a new terrain starts with.
pub const LANDSCAPE_START_LEN: usize = 82;

/// How often a failed draw of a rise is repeated before the ground stays level.
pub const LANDSCAPE_REDRAWS: u32 = 64;

pub struct Landscape {
    render_lines: Vec<Segment>,
    collision_lines: CollisionLines,
    rng: ThreadRng,
    flat: i32,
}

/// What the terrain asks for at the end of its tick.
#[derive(Clone, Copy, Debug, PartialEq, Eq, Structural)]
pub enum LandscapeAction {
    Idle,
    /// A turret on this segment.
    MakeTurret(Segment),
    /// A rocket on this segment.
    MakeRocket(Segment),
}

/// The three draws that decide how the terrain grows by one segment.
#[derive(Clone, Copy, Debug, PartialEq, Eq, Structural)]
pub struct TerrainDraws {
    /// Among 0 to 99: from 25 on the ground may rise or fall, below it a
    /// level run begins.
    pub shape: i32,
    /// By how much the ground rises or falls, if it does.
    pub rise: i32,
    /// Among 0 to 99: from 50 on a turret is asked for, below 25 a rocket.
    pub spawn: i32,
}

/// The terrain as contracts speak of it.
pub struct Terrain {
    pub segments: Seq<Segment>,
    pub outline: Seq<Segment>,
    /// How many more segments of the current level run are to come.
    pub flat: int,
}

/// Whether each segment of `segments` starts where the one before it ends.
pub open spec fn contiguous(segments: Seq<Segment>) -> bool {
    forall|i: int| 0 <= i < segments.len() - 1 ==> (#[trigger] segments[i]).b == segments[i + 1].a
}

/// Segment `i` of the level ground that a new terrain starts with: the first
/// is a single point at the origin's column, each other is one step wide.
pub open spec fn start_segment(i: int) -> Segment {
    Segment {
        a: Vector { x: (if i == 0 { 0 } else { 16 * (i - 1) }) as i32, y: 675 },
        b: Vector { x: (16 * i) as i32, y: 675 },
    }
}

/// The terrain at the start of a life: level ground from the origin to one
/// step beyond the right edge of the view, no outline yet, and no level run
/// counted.
pub open spec fn start_terrain() -> Terrain {
    Terrain {
        segments: Seq::new(82, |i: int| start_segment(i)),
        outline: Seq::empty(),
        flat: 0,
    }
}

impl Terrain {
    /// Whether the terrain is a non-empty contiguous ribbon with a level-run
    /// countdown in range.
    pub open spec fn wf(self) -> bool {
        &&& self.segments.len() >= 1
        &&& contiguous(self.segments)
        &&& 0 <= self.flat <= 4
    }

    /// The end of the rightmost segment.
    pub open spec fn tip(self) -> Vector {
        self.segments.last().b
    }

    /// Whether the terrain has to grow for a camera at column `camera_x`: its
    /// tip is less than one step beyond the right edge of the view.
    pub open spec fn grows(self, camera_x: i32) -> bool {
        self.tip().x < camera_x + 1296
    }

    /// Whether the next segment may rise or fall.
    pub open spec fn perturbs(self, draws: TerrainDraws) -> bool {
        self.flat == 0 && draws.shape >= 25
    }

    /// The height at which the next segment ends: the tip's height changed by
    /// the drawn rise where the ground may rise or fall and the result is
    /// within the terrain's heights, else the tip's height.
    pub open spec fn next_height(self, draws: TerrainDraws) -> i32 {
        if self.perturbs(draws) && 180 <= self.tip().y + draws.rise <= 712 {
            (self.tip().y + draws.rise) as i32
        } else {
            self.tip().y
        }
    }

    /// The level-run countdown after the next segment: unchanged where the
    /// ground may rise or fall; else a run of four more begins, or the
    /// current run goes on.
    pub open spec fn next_flat(self, draws: TerrainDraws) -> int {
        if self.perturbs(draws) {
            self.flat
        } else if self.flat == 0 {
            4
        } else {
            self.flat - 1
        }
    }

    /// The segment by which the terrain grows.
    pub open spec fn next_segment(self, draws: TerrainDraws) -> Segment {
        Segment {
            a: self.tip(),
            b: Vector { x: clamped(self.tip().x + 16), y: self.next_height(draws) },
        }
    }

    /// The terrain grown by one segment.
    pub open spec fn grown(self, draws: TerrainDraws) -> Terrain {
        Terrain {
            segments: self.segments.push(self.next_segment(draws)),
            outline: self.outline,
            flat: self.next_flat(draws),
        }
    }

    /// The terrain without its leftmost segment, if that one ends behind the
    /// camera.
    pub open spec fn culled(self, camera_x: i32) -> Terrain {
        if self.segments[0].b.x < camera_x {
            Terrain { segments: self.segments.skip(1), ..self }
        } else {
            self
        }
    }

    /// The terrain with its outline rebuilt from its segments.
    pub open spec fn outlined(self) -> Terrain {
        Terrain { outline: self.segments, ..self }
    }

    /// The terrain after one tick with the camera at column `camera_x`.
    pub open spec fn stepped(self, camera_x: i32, draws: TerrainDraws) -> Terrain {
        (if self.grows(camera_x) {
            self.grown(draws)
        } else {
            self
        }).culled(camera_x).outlined()
    }

    /// What the terrain asks for in that tick: nothing unless it grows and
    /// the new segment is the one that leaves two more of a level run to
    /// come; on that one a turret if the spawn draw is 50 or more, a rocket
    /// if it is below 25.
    pub open spec fn request(self, camera_x: i32, draws: TerrainDraws) -> LandscapeAction {
        if self.grows(camera_x) && self.next_flat(draws) == 2 {
            if draws.spawn >= 50 {
                LandscapeAction::MakeTurret(self.next_segment(draws))
            } else if draws.spawn < 25 {
                LandscapeAction::MakeRocket(self.next_segment(draws))
            } else {
                LandscapeAction::Idle
            }
        } else {
            LandscapeAction::Idle
        }
    }
}

impl TerrainDraws {
    /// Whether the draws are such as the terrain's generator gives.
    pub open spec fn drawable(self) -> bool {
        &&& 0 <= self.shape < 100
        &&& -128 <= self.rise < 128
        &&& 0 <= self.spawn < 100
    }
}

/// Whether `after` and `action` are what one tick with the camera at column
/// `camera_x` makes of the terrain `before` on some draws of its generator.
pub open spec fn ticked(
    before: Terrain,
    after: Terrain,
    action: LandscapeAction,
    camera_x: i32,
) -> bool {
    exists|draws: TerrainDraws|
        #[trigger] draws.drawable() && after == before.stepped(camera_x, draws) && action
            == before.request(camera_x, draws)
}

impl View for Landscape {
    type V = Terrain;

    closed spec fn view(&self) -> Terrain {
        Terrain {
            segments: self.render_lines@,
            outline: self.collision_lines@,
            flat: self.flat as int,
        }
    }
}

impl Collidable for Landscape {
    open spec fn outline(&self) -> Seq<Segment> {
        self@.outline
    }

    fn collision_lines(&self) -> (lines: &CollisionLines) {
        &self.collision_lines
    }
}

proof fn lemma_identity_places_nothing(segments: Seq<Segment>)
    ensures
        placed(segments, Transform { cos: 4096, sin: 0, shift: Vector { x: 0, y: 0 } })
            == segments,
{
    let id = Transform { cos: 4096, sin: 0, shift: Vector { x: 0, y: 0 } };
    assert forall|i: int| 0 <= i < segments.len() implies placed(segments, id)[i]
        == segments[i] by {
        crate::geometry::lemma_identity_moves_nothing(segments[i]);
    }
    assert(placed(segments, id) =~= segments);
}

impl Landscape {
    /// Level ground from the origin to one step beyond the right edge of the
    /// view, with no outline yet.
    pub fn new() -> (landscape: Self)
        ensures
            landscape@.wf(),
            landscape@ == start_terrain(),
    {
        let mut render_lines: Vec<Segment> = Vec::new();
        let mut last_point = Vector { x: 0, y: LANDSCAPE_START_Y };
        let mut i: usize = 0;
        while i < LANDSCAPE_START_LEN
            invariant
                0 <= i <= 82,
                render_lines@.len() == i,
                last_point == (Vector { x: (if i == 0 { 0 } else { 16 * (i - 1) }) as i32, y: 675 }),
                forall|k: int| 0 <= k < i ==> render_lines@[k] == start_segment(k),
            decreases 82 - i,
        {
            let x: i32 = (i as i32) * LANDSCAPE_STEP;
            let next_point = Vector { x, y: last_point.y };
            render_lines.push(Segment { a: last_point, b: next_point });
            last_point = next_point;
            i += 1;
        }
        assert(render_lines@ =~= Seq::new(82, |i: int| start_segment(i)));
        Landscape {
            render_lines,
            collision_lines: CollisionLines::new(),
            rng: new_rng(),
            flat: 0,
        }
    }

    /// The number of segments.
    pub fn len(&self) -> (n: usize)
        ensures
            n == self@.segments.len(),
    {
        self.render_lines.len()
    }

    /// The segment at `index`, counted from the left.
    pub fn segment(&self, index: usize) -> (s: Segment)
        requires
            index < self@.segments.len(),
        ensures
            s == self@.segments[index as int],
    {
        self.render_lines[index]
    }

    /// One tick with the draws given: the terrain grows by a segment if its
    /// tip is not a step beyond the view, loses its leftmost segment if that
    /// one lies behind the camera, and has its outline rebuilt. The result
    /// says which enemy, if any, the new segment asks for.
    pub fn update_with(&mut self, camera: &Camera, draws: TerrainDraws) -> (action: LandscapeAction)
        requires
            old(self)@.wf(),
        ensures
            final(self)@.wf(),
            final(self)@ == old(self)@.stepped(camera.pos.x, draws),
            action == old(self)@.request(camera.pos.x, draws),
    {
        let mut action = LandscapeAction::Idle;
        let b: Vector = self.render_lines[self.render_lines.len() - 1].b;
        if (b.x as i64) < camera.pos.x as i64 + 1296 {
            let risen: i64 = b.y as i64 + draws.rise as i64;
            let new_y: i32 = if self.flat == 0 && draws.shape >= 25 {
                if LANDSCAPE_MIN_Y as i64 <= risen && risen <= LANDSCAPE_MAX_Y as i64 {
                    risen as i32
                } else {
                    b.y
                }
            } else {
                if self.flat == 0 {
                    self.flat = 4;
                } else {
                    self.flat = self.flat - 1;
                }
                b.y
            };
            let next_point = Vector {
                x: clamp_to_grid(b.x as i64 + LANDSCAPE_STEP as i64),
                y: new_y,
            };
            let line = Segment { a: b, b: next_point };
            self.render_lines.push(line);
            if self.flat == 2 {
                if draws.spawn >= 50 {
                    action = LandscapeAction::MakeTurret(line);
                } else if draws.spawn < 25 {
                    action = LandscapeAction::MakeRocket(line);
                }
            }
        }
        let a: Vector = self.render_lines[0].b;
        if a.x < camera.pos.x {
            self.render_lines.remove(0);
            assert(self.render_lines@ =~= old(self)@.stepped(camera.pos.x, draws).segments);
        }
        self.collision_lines.clear();
        self.collision_lines.add_lines(Transform::identity(), &self.render_lines);
        proof {
            lemma_identity_places_nothing(self.render_lines@);
            assert(self@.outline =~= self.render_lines@);
            assert(self@.segments =~= old(self)@.stepped(camera.pos.x, draws).segments);
        }
        action
    }

    /// One tick: as `update_with`, on draws from the terrain's own generator.
    /// The shape and the spawn are drawn among 0 to 99. The rise is drawn
    /// among -128 to 127 and, while it leads out of the terrain's heights,
    /// again among -64 to 63, up to `LANDSCAPE_REDRAWS` times.
    pub fn update(&mut self, camera: &Camera) -> (action: LandscapeAction)
        requires
            old(self)@.wf(),
        ensures
            final(self)@.wf(),
            ticked(old(self)@, final(self)@, action, camera.pos.x),
    {
        let tip_y: i32 = self.render_lines[self.render_lines.len() - 1].b.y;
        let shape: i32 = roll(&mut self.rng, 0, 100);
        let mut rise: i32 = roll(&mut self.rng, -LANDSCAPE_MAX_DY, LANDSCAPE_MAX_DY);
        let mut redraws: u32 = 0;
        while redraws < LANDSCAPE_REDRAWS && !height_in_range(tip_y, rise)
            invariant
                -128 <= rise < 128,
                self@ == old(self)@,
            decreases 64 - redraws,
        {
            rise = roll(&mut self.rng, -64, 64);
            redraws += 1;
        }
        let spawn: i32 = roll(&mut self.rng, 0, 100);
        assert(self@ == old(self)@);
        let draws = TerrainDraws { shape, rise, spawn };
        assert(draws.drawable());
        self.update_with(camera, draws)
    }
}

/// Whether the height `rise` above or below `y` is one of the terrain's heights.
pub fn height_in_range(y: i32, rise: i32) -> (ok: bool)
    ensures
        ok == (180 <= y + rise <= 712),
{
    let risen: i64 = y as i64 + rise as i64;
    LANDSCAPE_MIN_Y as i64 <= risen && risen <= LANDSCAPE_MAX_Y as i64
}

/// A tick keeps the terrain a non-empty contiguous ribbon.
pub proof fn lemma_step_keeps_ribbon(terrain: Terrain, camera_x: i32, draws: TerrainDraws)
    requires
        terrain.wf(),
    ensures
        terrain.stepped(camera_x, draws).wf(),
        terrain.stepped(camera_x, draws).segments.len() >= 1,
        contiguous(terrain.stepped(camera_x, draws).segments),
{
    let grown = if terrain.grows(camera_x) {
        terrain.grown(draws)
    } else {
        terrain
    };
    assert(contiguous(grown.segments));
    assert(grown.segments.len() >= 1);
    if grown.segments[0].b.x < camera_x {
        if !terrain.grows(camera_x) {
            assert(terrain.segments.len() >= 2);
        }
        assert(grown.segments.len() >= 2);
        let rest = grown.segments.skip(1);
        assert forall|i: int| 0 <= i < rest.len() - 1 implies (#[trigger] rest[i]).b == rest[i
            + 1].a by {
            assert(rest[i] == grown.segments[i + 1]);
            assert(rest[i + 1] == grown.segments[i + 2]);
        }
    }
}

/// A tip that is ahead of the right edge of the view before a tick is a whole
/// step ahead of it after the tick.
pub proof fn lemma_tip_kept_ahead(terrain: Terrain, camera_x: i32, draws: TerrainDraws)
    requires
        terrain.wf(),
        terrain.tip().x >= camera_x + 1280,
        camera_x + 1296 <= i32::MAX,
    ensures
        terrain.stepped(camera_x, draws).tip().x >= camera_x + 1296,
{
    lemma_step_keeps_ribbon(terrain, camera_x, draws);
    let grown = if terrain.grows(camera_x) {
        terrain.grown(draws)
    } else {
        terrain
    };
    assert(grown.tip().x >= camera_x + 1296);
    if grown.segments[0].b.x < camera_x {
        assert(grown.segments.len() >= 2);
        assert(grown.segments.skip(1).last() == grown.segments.last());
    }
}

/// The terrain asks for an enemy only on a level segment that runs to the
/// right, so that whatever stands on it stands upright.
pub proof fn lemma_requests_are_level(terrain: Terrain, camera_x: i32, draws: TerrainDraws)
    requires
        terrain.wf(),
    ensures
        match terrain.request(camera_x, draws) {
            LandscapeAction::MakeTurret(line) => line.a.y == line.b.y && line.a.x <= line.b.x,
            LandscapeAction::MakeRocket(line) => line.a.y == line.b.y && line.a.x <= line.b.x,
            LandscapeAction::Idle => true,
        },
{
}

} // verus!
