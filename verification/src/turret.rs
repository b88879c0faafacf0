//! Turrets: standing on the terrain, firing at random until they are hit or
//! left behind.

use crate::camera::Rectangle;
use crate::chance::{new_rng, roll};
use crate::collision_lines::{Collidable, CollisionLines, CollisionModel};
use crate::geometry::{clamp_to_grid, clamped, Segment, Transform, Vector};
use crate::shot::{muzzle_velocity, Shot};
use crate::health::{Alive, Health, Killable};
use crate::world_pos::{Body, WorldPos};
use rand::rngs::ThreadRng;
use vstd::prelude::*;

verus! {

pub struct Turret {
    pos: Vector,
    angle: i32,
    collision_model: CollisionModel,
    collision_lines: CollisionLines,
    health: Health,
    rng: ThreadRng,
}

/// What a turret asks for at the end of its tick.
#[derive(Clone, Copy, Debug, PartialEq, Eq, Structural)]
pub enum TurretAction {
    Idle,
    /// A shot from this point at this angle.
    MakeShot(Vector, i32),
}

/// Out of 1000 equally likely draws, those below this make a turret fire.
pub const TURRET_FIRE_DRAWS: i32 = 10;

impl View for Turret {
    type V = Body;

    closed spec fn view(&self) -> Body {
        Body {
            pos: self.pos,
            angle: self.angle,
            velocity: Vector { x: 0, y: 0 },
            model: self.collision_model@,
            outline: self.collision_lines@,
            alive: self.health.alive(),
        }
    }
}

impl WorldPos for Turret {
    open spec fn position(&self) -> Vector {
        self@.pos
    }

    open spec fn heading(&self) -> i32 {
        self@.angle
    }

    fn world_pos(&self) -> (pos: Vector) {
        self.pos
    }

    fn angle(&self) -> (degrees: i32) {
        self.angle
    }
}

impl Alive for Turret {
    open spec fn alive(&self) -> bool {
        self@.alive
    }

    fn is_alive(&self) -> (r: bool) {
        self.health.is_alive()
    }

    fn is_dead(&self) -> (r: bool) {
        self.health.is_dead()
    }
}

impl Killable for Turret {
    open spec fn killed_from(&self, before: &Self) -> bool {
        self@ == before@.killed()
    }

    fn kill(&mut self) {
        self.health.kill();
    }
}

impl Collidable for Turret {
    open spec fn outline(&self) -> Seq<Segment> {
        self@.outline
    }

    fn collision_lines(&self) -> (lines: &CollisionLines) {
        &self.collision_lines
    }
}


/// What a turret in state `before` asks for when its draw is `draw`: nothing
/// in the tick in which it is dropped for standing outside `playfield`, else
/// a shot from where it stands if the draw is below `TURRET_FIRE_DRAWS`.
pub open spec fn turret_request(before: Body, playfield: Rectangle, draw: i32) -> TurretAction {
    if before.alive && !playfield.holds(before.pos) {
        TurretAction::Idle
    } else if draw < 10 {
        TurretAction::MakeShot(before.pos, before.angle)
    } else {
        TurretAction::Idle
    }
}

impl Turret {
    pub fn new(collision_model: CollisionModel, pos: Vector, angle: i32) -> (turret: Self)
        ensures
            turret@ == Body::fresh(collision_model@, pos, angle, Vector { x: 0, y: 0 }),
    {
        Turret {
            pos,
            angle,
            collision_model,
            collision_lines: CollisionLines::new(),
            health: Health::new(),
            rng: new_rng(),
        }
    }

    /// One tick with the draw given: the outline is rebuilt, the turret dies
    /// if it stands outside `playfield`, and the result says whether it fires.
    pub fn control_with(&mut self, playfield: &Rectangle, draw: i32) -> (action: TurretAction)
        ensures
            final(self)@ == old(self)@.outlined().kept_within(*playfield),
            action == turret_request(old(self)@, *playfield, draw),
    {
        let transform = Transform::place(self.pos, self.angle);
        self.collision_lines.update(transform, self.collision_model.clone());
        if self.health.is_alive() && !playfield.contains(self.pos) {
            self.health.kill();
            return TurretAction::Idle;
        }
        if draw < TURRET_FIRE_DRAWS {
            TurretAction::MakeShot(self.pos, self.angle)
        } else {
            TurretAction::Idle
        }
    }

    /// One tick: as `control_with`, on a draw from the turret's own generator
    /// among 0 to 999.
    pub fn control(&mut self, playfield: &Rectangle) -> (action: TurretAction)
        ensures
            final(self)@ == old(self)@.outlined().kept_within(*playfield),
            exists|draw: i32|
                0 <= draw < 1000 && action == #[trigger] turret_request(
                    old(self)@,
                    *playfield,
                    draw,
                ),
    {
        let draw: i32 = roll(&mut self.rng, 0, 1000);
        assert(self@ == old(self)@);
        self.control_with(playfield, draw)
    }
}

/// The shot that a turret's request for one from `pos` at `angle` makes: it
/// starts 8 above `pos`, turned half a turn from the turret, and nothing
/// carries it along.
pub open spec fn turret_shot(model: Seq<Segment>, pos: Vector, angle: i32) -> Body {
    Body::fresh(
        model,
        pos.shifted(Vector { x: 0, y: -8i32 }),
        clamped(angle + 180),
        muzzle_velocity(Vector { x: 0, y: 0 }, clamped(angle + 180)),
    )
}

/// Whether `shot` is the shot that one of `turrets` makes when it fires.
pub open spec fn fired_by(shot: Body, model: Seq<Segment>, turrets: Seq<Turret>) -> bool {
    exists|i: int|
        0 <= i < turrets.len() && shot == turret_shot(
            model,
            (#[trigger] turrets[i])@.pos,
            turrets[i]@.angle,
        )
}

/// Whether `shot` is the shot that one of `turrets` makes when it fires,
/// after its first tick of flight within `playfield`.
pub open spec fn flown_from(
    shot: Body,
    model: Seq<Segment>,
    turrets: Seq<Turret>,
    playfield: Rectangle,
) -> bool {
    exists|i: int|
        0 <= i < turrets.len() && shot == turret_shot(
            model,
            (#[trigger] turrets[i])@.pos,
            turrets[i]@.angle,
        ).moved_on().outlined().kept_within(playfield)
}

/// One tick for each of `turrets`, each on a draw of its own. Where
/// `may_fire` is set, the shot of each turret that fires is added to `shots`,
/// built on `shot_model`.
pub fn control_turrets(
    turrets: &mut Vec<Turret>,
    playfield: &Rectangle,
    shots: &mut Vec<Shot>,
    shot_model: &CollisionModel,
    may_fire: bool,
)
    ensures
        final(turrets)@.len() == old(turrets)@.len(),
        forall|i: int|
            0 <= i < old(turrets)@.len() ==> (#[trigger] final(turrets)@[i])@ == old(
                turrets,
            )@[i]@.outlined().kept_within(*playfield),
        old(shots)@.len() <= final(shots)@.len() <= old(shots)@.len() + old(turrets)@.len(),
        final(shots)@.take(old(shots)@.len() as int) == old(shots)@,
        !may_fire ==> final(shots)@ == old(shots)@,
        forall|k: int|
            old(shots)@.len() <= k < final(shots)@.len() ==> fired_by(
                (#[trigger] final(shots)@[k])@,
                shot_model@,
                old(turrets)@,
            ),
{
    let n: usize = turrets.len();
    let mut i: usize = 0;
    while i < n
        invariant
            0 <= i <= n,
            n == turrets@.len(),
            n == old(turrets)@.len(),
            forall|k: int|
                0 <= k < i ==> (#[trigger] turrets@[k])@ == old(
                    turrets,
                )@[k]@.outlined().kept_within(*playfield),
            forall|k: int| i <= k < n ==> turrets@[k] == old(turrets)@[k],
            old(shots)@.len() <= shots@.len() <= old(shots)@.len() + i,
            shots@.take(old(shots)@.len() as int) == old(shots)@,
            !may_fire ==> shots@ == old(shots)@,
            forall|k: int|
                old(shots)@.len() <= k < shots@.len() ==> fired_by(
                    (#[trigger] shots@[k])@,
                    shot_model@,
                    old(turrets)@,
                ),
        decreases n - i,
    {
        let action = turrets[i].control(playfield);
        match action {
            TurretAction::MakeShot(pos, angle) => {
                if may_fire {
                    let ghost before = shots@;
                    let about: i32 = clamp_to_grid(angle as i64 + 180);
                    let shot = Shot::new(
                        shot_model.clone(),
                        pos.translate(Vector { x: 0, y: -8 }),
                        Vector { x: 0, y: 0 },
                        about,
                    );
                    shots.push(shot);
                    proof {
                        assert(shots@.take(old(shots)@.len() as int) =~= before.take(
                            old(shots)@.len() as int,
                        ));
                        assert(old(turrets)@[i as int]@.pos == pos);
                        assert forall|k: int|
                            old(shots)@.len() <= k < shots@.len() implies fired_by(
                            (#[trigger] shots@[k])@,
                            shot_model@,
                            old(turrets)@,
                        ) by {
                            if k < before.len() {
                                assert(shots@[k] == before[k]);
                            } else {
                                assert(shots@[k]@ == turret_shot(
                                    shot_model@,
                                    old(turrets)@[i as int]@.pos,
                                    old(turrets)@[i as int]@.angle,
                                ));
                            }
                        }
                    }
                }
            },
            TurretAction::Idle => {},
        }
        i += 1;
    }
}

} // verus!
