//! The playing session: the entities, the terrain and the score, advanced one
//! fixed tick at a time.

use crate::bomb::{control_bombs, release_velocity, tumbled, Bomb};
use crate::camera::Camera;
use crate::collision_assets::{
    bomb_outline, player_outline, rocket_outline, shot_outline, turret_outline, CollisionAssets,
};
use crate::collision_lines::{
    any_marked, collide_many_many, collide_many_one, collides_with, lemma_meets_any_same,
    lemma_pair_hits_same, mark_also, met_by_any, meets_any, overlap, pair_hits, same_outlines,
    Collidable,
};
use crate::geometry::{clamp_to_grid, clamped, Segment, Vector};
use crate::health::{all_alive, kill_marked, lemma_survivors, struck, survivors, Alive, Killable};
use crate::constants::FORWARD_STEP;
use crate::input::InputSample;
use crate::landscape::{contiguous, start_terrain, ticked, Landscape, LandscapeAction};
use crate::player::{home_bounds, steered, Player};
use crate::rocket::{control_rockets, rocket_ticked, Rocket};
use crate::shot::{control_shots, muzzle_velocity, Shot};
use crate::turret::{control_turrets, fired_by, flown_from, turret_shot, Turret};
use crate::world_pos::{Body, WorldPos};
use vstd::prelude::*;

verus! {

/// What killing a rocket is worth.
pub const ROCKET_SCORE: i32 = 200;

/// What killing a turret is worth.
pub const TURRET_SCORE: i32 = 150;

/// Ticks that must pass between two bombs.
pub const BOMB_COOLDOWN_TICKS: i32 = 20;

/// Ticks between the ship's death and its return: four seconds.
pub const AMNESTY_TICKS: i32 = 240;

/// Lives at the start of a session.
pub const START_LIVES: i32 = 3;

/// How a tick leaves the session.
#[derive(Clone, Copy, Debug, PartialEq, Eq, Structural)]
pub enum Outcome {
    /// The session goes on.
    Continue,
    /// The player has quit; the high score goes with them.
    Quit(i32),
    /// The last life is spent and the wait is over: the final score and the
    /// high score.
    GameOver(i32, i32),
}

/// What a tick tells the world outside.
#[derive(Clone, Copy, Debug, PartialEq, Eq, Structural)]
pub struct TickReport {
    pub outcome: Outcome,
    /// Whether the ship fired a shot in this tick.
    pub fired: bool,
    /// Whether the ship dropped a bomb in this tick.
    pub bombed: bool,
}

pub struct Playing {
    camera: Camera,
    player: Player,
    landscape: Landscape,
    shots: Vec<Shot>,
    bombs: Vec<Bomb>,
    rockets: Vec<Rocket>,
    turrets: Vec<Turret>,
    turret_shots: Vec<Shot>,
    collision_assets: CollisionAssets,
    score: i32,
    lives: i32,
    high_score: i32,
    amnesty: i32,
    bomb_cooldown: i32,
}

/// The session as contracts speak of it.
pub struct Scene {
    pub camera: Camera,
    pub player: Player,
    pub landscape: Landscape,
    pub shots: Seq<Shot>,
    pub bombs: Seq<Bomb>,
    pub rockets: Seq<Rocket>,
    pub turrets: Seq<Turret>,
    pub turret_shots: Seq<Shot>,
    pub score: i32,
    pub lives: i32,
    pub high_score: i32,
    /// Ticks left until the dead ship returns; 0 while it lives.
    pub amnesty: i32,
    /// Ticks left until the next bomb may fall.
    pub bomb_cooldown: i32,
}

/// Whether each of `rockets` carries the flight velocity that belongs to it.
pub open spec fn armed(rockets: Seq<Rocket>) -> bool {
    forall|i: int| 0 <= i < rockets.len() ==> (#[trigger] rockets[i]).wf()
}

/// Where the ship stands at the start of a life.
pub open spec fn start_pos() -> Vector {
    Vector { x: 320, y: 180 }
}

impl Scene {
    /// Whether the terrain is a ribbon, each rocket carries its flight
    /// velocity, the counters are in range and the high score is not below
    /// the score.
    pub open spec fn wf(self) -> bool {
        &&& self.landscape@.wf()
        &&& armed(self.rockets)
        &&& 0 <= self.score <= self.high_score
        &&& 0 <= self.lives
        &&& 0 <= self.amnesty <= 240
        &&& 0 <= self.bomb_cooldown <= 20
    }

    /// How a tick that leaves the session in this state ends, given whether
    /// the player asked to quit.
    pub open spec fn outcome(self, quit: bool) -> Outcome {
        if quit {
            Outcome::Quit(self.high_score)
        } else if self.lives == 0 && self.amnesty <= 0 {
            Outcome::GameOver(self.score, self.high_score)
        } else {
            Outcome::Continue
        }
    }

    /// Whether the dead ship returns in the tick that begins in this state:
    /// its wait ends now and a life is left.
    pub open spec fn respawns(self) -> bool {
        self.amnesty == 1 && self.lives > 0
    }

    /// For each of `xs`: whether the living ship runs into it.
    pub open spec fn rammed<T: Collidable>(self, xs: Seq<T>) -> Seq<bool> {
        Seq::new(
            xs.len(),
            |i: int| self.player.alive() && overlap(xs[i].outline(), self.player.outline()),
        )
    }

    /// Whether the living ship runs into the terrain, a rocket, a turret or a
    /// turret's shot.
    pub open spec fn player_struck(self) -> bool {
        self.player.alive() && (overlap(self.player.outline(), self.landscape.outline())
            || met_by_any(self.rockets, self.player.outline()) || met_by_any(
            self.turrets,
            self.player.outline(),
        ) || met_by_any(self.turret_shots, self.player.outline()))
    }

    /// For each of `xs`, the ship's shots or bombs: whether it hits the
    /// terrain, a rocket or a turret.
    pub open spec fn spent<T: Collidable>(self, xs: Seq<T>) -> Seq<bool> {
        Seq::new(
            xs.len(),
            |i: int|
                overlap(xs[i].outline(), self.landscape.outline()) || meets_any(
                    xs[i].outline(),
                    self.rockets,
                ) || meets_any(xs[i].outline(), self.turrets),
        )
    }

    /// For each of `ys`, the rockets or the turrets: whether one of the
    /// ship's shots or bombs hits it.
    pub open spec fn downed<U: Collidable>(self, ys: Seq<U>) -> Seq<bool> {
        Seq::new(
            ys.len(),
            |j: int|
                met_by_any(self.shots, ys[j].outline()) || met_by_any(
                    self.bombs,
                    ys[j].outline(),
                ),
        )
    }

    /// What the hits of the ship's shots and bombs are worth: `ROCKET_SCORE`
    /// for each pair of one of them and a rocket that collide, `TURRET_SCORE`
    /// for each such pair with a turret.
    pub open spec fn gain(self) -> nat {
        200 * (pair_hits(self.shots, self.rockets, self.shots.len() as int) + pair_hits(
            self.bombs,
            self.rockets,
            self.bombs.len() as int,
        )) + 150 * (pair_hits(self.shots, self.turrets, self.shots.len() as int) + pair_hits(
            self.bombs,
            self.turrets,
            self.bombs.len() as int,
        ))
    }
}

impl View for Playing {
    type V = Scene;

    closed spec fn view(&self) -> Scene {
        Scene {
            camera: self.camera,
            player: self.player,
            landscape: self.landscape,
            shots: self.shots@,
            bombs: self.bombs@,
            rockets: self.rockets@,
            turrets: self.turrets@,
            turret_shots: self.turret_shots@,
            score: self.score,
            lives: self.lives,
            high_score: self.high_score,
            amnesty: self.amnesty,
            bomb_cooldown: self.bomb_cooldown,
        }
    }
}

/// `n`, or 2^31 where `n` is more than that.
fn capped(n: usize) -> (c: i64)
    ensures
        c == if n <= 0x8000_0000 {
            n as int
        } else {
            0x8000_0000
        },
{
    if n <= 0x8000_0000 {
        n as i64
    } else {
        0x8000_0000
    }
}

impl Playing {
    /// Whether the collision templates are in place and the scene is sound.
    pub closed spec fn wf(&self) -> bool {
        self.collision_assets.wf() && self@.wf()
    }

    /// A sound session shows a sound scene: at every point at which it can
    /// be observed the terrain is a ribbon, the counters are in range, and
    /// the high score is not below the score.
    pub proof fn lemma_sound_scene(&self)
        requires
            self.wf(),
        ensures
            self@.wf(),
            self@.score <= self@.high_score,
            self@.landscape@.segments.len() >= 1,
            contiguous(self@.landscape@.segments),
    {
    }

    /// A session at its start: three lives, no score, the ship at its
    /// starting place over level ground, and no one else about. A high score
    /// below zero counts as zero.
    pub fn new(high_score: i32) -> (playing: Self)
        ensures
            playing.wf(),
            playing@.camera == (Camera { pos: Vector { x: 0, y: 0 } }),
            playing@.player@ == Body::fresh(
                player_outline(),
                start_pos(),
                90,
                Vector { x: 0, y: 0 },
            ),
            playing@.player.bounds() == home_bounds(),
            playing@.landscape@ == start_terrain(),
            playing@.shots.len() == 0,
            playing@.bombs.len() == 0,
            playing@.rockets.len() == 0,
            playing@.turrets.len() == 0,
            playing@.turret_shots.len() == 0,
            playing@.score == 0,
            playing@.lives == 3,
            playing@.high_score == if high_score < 0 {
                0
            } else {
                high_score
            },
            playing@.amnesty == 0,
            playing@.bomb_cooldown == 0,
    {
        let collision_assets = CollisionAssets::new();
        let player = Player::new(collision_assets.player(), Vector { x: 320, y: 180 });
        Playing {
            camera: Camera { pos: Vector { x: 0, y: 0 } },
            player,
            landscape: Landscape::new(),
            shots: Vec::new(),
            bombs: Vec::new(),
            rockets: Vec::new(),
            turrets: Vec::new(),
            turret_shots: Vec::new(),
            collision_assets,
            score: 0,
            lives: START_LIVES,
            high_score: if high_score < 0 {
                0
            } else {
                high_score
            },
            amnesty: 0,
            bomb_cooldown: 0,
        }
    }

    /// Whether the ship is dead and waiting to return.
    pub fn is_amnesty(&self) -> (waiting: bool)
        ensures
            waiting == (self@.amnesty > 0),
    {
        self.amnesty > 0
    }

    /// Collides the living ship with the terrain, the rockets, the turrets
    /// and the turrets' shots. Whatever it runs into dies, and so does the
    /// ship: it loses a life, never below zero, and its wait begins. A dead
    /// ship collides with nothing.
    pub fn collide_player(&mut self)
        requires
            old(self).wf(),
        ensures
            final(self).wf(),
            struck(old(self)@.rockets, final(self)@.rockets, old(self)@.rammed(old(self)@.rockets)),
            struck(old(self)@.turrets, final(self)@.turrets, old(self)@.rammed(old(self)@.turrets)),
            struck(
                old(self)@.turret_shots,
                final(self)@.turret_shots,
                old(self)@.rammed(old(self)@.turret_shots),
            ),
            if old(self)@.player_struck() {
                &&& final(self)@.player.killed_from(&old(self)@.player)
                &&& final(self)@.lives == if old(self)@.lives > 0 {
                    old(self)@.lives - 1
                } else {
                    0
                }
                &&& final(self)@.amnesty == 240
            } else {
                &&& final(self)@.player == old(self)@.player
                &&& final(self)@.lives == old(self)@.lives
                &&& final(self)@.amnesty == old(self)@.amnesty
            },
            final(self)@.camera == old(self)@.camera,
            final(self)@.landscape == old(self)@.landscape,
            final(self)@.shots == old(self)@.shots,
            final(self)@.bombs == old(self)@.bombs,
            final(self)@.score == old(self)@.score,
            final(self)@.high_score == old(self)@.high_score,
            final(self)@.bomb_cooldown == old(self)@.bomb_cooldown,
    {
        let ghost before = self@;
        if !self.player.is_alive() {
            return ;
        }
        let hit_land: bool = collides_with(&self.player, &self.landscape);
        let rocket_marks = collide_many_one(self.rockets.as_slice(), &self.player);
        let turret_marks = collide_many_one(self.turrets.as_slice(), &self.player);
        let shot_marks = collide_many_one(self.turret_shots.as_slice(), &self.player);
        let struck_now: bool = hit_land || any_marked(&rocket_marks) || any_marked(&turret_marks)
            || any_marked(&shot_marks);
        proof {
            assert(rocket_marks@ =~= before.rammed(before.rockets));
            assert(turret_marks@ =~= before.rammed(before.turrets));
            assert(shot_marks@ =~= before.rammed(before.turret_shots));
        }
        kill_marked(&mut self.rockets, &rocket_marks);
        kill_marked(&mut self.turrets, &turret_marks);
        kill_marked(&mut self.turret_shots, &shot_marks);

        if struck_now {
            self.player.kill();
            self.lives = if self.lives > 0 {
                self.lives - 1
            } else {
                0
            };
            self.amnesty = AMNESTY_TICKS;
        }
    }
    /// Collides the ship's shots and bombs with the terrain, the rockets and
    /// the turrets. Each shot or bomb that hits something dies, and so does
    /// each rocket or turret that is hit. Every colliding pair with a rocket
    /// or a turret scores; the score stops at the greatest `i32`. The high
    /// score follows the score where that has passed it.
    pub fn collide_shots(&mut self)
        requires
            old(self).wf(),
        ensures
            final(self).wf(),
            struck(old(self)@.shots, final(self)@.shots, old(self)@.spent(old(self)@.shots)),
            struck(old(self)@.bombs, final(self)@.bombs, old(self)@.spent(old(self)@.bombs)),
            struck(old(self)@.rockets, final(self)@.rockets, old(self)@.downed(old(self)@.rockets)),
            struck(old(self)@.turrets, final(self)@.turrets, old(self)@.downed(old(self)@.turrets)),
            final(self)@.score == clamped(old(self)@.score + old(self)@.gain()),
            final(self)@.high_score == if final(self)@.score > old(self)@.high_score {
                final(self)@.score
            } else {
                old(self)@.high_score
            },
            final(self)@.camera == old(self)@.camera,
            final(self)@.player == old(self)@.player,
            final(self)@.landscape == old(self)@.landscape,
            final(self)@.turret_shots == old(self)@.turret_shots,
            final(self)@.lives == old(self)@.lives,
            final(self)@.amnesty == old(self)@.amnesty,
            final(self)@.bomb_cooldown == old(self)@.bomb_cooldown,
    {
        let ghost before = self@;
        let shot_land = collide_many_one(self.shots.as_slice(), &self.landscape);
        let shot_rocket = collide_many_many(self.shots.as_slice(), self.rockets.as_slice());
        let shot_turret = collide_many_many(self.shots.as_slice(), self.turrets.as_slice());
        let bomb_land = collide_many_one(self.bombs.as_slice(), &self.landscape);
        let bomb_rocket = collide_many_many(self.bombs.as_slice(), self.rockets.as_slice());
        let bomb_turret = collide_many_many(self.bombs.as_slice(), self.turrets.as_slice());

        let mut shot_marks = shot_land;
        mark_also(&mut shot_marks, &shot_rocket.firsts);
        mark_also(&mut shot_marks, &shot_turret.firsts);
        let mut bomb_marks = bomb_land;
        mark_also(&mut bomb_marks, &bomb_rocket.firsts);
        mark_also(&mut bomb_marks, &bomb_turret.firsts);
        let mut rocket_marks = shot_rocket.seconds;
        mark_also(&mut rocket_marks, &bomb_rocket.seconds);
        let mut turret_marks = shot_turret.seconds;
        mark_also(&mut turret_marks, &bomb_turret.seconds);
        proof {
            assert(shot_marks@ =~= before.spent(before.shots));
            assert(bomb_marks@ =~= before.spent(before.bombs));
            assert(rocket_marks@ =~= before.downed(before.rockets));
            assert(turret_marks@ =~= before.downed(before.turrets));
        }
        kill_marked(&mut self.shots, &shot_marks);
        kill_marked(&mut self.bombs, &bomb_marks);
        kill_marked(&mut self.rockets, &rocket_marks);
        kill_marked(&mut self.turrets, &turret_marks);

        let rocket_pairs: i64 = capped(shot_rocket.pairs) + capped(bomb_rocket.pairs);
        let turret_pairs: i64 = capped(shot_turret.pairs) + capped(bomb_turret.pairs);
        let for_rockets: i64 = ROCKET_SCORE as i64;
        let for_turrets: i64 = TURRET_SCORE as i64;
        assert(for_rockets * rocket_pairs == 200 * rocket_pairs) by (nonlinear_arith)
            requires
                for_rockets == 200,
        ;
        assert(for_turrets * turret_pairs == 150 * turret_pairs) by (nonlinear_arith)
            requires
                for_turrets == 150,
        ;
        let total: i64 = self.score as i64 + for_rockets * rocket_pairs + for_turrets
            * turret_pairs;
        self.score = clamp_to_grid(total);
        if self.score > self.high_score {
            self.high_score = self.score;
        }
    }

    /// The collisions of one tick: first the ship's, then those of its shots
    /// and bombs, all of them judged by where everything stands now. Nothing
    /// is removed here: the dead stay where they are until they are reaped.
    pub fn check_collisions(&mut self)
        requires
            old(self).wf(),
        ensures
            final(self).wf(),
            collided(old(self)@, final(self)@),
    {
        let ghost before = self@;
        self.collide_player();
        let ghost mid = self@;
        proof {
            assert(same_outlines(mid.rockets, before.rockets)) by {
                assert forall|i: int| 0 <= i < mid.rockets.len() implies (
                #[trigger] mid.rockets[i]).outline() == before.rockets[i].outline() by {
                    assert(before.rammed(before.rockets)[i] ==> mid.rockets[i].killed_from(
                        &before.rockets[i],
                    ));
                }
            }
            assert(same_outlines(mid.turrets, before.turrets)) by {
                assert forall|i: int| 0 <= i < mid.turrets.len() implies (
                #[trigger] mid.turrets[i]).outline() == before.turrets[i].outline() by {
                    assert(before.rammed(before.turrets)[i] ==> mid.turrets[i].killed_from(
                        &before.turrets[i],
                    ));
                }
            }
            assert forall|i: int| 0 <= i < before.shots.len() implies mid.spent(mid.shots)[i]
                == before.spent(before.shots)[i] by {
                lemma_meets_any_same(before.shots[i].outline(), mid.rockets, before.rockets);
                lemma_meets_any_same(before.shots[i].outline(), mid.turrets, before.turrets);
            }
            assert(mid.spent(mid.shots) =~= before.spent(before.shots));
            assert forall|i: int| 0 <= i < before.bombs.len() implies mid.spent(mid.bombs)[i]
                == before.spent(before.bombs)[i] by {
                lemma_meets_any_same(before.bombs[i].outline(), mid.rockets, before.rockets);
                lemma_meets_any_same(before.bombs[i].outline(), mid.turrets, before.turrets);
            }
            assert(mid.spent(mid.bombs) =~= before.spent(before.bombs));
            assert(mid.downed(mid.rockets) =~= before.downed(before.rockets));
            assert(mid.downed(mid.turrets) =~= before.downed(before.turrets));
            lemma_pair_hits_same(before.shots, mid.rockets, before.rockets, before.shots.len() as int);
            lemma_pair_hits_same(before.bombs, mid.rockets, before.rockets, before.bombs.len() as int);
            lemma_pair_hits_same(before.shots, mid.turrets, before.turrets, before.shots.len() as int);
            lemma_pair_hits_same(before.bombs, mid.turrets, before.turrets, before.bombs.len() as int);
            assert(mid.gain() == before.gain());
        }
        self.collide_shots();
        proof {
            let after = self@;
            let rocket_marks = either(
                before.rammed(before.rockets),
                before.downed(before.rockets),
            );
            assert forall|i: int| 0 <= i < before.rockets.len() implies if rocket_marks[i] {
                (#[trigger] after.rockets[i]).killed_from(&before.rockets[i])
            } else {
                after.rockets[i] == before.rockets[i]
            } by {
                let rammed = before.rammed(before.rockets)[i];
                let downed = mid.downed(mid.rockets)[i];
                assert(rammed ==> mid.rockets[i].killed_from(&before.rockets[i]));
                assert(!rammed ==> mid.rockets[i] == before.rockets[i]);
                assert(downed ==> after.rockets[i].killed_from(&mid.rockets[i]));
                assert(!downed ==> after.rockets[i] == mid.rockets[i]);
            }
            let turret_marks = either(
                before.rammed(before.turrets),
                before.downed(before.turrets),
            );
            assert forall|i: int| 0 <= i < before.turrets.len() implies if turret_marks[i] {
                (#[trigger] after.turrets[i]).killed_from(&before.turrets[i])
            } else {
                after.turrets[i] == before.turrets[i]
            } by {
                let rammed = before.rammed(before.turrets)[i];
                let downed = mid.downed(mid.turrets)[i];
                assert(rammed ==> mid.turrets[i].killed_from(&before.turrets[i]));
                assert(!rammed ==> mid.turrets[i] == before.turrets[i]);
                assert(downed ==> after.turrets[i].killed_from(&mid.turrets[i]));
                assert(!downed ==> after.turrets[i] == mid.turrets[i]);
            }
        }
    }
    /// Puts the session back to the start of a life: the ship at its
    /// starting place, the camera at the origin, new level ground, and no
    /// one else about. The score, the lives and the high score stay.
    pub fn reset_after_death(&mut self)
        requires
            old(self).wf(),
        ensures
            final(self).wf(),
            final(self)@.camera == (Camera { pos: Vector { x: 0, y: 0 } }),
            final(self)@.player@ == Body::fresh(
                player_outline(),
                start_pos(),
                90,
                Vector { x: 0, y: 0 },
            ),
            final(self)@.player.bounds() == home_bounds(),
            final(self)@.landscape@ == start_terrain(),
            final(self)@.shots.len() == 0,
            final(self)@.bombs.len() == 0,
            final(self)@.rockets.len() == 0,
            final(self)@.turrets.len() == 0,
            final(self)@.turret_shots.len() == 0,
            final(self)@.bomb_cooldown == 0,
            final(self)@.score == old(self)@.score,
            final(self)@.lives == old(self)@.lives,
            final(self)@.high_score == old(self)@.high_score,
            final(self)@.amnesty == old(self)@.amnesty,
    {
        self.player = Player::new(self.collision_assets.player(), Vector { x: 320, y: 180 });
        self.camera = Camera { pos: Vector { x: 0, y: 0 } };
        self.landscape = Landscape::new();
        self.shots.clear();
        self.bombs.clear();
        self.rockets.clear();
        self.turrets.clear();
        self.turret_shots.clear();
        self.bomb_cooldown = 0;
    }

    /// Adds a shot of the ship's.
    pub fn add_shot(&mut self, shot: Shot)
        requires
            old(self).wf(),
        ensures
            final(self).wf(),
            final(self)@ == (Scene { shots: old(self)@.shots.push(shot), ..old(self)@ }),
    {
        self.shots.push(shot);
    }

    /// Adds a bomb.
    pub fn add_bomb(&mut self, bomb: Bomb)
        requires
            old(self).wf(),
        ensures
            final(self).wf(),
            final(self)@ == (Scene { bombs: old(self)@.bombs.push(bomb), ..old(self)@ }),
    {
        self.bombs.push(bomb);
    }

    /// Adds a rocket.
    pub fn add_rocket(&mut self, rocket: Rocket)
        requires
            old(self).wf(),
            rocket.wf(),
        ensures
            final(self).wf(),
            final(self)@ == (Scene { rockets: old(self)@.rockets.push(rocket), ..old(self)@ }),
    {
        self.rockets.push(rocket);
    }

    /// Adds a turret.
    pub fn add_turret(&mut self, turret: Turret)
        requires
            old(self).wf(),
        ensures
            final(self).wf(),
            final(self)@ == (Scene { turrets: old(self)@.turrets.push(turret), ..old(self)@ }),
    {
        self.turrets.push(turret);
    }

    /// Adds a shot of a turret's.
    pub fn add_turret_shot(&mut self, shot: Shot)
        requires
            old(self).wf(),
        ensures
            final(self).wf(),
            final(self)@ == (Scene {
                turret_shots: old(self)@.turret_shots.push(shot),
                ..old(self)@
            }),
    {
        self.turret_shots.push(shot);
    }

    /// The start of a tick: the wait of a dead ship and the bomb cooldown
    /// each go down by one. Where the wait ends and a life is left, the
    /// session is put back to the start of a life.
    pub fn count_down(&mut self)
        requires
            old(self).wf(),
        ensures
            final(self).wf(),
            counted_down(old(self)@, final(self)@),
    {
        if self.amnesty > 0 {
            self.amnesty = self.amnesty - 1;
            if self.amnesty == 0 && self.lives > 0 {
                self.reset_after_death();
            }
        }
        self.bomb_cooldown = if self.bomb_cooldown > 0 {
            self.bomb_cooldown - 1
        } else {
            0
        };
    }

    /// The ship's part of a tick, for a living ship: the camera scrolls on by
    /// `FORWARD_STEP` and carries the ship with it, the ship is steered, and
    /// it fires and bombs as asked, a bomb only once the cooldown is over.
    /// The result says whether it fired and whether it bombed. A dead ship
    /// does nothing, and the camera stands.
    pub fn steer(&mut self, input: InputSample) -> (done: (bool, bool))
        requires
            old(self).wf(),
            input.wf(),
        ensures
            final(self).wf(),
            steered_by(old(self)@, final(self)@, input, done.0, done.1),
    {
        let mut fired: bool = false;
        let mut bombed: bool = false;
        if self.player.is_alive() {
            let forward_velocity = Vector { x: FORWARD_STEP, y: 0 };
            self.camera.advance(forward_velocity);
            self.player.advance(forward_velocity);
            self.player.control(input.dx, input.dy);
            if input.fire {
                let shot = Shot::new(
                    self.collision_assets.shot(),
                    self.player.world_pos(),
                    forward_velocity,
                    self.player.angle(),
                );
                self.shots.push(shot);
                fired = true;
                assert(self.shots@.drop_last() =~= old(self)@.shots);
            }
            if input.bomb && self.bomb_cooldown == 0 {
                let bomb = Bomb::new(
                    self.collision_assets.bomb(),
                    self.player.world_pos(),
                    Vector { x: 5, y: 0 },
                );
                self.bombs.push(bomb);
                self.bomb_cooldown = BOMB_COOLDOWN_TICKS;
                bombed = true;
                assert(self.bombs@.drop_last() =~= old(self)@.bombs);
            }
        }
        (fired, bombed)
    }

    /// Puts the enemy that the terrain has asked for on its segment: a
    /// turret on the segment's midpoint, or a rocket 16 above it. The
    /// segments that ask are level, so a turret stands at 180 degrees and a
    /// rocket at 360. Nothing is placed while a dead ship waits.
    pub fn place_enemy(&mut self, action: LandscapeAction)
        requires
            old(self).wf(),
        ensures
            final(self).wf(),
            enemy_placed(old(self)@, final(self)@, action),
            final(self)@.camera == old(self)@.camera,
            final(self)@.player == old(self)@.player,
            final(self)@.landscape == old(self)@.landscape,
            final(self)@.shots == old(self)@.shots,
            final(self)@.bombs == old(self)@.bombs,
            final(self)@.turret_shots == old(self)@.turret_shots,
            final(self)@.score == old(self)@.score,
            final(self)@.lives == old(self)@.lives,
            final(self)@.high_score == old(self)@.high_score,
            final(self)@.amnesty == old(self)@.amnesty,
            final(self)@.bomb_cooldown == old(self)@.bomb_cooldown,
    {
        let not_amnesty: bool = !self.is_amnesty();
        match action {
            LandscapeAction::MakeTurret(line) => {
                if not_amnesty {
                    let turret = Turret::new(self.collision_assets.turret(), line.center(), 180);
                    self.turrets.push(turret);
                    assert(self.turrets@.drop_last() =~= old(self)@.turrets);
                }
            },
            LandscapeAction::MakeRocket(line) => {
                if not_amnesty {
                    let rocket = Rocket::new(
                        self.collision_assets.rocket(),
                        line.center().translate(Vector { x: 0, y: -16 }),
                        360,
                    );
                    self.rockets.push(rocket);
                    assert(self.rockets@.drop_last() =~= old(self)@.rockets);
                }
            },
            LandscapeAction::Idle => {},
        }
    }
    /// The terrain's part of a tick, while the ship lives: the terrain takes
    /// its tick for where the camera stands, on draws of its own, and the
    /// enemy that it asks for is placed. While the ship is dead the terrain
    /// rests and asks for nothing.
    pub fn grow(&mut self)
        requires
            old(self).wf(),
        ensures
            final(self).wf(),
            terrain_phase(old(self)@, final(self)@),
    {
        if self.player.is_alive() {
            let action = self.landscape.update(&self.camera);
            let ghost grown = self@;
            self.place_enemy(action);
            proof {
                assert(ticked(
                    old(self)@.landscape@,
                    self@.landscape@,
                    action,
                    old(self)@.camera.pos.x,
                ));
                assert(grown.turrets == old(self)@.turrets);
                assert(grown.rockets == old(self)@.rockets);
                assert(grown.amnesty == old(self)@.amnesty);
                assert(enemy_placed(old(self)@, self@, action));
            }
        }
    }

    /// The entities' part of a tick: the rockets, the turrets, the ship's
    /// shots, the bombs and the turrets' shots each take their tick, in that
    /// order, within the playfield about the camera. A turret's new shot
    /// flies in the tick in which it is fired. Turrets hold their fire while
    /// a dead ship waits.
    pub fn control_entities(&mut self)
        requires
            old(self).wf(),
        ensures
            final(self).wf(),
            entities_ticked(old(self)@, final(self)@),
    {
        let playfield = self.camera.playfield();
        let may_fire: bool = !self.is_amnesty();
        let shot_model = self.collision_assets.shot();
        control_rockets(&mut self.rockets, &playfield);
        let ghost waiting = self.turret_shots@;
        control_turrets(
            &mut self.turrets,
            &playfield,
            &mut self.turret_shots,
            &shot_model,
            may_fire,
        );
        let ghost joined = self.turret_shots@;
        control_shots(&mut self.shots, &playfield);
        control_bombs(&mut self.bombs, &playfield);
        control_shots(&mut self.turret_shots, &playfield);
        proof {
            assert forall|i: int| 0 <= i < waiting.len() implies (
            #[trigger] self.turret_shots@[i])@ == waiting[i]@.moved_on().outlined().kept_within(
                playfield,
            ) by {
                assert(joined.take(waiting.len() as int)[i] == joined[i]);
            }
            assert forall|k: int| waiting.len() <= k < self.turret_shots@.len() implies flown_from(
                (#[trigger] self.turret_shots@[k])@,
                shot_outline(),
                old(self)@.turrets,
                playfield,
            ) by {
                assert(fired_by(joined[k]@, shot_outline(), old(self)@.turrets));
                let i = choose|i: int|
                    0 <= i < old(self)@.turrets.len() && joined[k]@ == turret_shot(
                        shot_outline(),
                        (#[trigger] old(self)@.turrets[i])@.pos,
                        old(self)@.turrets[i]@.angle,
                    );
                assert(self.turret_shots@[k]@ == turret_shot(
                    shot_outline(),
                    old(self)@.turrets[i]@.pos,
                    old(self)@.turrets[i]@.angle,
                ).moved_on().outlined().kept_within(playfield));
            }
        }
    }

    /// The end of a tick: the dead of every collection are removed, and the
    /// living stay in their order.
    pub fn reap(&mut self)
        requires
            old(self).wf(),
        ensures
            final(self).wf(),
            reaped(old(self)@, final(self)@),
    {
        proof {
            lemma_survivors(self.shots@);
            lemma_survivors(self.bombs@);
            lemma_survivors(self.rockets@);
            lemma_survivors(self.turrets@);
            lemma_survivors(self.turret_shots@);
            let kept = survivors(self.rockets@);
            assert forall|i: int| 0 <= i < kept.len() implies (#[trigger] kept[i]).wf() by {
                assert(self.rockets@.contains(kept[i]));
            }
        }
        crate::health::reap(&mut self.rockets);
        crate::health::reap(&mut self.shots);
        crate::health::reap(&mut self.bombs);
        crate::health::reap(&mut self.turrets);
        crate::health::reap(&mut self.turret_shots);
    }

    /// How the tick ends for the world outside.
    pub fn outcome(&self, quit: bool) -> (outcome: Outcome)
        ensures
            outcome == self@.outcome(quit),
    {
        if quit {
            Outcome::Quit(self.high_score)
        } else if self.lives == 0 && !self.is_amnesty() {
            Outcome::GameOver(self.score, self.high_score)
        } else {
            Outcome::Continue
        }
    }

    /// A tick up to its collisions: the countdowns, the ship, the terrain,
    /// the other entities and the collisions, in that order. The dead are
    /// still in place afterwards, for whoever wants to see where they fell.
    /// The result says whether the ship fired and whether it bombed.
    /// Whatever the draws of the terrain, the turrets and the rockets were:
    /// the score has not gone down and the high score is not below it, and
    /// no life has come back.
    pub fn simulate(&mut self, input: InputSample) -> (done: (bool, bool))
        requires
            old(self).wf(),
            input.wf(),
        ensures
            final(self).wf(),
            simulated(old(self)@, final(self)@, input, done.0, done.1),
            done.0 ==> input.fire,
            done.1 ==> input.bomb,
            final(self)@.score >= old(self)@.score,
            final(self)@.high_score >= old(self)@.high_score,
            final(self)@.high_score >= final(self)@.score,
            final(self)@.lives <= old(self)@.lives,
            final(self)@.lives >= old(self)@.lives - 1,
    {
        self.count_down();
        let ghost a = self@;
        let done = self.steer(input);
        let ghost b = self@;
        self.grow();
        let ghost c = self@;
        self.control_entities();
        let ghost d = self@;
        self.check_collisions();
        proof {
            assert(counted_down(old(self)@, a) && steered_by(a, b, input, done.0, done.1)
                && terrain_phase(b, c) && entities_ticked(c, d) && collided(d, self@));
        }
        done
    }

    /// The end of a tick: the reap, and the outcome for the state that it
    /// leaves.
    pub fn conclude(&mut self, quit: bool) -> (outcome: Outcome)
        requires
            old(self).wf(),
        ensures
            final(self).wf(),
            reaped(old(self)@, final(self)@),
            outcome == final(self)@.outcome(quit),
    {
        self.reap();
        self.outcome(quit)
    }

    /// One fixed tick: `simulate`, then `conclude`. Whatever the draws of
    /// the terrain, the turrets and the rockets were: afterwards no dead
    /// enemy or projectile is left, the terrain is a ribbon, the score has
    /// not gone down and the high score is not below it, no life has come
    /// back, and the outcome is the one that belongs to the new state.
    pub fn update(&mut self, input: InputSample) -> (report: TickReport)
        requires
            old(self).wf(),
            input.wf(),
        ensures
            final(self).wf(),
            tick_done(old(self)@, final(self)@, input, report),
            report.outcome == final(self)@.outcome(input.quit),
            report.fired ==> input.fire,
            report.bombed ==> input.bomb,
            all_alive(final(self)@.shots),
            all_alive(final(self)@.bombs),
            all_alive(final(self)@.rockets),
            all_alive(final(self)@.turrets),
            all_alive(final(self)@.turret_shots),
            final(self)@.landscape@.segments.len() >= 1,
            contiguous(final(self)@.landscape@.segments),
            final(self)@.score >= old(self)@.score,
            final(self)@.high_score >= old(self)@.high_score,
            final(self)@.high_score >= final(self)@.score,
            final(self)@.lives <= old(self)@.lives,
            final(self)@.lives >= old(self)@.lives - 1,
    {
        let done = self.simulate(input);
        let ghost mid = self@;
        let outcome = self.conclude(input.quit);
        let report = TickReport { outcome, fired: done.0, bombed: done.1 };
        proof {
            assert(simulated(old(self)@, mid, input, report.fired, report.bombed) && reaped(
                mid,
                self@,
            ));
        }
        report
    }

    pub fn score(&self) -> (score: i32)
        ensures
            score == self@.score,
    {
        self.score
    }

    pub fn lives(&self) -> (lives: i32)
        ensures
            lives == self@.lives,
    {
        self.lives
    }

    pub fn high_score(&self) -> (high_score: i32)
        ensures
            high_score == self@.high_score,
    {
        self.high_score
    }

    /// Ticks left until the dead ship returns.
    pub fn amnesty(&self) -> (ticks: i32)
        ensures
            ticks == self@.amnesty,
    {
        self.amnesty
    }

    /// Ticks left until the next bomb may fall.
    pub fn bomb_cooldown(&self) -> (ticks: i32)
        ensures
            ticks == self@.bomb_cooldown,
    {
        self.bomb_cooldown
    }

    pub fn camera(&self) -> (camera: &Camera)
        ensures
            *camera == self@.camera,
    {
        &self.camera
    }

    pub fn player(&self) -> (player: &Player)
        ensures
            *player == self@.player,
    {
        &self.player
    }

    pub fn landscape(&self) -> (landscape: &Landscape)
        ensures
            *landscape == self@.landscape,
    {
        &self.landscape
    }

    pub fn shots(&self) -> (shots: &Vec<Shot>)
        ensures
            shots@ == self@.shots,
    {
        &self.shots
    }

    pub fn bombs(&self) -> (bombs: &Vec<Bomb>)
        ensures
            bombs@ == self@.bombs,
    {
        &self.bombs
    }

    pub fn rockets(&self) -> (rockets: &Vec<Rocket>)
        ensures
            rockets@ == self@.rockets,
    {
        &self.rockets
    }

    pub fn turrets(&self) -> (turrets: &Vec<Turret>)
        ensures
            turrets@ == self@.turrets,
    {
        &self.turrets
    }

    pub fn turret_shots(&self) -> (shots: &Vec<Shot>)
        ensures
            shots@ == self@.turret_shots,
    {
        &self.turret_shots
    }
}

/// Whether the turrets and rockets of `after` are those of `before` with
/// the enemy added that `action` asks for: a turret on the midpoint of the
/// segment at 180 degrees, or a rocket 16 above it at 360 degrees, and
/// nothing while a dead ship waits.
pub open spec fn enemy_placed(before: Scene, after: Scene, action: LandscapeAction) -> bool {
    match action {
        LandscapeAction::MakeTurret(line) if before.amnesty == 0 => {
            &&& after.turrets.len() == before.turrets.len() + 1
            &&& after.turrets.drop_last() == before.turrets
            &&& after.turrets.last()@ == Body::fresh(
                turret_outline(),
                line.midpoint(),
                180,
                Vector { x: 0, y: 0 },
            )
            &&& after.rockets == before.rockets
        },
        LandscapeAction::MakeRocket(line) if before.amnesty == 0 => {
            &&& after.rockets.len() == before.rockets.len() + 1
            &&& after.rockets.drop_last() == before.rockets
            &&& after.rockets.last()@ == Body::fresh(
                rocket_outline(),
                line.midpoint().shifted(Vector { x: 0, y: -16i32 }),
                360,
                Vector { x: 0, y: 0 },
            )
            &&& after.turrets == before.turrets
        },
        _ => {
            &&& after.turrets == before.turrets
            &&& after.rockets == before.rockets
        },
    }
}

/// Whether the terrain, the turrets and the rockets of `after` are what one
/// tick of the terrain on some draws of its generator, and the placing of
/// the enemy that it asked for, make of `before`.
pub open spec fn terrain_ticked(before: Scene, after: Scene) -> bool {
    exists|action: LandscapeAction| #[trigger]
        ticked(before.landscape@, after.landscape@, action, before.camera.pos.x) && enemy_placed(
            before,
            after,
            action,
        )
}

/// Whether `after` is `before` after the countdowns at the start of a tick:
/// the wait of a dead ship and the bomb cooldown each one less, and the
/// session put back to the start of a life where the wait ends with a life
/// left.
pub open spec fn counted_down(before: Scene, after: Scene) -> bool {
    &&& (after.amnesty == if before.amnesty > 0 {
        before.amnesty - 1
    } else {
        0
    })
    &&& after.score == before.score
    &&& after.lives == before.lives
    &&& after.high_score == before.high_score
    &&& (if before.respawns() {
        &&& after.camera == (Camera { pos: Vector { x: 0, y: 0 } })
        &&& after.player@ == Body::fresh(
            player_outline(),
            start_pos(),
            90,
            Vector { x: 0, y: 0 },
        )
        &&& after.player.bounds() == home_bounds()
        &&& after.landscape@ == start_terrain()
        &&& after.shots.len() == 0
        &&& after.bombs.len() == 0
        &&& after.rockets.len() == 0
        &&& after.turrets.len() == 0
        &&& after.turret_shots.len() == 0
        &&& after.bomb_cooldown == 0
    } else {
        &&& after.camera == before.camera
        &&& after.player == before.player
        &&& after.landscape == before.landscape
        &&& after.shots == before.shots
        &&& after.bombs == before.bombs
        &&& after.rockets == before.rockets
        &&& after.turrets == before.turrets
        &&& after.turret_shots == before.turret_shots
        &&& after.bomb_cooldown == if before.bomb_cooldown > 0 {
            before.bomb_cooldown - 1
        } else {
            0
        }
    })
}

/// Whether `after`, `fired` and `bombed` are what the ship's part of a tick
/// on `input` makes of `before`.
pub open spec fn steered_by(
    before: Scene,
    after: Scene,
    input: InputSample,
    fired: bool,
    bombed: bool,
) -> bool {
    &&& fired == (before.player.alive() && input.fire)
    &&& bombed == (before.player.alive() && input.bomb && before.bomb_cooldown == 0)
    &&& (after.camera.pos == if before.player.alive() {
        before.camera.pos.shifted(forward())
    } else {
        before.camera.pos
    })
    &&& (after.player@ == if before.player.alive() {
        steered(
            Body {
                pos: before.player@.pos.shifted(forward()),
                ..before.player@
            },
            before.player.bounds().shifted(forward()),
            input.dx,
            input.dy,
        )
    } else {
        before.player@
    })
    &&& (after.player.bounds() == if before.player.alive() {
        before.player.bounds().shifted(forward())
    } else {
        before.player.bounds()
    })
    &&& (if fired {
        &&& after.shots.len() == before.shots.len() + 1
        &&& after.shots.drop_last() == before.shots
        &&& after.shots.last()@ == Body::fresh(
            shot_outline(),
            after.player@.pos,
            after.player@.angle,
            muzzle_velocity(forward(), after.player@.angle),
        )
    } else {
        after.shots == before.shots
    })
    &&& (if bombed {
        &&& after.bombs.len() == before.bombs.len() + 1
        &&& after.bombs.drop_last() == before.bombs
        &&& after.bombs.last()@ == Body::fresh(
            bomb_outline(),
            after.player@.pos,
            90,
            release_velocity(Vector { x: 5, y: 0 }),
        )
        &&& after.bomb_cooldown == 20
    } else {
        &&& after.bombs == before.bombs
        &&& after.bomb_cooldown == before.bomb_cooldown
    })
    &&& after.landscape == before.landscape
    &&& after.rockets == before.rockets
    &&& after.turrets == before.turrets
    &&& after.turret_shots == before.turret_shots
    &&& after.score == before.score
    &&& after.lives == before.lives
    &&& after.high_score == before.high_score
    &&& after.amnesty == before.amnesty
}

/// Whether `after` is what the terrain's part of a tick makes of `before`
/// on some draws of the terrain's generator.
pub open spec fn terrain_phase(before: Scene, after: Scene) -> bool {
    &&& !before.player.alive() ==> after == before
    &&& before.player.alive() ==> terrain_ticked(before, after)
    &&& after.camera == before.camera
    &&& after.player == before.player
    &&& after.shots == before.shots
    &&& after.bombs == before.bombs
    &&& after.turret_shots == before.turret_shots
    &&& after.score == before.score
    &&& after.lives == before.lives
    &&& after.high_score == before.high_score
    &&& after.amnesty == before.amnesty
    &&& after.bomb_cooldown == before.bomb_cooldown
}

/// Whether `after` is what the entities' part of a tick makes of `before`
/// on some draws of the rockets' and the turrets' generators.
pub open spec fn entities_ticked(before: Scene, after: Scene) -> bool {
    &&& after.rockets.len() == before.rockets.len()
    &&& (forall|i: int|
        0 <= i < before.rockets.len() ==> rocket_ticked(
            before.rockets[i]@,
            (#[trigger] after.rockets[i])@,
            before.camera.playfield_spec(),
        ))
    &&& after.turrets.len() == before.turrets.len()
    &&& (forall|i: int|
        0 <= i < before.turrets.len() ==> (#[trigger] after.turrets[i])@ == before.turrets[i]@.outlined().kept_within(before.camera.playfield_spec()))
    &&& after.shots.len() == before.shots.len()
    &&& (forall|i: int|
        0 <= i < before.shots.len() ==> (#[trigger] after.shots[i])@ == before.shots[i]@.moved_on().outlined().kept_within(
            before.camera.playfield_spec(),
        ))
    &&& after.bombs.len() == before.bombs.len()
    &&& (forall|i: int|
        0 <= i < before.bombs.len() ==> (#[trigger] after.bombs[i])@ == (Body {
            angle: tumbled(before.bombs[i]@.angle),
            ..before.bombs[i]@.moved_on()
        }).outlined().kept_within(before.camera.playfield_spec()))
    &&& (before.turret_shots.len() <= after.turret_shots.len()
        <= before.turret_shots.len() + before.turrets.len())
    &&& before.amnesty > 0 ==> after.turret_shots.len() == before.turret_shots.len()
    &&& (forall|i: int|
        0 <= i < before.turret_shots.len() ==> (
        #[trigger] after.turret_shots[i])@ == before.turret_shots[i]@.moved_on().outlined().kept_within(
            before.camera.playfield_spec(),
        ))
    &&& (forall|k: int|
        before.turret_shots.len() <= k < after.turret_shots.len()
            ==> flown_from(
            (#[trigger] after.turret_shots[k])@,
            shot_outline(),
            before.turrets,
            before.camera.playfield_spec(),
        ))
    &&& after.camera == before.camera
    &&& after.player == before.player
    &&& after.landscape == before.landscape
    &&& after.score == before.score
    &&& after.lives == before.lives
    &&& after.high_score == before.high_score
    &&& after.amnesty == before.amnesty
    &&& after.bomb_cooldown == before.bomb_cooldown
}

/// Whether `after` is `before` after the collisions of a tick.
pub open spec fn collided(before: Scene, after: Scene) -> bool {
    &&& struck(before.shots, after.shots, before.spent(before.shots))
    &&& struck(before.bombs, after.bombs, before.spent(before.bombs))
    &&& (struck(
        before.rockets,
        after.rockets,
        either(before.rammed(before.rockets), before.downed(before.rockets)),
    ))
    &&& (struck(
        before.turrets,
        after.turrets,
        either(before.rammed(before.turrets), before.downed(before.turrets)),
    ))
    &&& (struck(
        before.turret_shots,
        after.turret_shots,
        before.rammed(before.turret_shots),
    ))
    &&& (if before.player_struck() {
        &&& after.player.killed_from(&before.player)
        &&& after.lives == if before.lives > 0 {
            before.lives - 1
        } else {
            0
        }
        &&& after.amnesty == 240
    } else {
        &&& after.player == before.player
        &&& after.lives == before.lives
        &&& after.amnesty == before.amnesty
    })
    &&& after.score == clamped(before.score + before.gain())
    &&& (after.high_score == if after.score > before.high_score {
        after.score
    } else {
        before.high_score
    })
    &&& after.camera == before.camera
    &&& after.landscape == before.landscape
    &&& after.bomb_cooldown == before.bomb_cooldown
}

/// Whether `after` is `before` with the dead of every collection removed.
pub open spec fn reaped(before: Scene, after: Scene) -> bool {
    &&& (after == (Scene {
        shots: survivors(before.shots),
        bombs: survivors(before.bombs),
        rockets: survivors(before.rockets),
        turrets: survivors(before.turrets),
        turret_shots: survivors(before.turret_shots),
        ..before
    }))
    &&& all_alive(after.shots)
    &&& all_alive(after.bombs)
    &&& all_alive(after.rockets)
    &&& all_alive(after.turrets)
    &&& all_alive(after.turret_shots)
}

/// Whether `after`, `fired` and `bombed` are what a tick up to its
/// collisions makes of `before` on `input`, on some draws of the generators:
/// the countdowns, the ship, the terrain, the entities and the collisions,
/// each taking up where the one before it left off.
pub open spec fn simulated(
    before: Scene,
    after: Scene,
    input: InputSample,
    fired: bool,
    bombed: bool,
) -> bool {
    exists|a: Scene, b: Scene, c: Scene, d: Scene|
        counted_down(before, a) && steered_by(a, b, input, fired, bombed) && terrain_phase(b, c)
            && entities_ticked(c, d) && collided(d, after)
}

/// Whether `after` and `report` are what one whole tick makes of `before` on
/// `input`, on some draws of the generators.
pub open spec fn tick_done(
    before: Scene,
    after: Scene,
    input: InputSample,
    report: TickReport,
) -> bool {
    exists|mid: Scene|
        simulated(before, mid, input, report.fired, report.bombed) && reaped(mid, after)
            && report.outcome == after.outcome(input.quit)
}

/// By how much the camera scrolls in one tick.
pub open spec fn forward() -> Vector {
    Vector { x: 4, y: 0 }
}

/// For each index: whether the mark in `a` or the mark in `b` is set.
pub open spec fn either(a: Seq<bool>, b: Seq<bool>) -> Seq<bool> {
    Seq::new(a.len(), |i: int| a[i] || b[i])
}

} // verus!
