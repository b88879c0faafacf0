use line_shooter::bomb::Bomb;
use line_shooter::camera::{Camera, Rectangle};
use line_shooter::collision_assets::CollisionAssets;
use line_shooter::geometry::Vector;
use line_shooter::health::Alive;
use line_shooter::input::InputSample;
use line_shooter::landscape::{LandscapeAction, TerrainDraws};
use line_shooter::playing::{Outcome, Playing};
use line_shooter::rocket::Rocket;
use line_shooter::shot::Shot;
use line_shooter::turret::Turret;
use line_shooter::world_pos::WorldPos;
use line_shooter::geometry::Segment;

fn playfield() -> Rectangle {
    Camera::new(Vector::new(0, 0)).playfield()
}

fn idle() -> InputSample {
    InputSample::idle()
}

/// A turret at (100, 100) with its outline in place.
fn turret_at_100_100() -> Turret {
    let assets = CollisionAssets::new();
    let mut turret = Turret::new(assets.turret(), Vector::new(100, 100), 180);
    turret.control_with(&playfield(), 999);
    turret
}

/// A shot that has flown to `pos`, pointing right, with its outline in place.
fn shot_at(pos: Vector) -> Shot {
    let assets = CollisionAssets::new();
    let start = Vector::new(pos.x - 12, pos.y);
    let mut shot = Shot::new(assets.shot(), start, Vector::new(4, 0), 90);
    shot.control(&playfield());
    assert_eq!(shot.world_pos(), pos);
    shot
}

fn bomb_at(pos: Vector) -> Bomb {
    let assets = CollisionAssets::new();
    let start = Vector::new(pos.x - 5, pos.y - 4);
    let mut bomb = Bomb::new(assets.bomb(), start, Vector::new(5, 0));
    bomb.control(&playfield());
    assert_eq!(bomb.world_pos(), pos);
    bomb
}

fn rocket_at(pos: Vector) -> Rocket {
    let assets = CollisionAssets::new();
    let mut rocket = Rocket::new(assets.rocket(), pos, 360);
    rocket.control_with(&playfield(), 999);
    rocket
}

#[test]
fn a_session_starts_with_three_lives_and_no_score() {
    let playing = Playing::new(5000);
    assert_eq!(playing.score(), 0);
    assert_eq!(playing.lives(), 3);
    assert_eq!(playing.high_score(), 5000);
    assert_eq!(playing.amnesty(), 0);
    assert!(!playing.is_amnesty());
    assert_eq!(playing.bomb_cooldown(), 0);
    assert_eq!(playing.camera().pos, Vector::new(0, 0));
    assert_eq!(playing.player().world_pos(), Vector::new(320, 180));
    assert!(playing.player().is_alive());
    assert_eq!(playing.landscape().len(), 82);
    assert!(playing.shots().is_empty());
    assert!(playing.bombs().is_empty());
    assert!(playing.rockets().is_empty());
    assert!(playing.turrets().is_empty());
    assert!(playing.turret_shots().is_empty());
    assert_eq!(Playing::new(-7).high_score(), 0);
}

#[test]
fn shot_kills_turret() {
    let mut playing = Playing::new(0);
    playing.add_turret(turret_at_100_100());
    playing.add_shot(shot_at(Vector::new(100, 84)));
    playing.check_collisions();
    assert!(playing.turrets()[0].is_dead());
    assert!(playing.shots()[0].is_dead());
    assert_eq!(playing.score(), 150);
    assert_eq!(playing.high_score(), 150);
    assert_eq!(playing.lives(), 3);
    assert!(playing.player().is_alive());
    // Nothing is removed before the reap.
    assert_eq!(playing.turrets().len(), 1);
    assert_eq!(playing.shots().len(), 1);
    playing.reap();
    assert!(playing.turrets().is_empty());
    assert!(playing.shots().is_empty());
}

#[test]
fn a_shot_that_misses_scores_nothing() {
    let mut playing = Playing::new(0);
    playing.add_turret(turret_at_100_100());
    playing.add_shot(shot_at(Vector::new(300, 84)));
    // wholly inside the turret's outline, touching none of its edges
    playing.add_shot(shot_at(Vector::new(98, 92)));
    playing.check_collisions();
    assert!(playing.turrets()[0].is_alive());
    assert!(playing.shots()[0].is_alive());
    assert!(playing.shots()[1].is_alive());
    assert_eq!(playing.score(), 0);
    playing.reap();
    assert_eq!(playing.turrets().len(), 1);
    assert_eq!(playing.shots().len(), 2);
}

#[test]
fn shot_kills_rocket_for_200_and_bombs_score_too() {
    let mut playing = Playing::new(1000);
    playing.add_rocket(rocket_at(Vector::new(500, 500)));
    playing.add_shot(shot_at(Vector::new(494, 500)));
    playing.add_turret(turret_at_100_100());
    playing.add_bomb(bomb_at(Vector::new(100, 84)));
    playing.add_bomb(bomb_at(Vector::new(900, 84)));
    playing.collide_shots();
    assert!(playing.rockets()[0].is_dead());
    assert!(playing.shots()[0].is_dead());
    assert!(playing.turrets()[0].is_dead());
    assert!(playing.bombs()[0].is_dead());
    assert!(playing.bombs()[1].is_alive());
    assert_eq!(playing.score(), 350);
    assert_eq!(playing.high_score(), 1000);
    playing.reap();
    assert_eq!(playing.bombs().len(), 1);
    assert_eq!(playing.bombs()[0].world_pos(), Vector::new(900, 84));
}

#[test]
fn every_colliding_pair_scores() {
    let mut playing = Playing::new(0);
    playing.add_turret(turret_at_100_100());
    playing.add_shot(shot_at(Vector::new(100, 84)));
    playing.add_shot(shot_at(Vector::new(92, 84)));
    playing.check_collisions();
    assert_eq!(playing.score(), 300);
    assert_eq!(playing.high_score(), 300);
}

#[test]
fn the_high_score_follows_the_score_only_past_it() {
    let mut playing = Playing::new(200);
    playing.add_turret(turret_at_100_100());
    playing.add_shot(shot_at(Vector::new(100, 84)));
    playing.check_collisions();
    assert_eq!(playing.score(), 150);
    assert_eq!(playing.high_score(), 200);
    playing.reap();
    playing.add_turret(turret_at_100_100());
    playing.add_shot(shot_at(Vector::new(100, 84)));
    playing.check_collisions();
    assert_eq!(playing.score(), 300);
    assert_eq!(playing.high_score(), 300);
}

#[test]
fn a_shot_dies_on_the_terrain_without_score() {
    let mut playing = Playing::new(0);
    // one tick of the terrain builds its outline
    playing.grow();
    playing.add_shot(shot_at(Vector::new(640, 673)));
    playing.add_shot(shot_at(Vector::new(640, 300)));
    playing.collide_shots();
    assert!(playing.shots()[0].is_dead());
    assert!(playing.shots()[1].is_alive());
    assert_eq!(playing.score(), 0);
}

#[test]
fn player_amnesty() {
    let mut playing = Playing::new(0);
    // The ship takes its place at (324, 180) and builds its outline.
    let done = playing.steer(idle());
    assert_eq!(done, (false, false));
    assert_eq!(playing.player().world_pos(), Vector::new(324, 180));
    assert_eq!(playing.camera().pos, Vector::new(4, 0));
    playing.add_rocket(rocket_at(Vector::new(324, 180)));
    playing.check_collisions();
    assert_eq!(playing.lives(), 2);
    assert!(playing.player().is_dead());
    assert!(playing.rockets()[0].is_dead());
    assert!(playing.is_amnesty());
    assert_eq!(playing.amnesty(), 240);
    assert_eq!(playing.score(), 0);
    playing.reap();
    assert!(playing.rockets().is_empty());

    for _ in 0..239 {
        let report = playing.update(idle());
        assert_eq!(report.outcome, Outcome::Continue);
        assert!(playing.player().is_dead());
        assert!(playing.is_amnesty());
        assert!(playing.turrets().is_empty());
        assert!(playing.rockets().is_empty());
        assert!(playing.turret_shots().is_empty());
        assert_eq!(playing.landscape().len(), 82);
        assert_eq!(playing.camera().pos, Vector::new(4, 0));
        assert_eq!(playing.lives(), 2);
    }
    assert_eq!(playing.amnesty(), 1);
    let report = playing.update(idle());
    assert_eq!(report.outcome, Outcome::Continue);
    assert!(!playing.is_amnesty());
    assert!(playing.player().is_alive());
    assert_eq!(playing.lives(), 2);
    assert_eq!(playing.player().world_pos(), Vector::new(324, 180));
    assert_eq!(playing.camera().pos, Vector::new(4, 0));
}

#[test]
fn nothing_is_placed_while_the_ship_waits() {
    let mut playing = Playing::new(0);
    playing.steer(idle());
    playing.add_rocket(rocket_at(Vector::new(324, 180)));
    playing.check_collisions();
    playing.reap();
    assert!(playing.is_amnesty());
    let line = Segment::new(Vector::new(1328, 675), Vector::new(1344, 675));
    playing.place_enemy(LandscapeAction::MakeTurret(line));
    playing.place_enemy(LandscapeAction::MakeRocket(line));
    assert!(playing.turrets().is_empty());
    assert!(playing.rockets().is_empty());
}

#[test]
fn enemies_are_placed_on_the_segment_that_asks() {
    let mut playing = Playing::new(0);
    let line = Segment::new(Vector::new(1328, 675), Vector::new(1344, 675));
    playing.place_enemy(LandscapeAction::Idle);
    playing.place_enemy(LandscapeAction::MakeTurret(line));
    playing.place_enemy(LandscapeAction::MakeRocket(line));
    assert_eq!(playing.turrets().len(), 1);
    assert_eq!(playing.turrets()[0].world_pos(), Vector::new(1336, 675));
    assert_eq!(playing.turrets()[0].angle(), 180);
    assert_eq!(playing.rockets().len(), 1);
    assert_eq!(playing.rockets()[0].world_pos(), Vector::new(1336, 659));
    assert_eq!(playing.rockets()[0].angle(), 360);
    assert!(playing.rockets()[0].is_alive());
}

#[test]
fn the_last_life_ends_the_session_after_the_wait() {
    let mut playing = Playing::new(90);
    for life in 0..3 {
        if life == 0 {
            playing.steer(idle());
        }
        assert!(playing.player().is_alive());
        playing.add_rocket(rocket_at(playing.player().world_pos()));
        playing.check_collisions();
        playing.reap();
        assert_eq!(playing.lives(), 2 - life);
        let mut last = Outcome::Continue;
        for _ in 0..240 {
            assert_eq!(last, Outcome::Continue);
            last = playing.update(idle()).outcome;
        }
        if life < 2 {
            assert_eq!(last, Outcome::Continue);
        } else {
            assert_eq!(last, Outcome::GameOver(0, 90));
            assert!(playing.player().is_dead());
            assert_eq!(playing.lives(), 0);
        }
    }
    // lives never go below zero
    assert_eq!(playing.update(idle()).outcome, Outcome::GameOver(0, 90));
    assert_eq!(playing.lives(), 0);
}

#[test]
fn quitting_carries_the_high_score() {
    let mut playing = Playing::new(1234);
    let quit = InputSample { quit: true, ..InputSample::idle() };
    assert_eq!(playing.update(quit).outcome, Outcome::Quit(1234));
    assert_eq!(playing.outcome(false), Outcome::Continue);
    assert_eq!(playing.outcome(true), Outcome::Quit(1234));
}

#[test]
fn firing_and_bombing() {
    let mut playing = Playing::new(0);
    let press = InputSample { fire: true, bomb: true, dx: 1, ..InputSample::idle() };
    let report = playing.update(press);
    assert!(report.fired);
    assert!(report.bombed);
    assert_eq!(playing.player().world_pos(), Vector::new(326, 180));
    assert_eq!(playing.shots().len(), 1);
    assert_eq!(playing.shots()[0].velocity(), Vector::new(12, 0));
    // spawned at the ship, then flown for this tick
    assert_eq!(playing.shots()[0].world_pos(), Vector::new(338, 180));
    assert_eq!(playing.bombs().len(), 1);
    assert_eq!(playing.bombs()[0].world_pos(), Vector::new(331, 184));
    assert_eq!(playing.bomb_cooldown(), 20);
    let report = playing.update(press);
    assert!(report.fired);
    assert!(!report.bombed);
    assert_eq!(playing.shots().len(), 2);
    assert_eq!(playing.bombs().len(), 1);
    assert_eq!(playing.bomb_cooldown(), 19);
    for _ in 0..19 {
        playing.update(idle());
    }
    assert_eq!(playing.bomb_cooldown(), 0);
    assert!(playing.update(press).bombed);
    assert_eq!(playing.bombs().len(), 2);
}

#[test]
fn the_camera_scrolls_four_units_a_tick_and_carries_the_ship() {
    let mut playing = Playing::new(0);
    for tick in 1..=100 {
        playing.update(idle());
        assert_eq!(playing.camera().pos, Vector::new(4 * tick, 0));
        assert_eq!(playing.player().world_pos(), Vector::new(320 + 4 * tick, 180));
    }
}

#[test]
fn score_never_decreases_and_no_dead_remain_over_a_long_session() {
    let mut playing = Playing::new(10);
    let mut last_score = 0;
    let mut last_lives = 3;
    for tick in 0..6000 {
        let input = InputSample {
            quit: false,
            fire: tick % 7 == 0,
            bomb: tick % 31 == 0,
            dx: (tick / 50) % 3 - 1,
            dy: (tick / 90) % 3 - 1,
        };
        let report = playing.update(input);
        assert!(playing.score() >= last_score);
        assert!(playing.high_score() >= playing.score());
        assert!(playing.high_score() >= 10);
        assert!(playing.lives() <= last_lives);
        assert!(playing.lives() >= 0);
        last_score = playing.score();
        last_lives = playing.lives();
        assert!(playing.shots().iter().all(|e| e.is_alive()));
        assert!(playing.bombs().iter().all(|e| e.is_alive()));
        assert!(playing.rockets().iter().all(|e| e.is_alive()));
        assert!(playing.turrets().iter().all(|e| e.is_alive()));
        assert!(playing.turret_shots().iter().all(|e| e.is_alive()));
        let landscape = playing.landscape();
        assert!(landscape.len() >= 1);
        for i in 1..landscape.len() {
            assert_eq!(landscape.segment(i - 1).b, landscape.segment(i).a);
        }
        if let Outcome::GameOver(score, high) = report.outcome {
            assert_eq!(score, playing.score());
            assert_eq!(high, playing.high_score());
            assert_eq!(playing.lives(), 0);
            break;
        }
    }
}

#[test]
fn terrain_draws_are_plain_values() {
    let draws = TerrainDraws { shape: 1, rise: 2, spawn: 3 };
    assert_eq!(draws, TerrainDraws { shape: 1, rise: 2, spawn: 3 });
}

#[test]
fn the_dead_stay_in_place_until_the_tick_is_concluded() {
    let mut playing = Playing::new(0);
    // A shot about to leave the playfield, and one that stays.
    let assets = CollisionAssets::new();
    playing.add_shot(Shot::new(assets.shot(), Vector::new(1330, 100), Vector::new(4, 0), 90));
    playing.add_shot(Shot::new(assets.shot(), Vector::new(400, 100), Vector::new(4, 0), 90));
    let done = playing.simulate(idle());
    assert_eq!(done, (false, false));
    assert_eq!(playing.shots().len(), 2);
    assert!(playing.shots()[0].is_dead());
    assert_eq!(playing.shots()[0].world_pos(), Vector::new(1342, 100));
    assert!(playing.shots()[1].is_alive());
    let outcome = playing.conclude(false);
    assert_eq!(outcome, Outcome::Continue);
    assert_eq!(playing.shots().len(), 1);
    assert_eq!(playing.shots()[0].world_pos(), Vector::new(412, 100));
}

#[test]
fn a_tick_in_one_call_is_the_two_halves() {
    let mut whole = Playing::new(0);
    let mut halves = Playing::new(0);
    let press = InputSample { fire: true, dy: 1, ..InputSample::idle() };
    for _ in 0..50 {
        let report = whole.update(press);
        let done = halves.simulate(press);
        let outcome = halves.conclude(press.quit);
        assert_eq!(report.outcome, outcome);
        assert_eq!((report.fired, report.bombed), done);
        assert_eq!(whole.player().world_pos(), halves.player().world_pos());
        assert_eq!(whole.camera().pos, halves.camera().pos);
        assert_eq!(whole.shots().len(), halves.shots().len());
        assert_eq!(whole.score(), halves.score());
    }
}
