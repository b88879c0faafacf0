use line_shooter::bomb::{control_bombs, Bomb};
use line_shooter::camera::{Camera, Rectangle};
use line_shooter::collision_assets::CollisionAssets;
use line_shooter::collision_lines::Collidable;
use line_shooter::geometry::{Segment, Vector};
use line_shooter::health::{Alive, Killable};
use line_shooter::input::{axis, InputSample};
use line_shooter::player::Player;
use line_shooter::rocket::{control_rockets, Rocket};
use line_shooter::shot::{control_shots, Shot};
use line_shooter::turret::{control_turrets, Turret, TurretAction};
use line_shooter::world_pos::WorldPos;

fn seg(ax: i32, ay: i32, bx: i32, by: i32) -> Segment {
    Segment::new(Vector::new(ax, ay), Vector::new(bx, by))
}

fn playfield() -> Rectangle {
    Camera::new(Vector::new(0, 0)).playfield()
}

#[test]
fn playfield_is_the_view_with_its_margins() {
    let field = Camera::new(Vector::new(100, 0)).playfield();
    assert_eq!(field, Rectangle::new(Vector::new(84, -16), Vector::new(1344, 752)));
    assert!(field.contains(Vector::new(84, -16)));
    assert!(!field.contains(Vector::new(83, 0)));
    assert!(field.contains(Vector::new(1427, 735)));
    assert!(!field.contains(Vector::new(1428, 0)));
    assert!(!field.contains(Vector::new(100, 736)));
}

#[test]
fn rectangle_clamp_brings_a_point_inside() {
    let r = Rectangle::new(Vector::new(10, 20), Vector::new(100, 50));
    assert_eq!(r.clamp(Vector::new(0, 0)), Vector::new(10, 20));
    assert_eq!(r.clamp(Vector::new(500, 500)), Vector::new(110, 70));
    assert_eq!(r.clamp(Vector::new(50, 30)), Vector::new(50, 30));
    assert_eq!(r.translate(Vector::new(4, 0)), Rectangle::new(Vector::new(14, 20), Vector::new(100, 50)));
}

#[test]
fn camera_advances_by_what_it_is_given() {
    let mut camera = Camera::new(Vector::new(0, 0));
    camera.advance(Vector::new(4, 0));
    camera.advance(Vector::new(4, 0));
    assert_eq!(camera.pos, Vector::new(8, 0));
}

#[test]
fn a_new_shot_is_alive_without_outline_and_flies_along_its_barrel() {
    let assets = CollisionAssets::new();
    let shot = Shot::new(assets.shot(), Vector::new(50, 60), Vector::new(4, 0), 90);
    assert!(shot.is_alive());
    assert_eq!(shot.collision_lines().len(), 0);
    assert_eq!(shot.world_pos(), Vector::new(50, 60));
    assert_eq!(shot.angle(), 90);
    assert_eq!(shot.velocity(), Vector::new(12, 0));
    let up = Shot::new(assets.shot(), Vector::new(0, 0), Vector::new(0, 0), 360);
    assert_eq!(up.velocity(), Vector::new(0, -8));
}

#[test]
fn a_shot_moves_and_rebuilds_its_outline() {
    let assets = CollisionAssets::new();
    let mut shot = Shot::new(assets.shot(), Vector::new(50, 60), Vector::new(4, 0), 90);
    shot.control(&playfield());
    assert_eq!(shot.world_pos(), Vector::new(62, 60));
    assert!(shot.is_alive());
    assert_eq!(shot.collision_lines().len(), 4);
    assert_eq!(shot.collision_lines().segment(3), seg(62, 60, 70, 60));
    shot.control(&playfield());
    assert_eq!(shot.collision_lines().len(), 4);
    assert_eq!(shot.collision_lines().segment(3), seg(74, 60, 82, 60));
}

#[test]
fn a_shot_that_leaves_the_playfield_dies_without_any_collision() {
    let assets = CollisionAssets::new();
    let mut shot = Shot::new(assets.shot(), Vector::new(1310, 100), Vector::new(4, 0), 90);
    shot.control(&playfield());
    assert_eq!(shot.world_pos(), Vector::new(1322, 100));
    assert!(shot.is_alive());
    shot.control(&playfield());
    assert_eq!(shot.world_pos(), Vector::new(1334, 100));
    assert!(shot.is_dead());
    shot.control(&Rectangle::new(Vector::new(0, 0), Vector::new(5000, 5000)));
    assert!(shot.is_dead());
}

#[test]
fn shots_are_controlled_one_by_one() {
    let assets = CollisionAssets::new();
    let mut shots = vec![
        Shot::new(assets.shot(), Vector::new(0, 0), Vector::new(4, 0), 90),
        Shot::new(assets.shot(), Vector::new(1320, 0), Vector::new(4, 0), 90),
    ];
    control_shots(&mut shots, &playfield());
    assert_eq!(shots[0].world_pos(), Vector::new(12, 0));
    assert!(shots[0].is_alive());
    assert_eq!(shots[1].world_pos(), Vector::new(1332, 0));
    assert!(shots[1].is_dead());
}

#[test]
fn a_bomb_falls_forward_and_tumbles_to_180() {
    let assets = CollisionAssets::new();
    let mut bomb = Bomb::new(assets.bomb(), Vector::new(100, 100), Vector::new(5, 0));
    assert_eq!(bomb.velocity(), Vector::new(5, 4));
    assert_eq!(bomb.angle(), 90);
    bomb.control(&playfield());
    assert_eq!(bomb.world_pos(), Vector::new(105, 104));
    assert_eq!(bomb.angle(), 91);
    assert_eq!(bomb.collision_lines().len(), 6);
    let wide = Rectangle::new(Vector::new(-100000, -100000), Vector::new(200000, 200000));
    let mut last = 91;
    for _ in 0..200 {
        bomb.control(&wide);
        assert!(bomb.angle() >= last);
        last = bomb.angle();
    }
    assert_eq!(bomb.angle(), 180);
    assert!(bomb.is_alive());
    let mut bombs = vec![bomb];
    control_bombs(&mut bombs, &playfield());
    assert!(bombs[0].is_dead());
}

#[test]
fn a_turret_fires_on_a_low_draw() {
    let assets = CollisionAssets::new();
    let mut turret = Turret::new(assets.turret(), Vector::new(100, 100), 180);
    assert_eq!(turret.control_with(&playfield(), 10), TurretAction::Idle);
    assert_eq!(
        turret.control_with(&playfield(), 9),
        TurretAction::MakeShot(Vector::new(100, 100), 180)
    );
    assert!(turret.is_alive());
    assert_eq!(turret.collision_lines().len(), 7);
    assert_eq!(turret.collision_lines().segment(0), seg(116, 100, 84, 100));
    assert_eq!(turret.collision_lines().segment(3), seg(104, 84, 100, 76));
}

#[test]
fn a_turret_left_behind_dies_and_holds_its_fire() {
    let assets = CollisionAssets::new();
    let mut turret = Turret::new(assets.turret(), Vector::new(100, 100), 180);
    let field = Camera::new(Vector::new(200, 0)).playfield();
    assert_eq!(turret.control_with(&field, 0), TurretAction::Idle);
    assert!(turret.is_dead());
}

#[test]
fn a_turret_fires_sometimes_and_not_always() {
    let assets = CollisionAssets::new();
    let mut turret = Turret::new(assets.turret(), Vector::new(100, 100), 180);
    let mut fired = 0;
    let mut idle = 0;
    for _ in 0..20000 {
        match turret.control(&playfield()) {
            TurretAction::MakeShot(pos, angle) => {
                assert_eq!(pos, Vector::new(100, 100));
                assert_eq!(angle, 180);
                fired += 1;
            }
            TurretAction::Idle => idle += 1,
        }
    }
    assert!(fired > 0);
    assert!(idle > fired);
}

#[test]
fn turrets_add_their_shots_unless_they_must_hold_fire() {
    let assets = CollisionAssets::new();
    let mut turrets = vec![Turret::new(assets.turret(), Vector::new(100, 100), 180)];
    let mut shots: Vec<Shot> = Vec::new();
    for _ in 0..5000 {
        control_turrets(&mut turrets, &playfield(), &mut shots, &assets.shot(), false);
    }
    assert!(shots.is_empty());
    for _ in 0..20000 {
        control_turrets(&mut turrets, &playfield(), &mut shots, &assets.shot(), true);
    }
    assert!(!shots.is_empty());
    for shot in shots.iter() {
        assert_eq!(shot.world_pos(), Vector::new(100, 92));
        assert_eq!(shot.angle(), 360);
        assert_eq!(shot.velocity(), Vector::new(0, -8));
        assert!(shot.is_alive());
    }
}

#[test]
fn a_rocket_waits_until_a_low_draw_launches_it() {
    let assets = CollisionAssets::new();
    let mut rocket = Rocket::new(assets.rocket(), Vector::new(200, 600), 360);
    assert_eq!(rocket.velocity(), Vector::new(0, 0));
    rocket.control_with(&playfield(), 5);
    assert_eq!(rocket.world_pos(), Vector::new(200, 600));
    assert_eq!(rocket.collision_lines().len(), 4);
    assert_eq!(rocket.collision_lines().segment(0), seg(188, 616, 200, 568));
    rocket.control_with(&playfield(), 4);
    assert_eq!(rocket.velocity(), Vector::new(0, -4));
    assert_eq!(rocket.world_pos(), Vector::new(200, 596));
    rocket.control_with(&playfield(), 999);
    assert_eq!(rocket.world_pos(), Vector::new(200, 592));
    assert!(rocket.is_alive());
    for _ in 0..200 {
        rocket.control_with(&playfield(), 999);
    }
    assert!(rocket.is_dead());
}

#[test]
fn rockets_launch_sometimes_and_not_at_once() {
    let assets = CollisionAssets::new();
    let wide = Rectangle::new(Vector::new(-1000000, -1000000), Vector::new(2000000, 2000000));
    let mut rockets: Vec<Rocket> = Vec::new();
    for i in 0..50 {
        rockets.push(Rocket::new(assets.rocket(), Vector::new(i * 10, 0), 360));
    }
    control_rockets(&mut rockets, &wide);
    let launched = rockets.iter().filter(|r| r.velocity() != Vector::new(0, 0)).count();
    assert!(launched < 50);
    for _ in 0..20000 {
        control_rockets(&mut rockets, &wide);
    }
    assert!(rockets.iter().any(|r| r.velocity() == Vector::new(0, -4)));
    for r in rockets.iter() {
        assert!(r.velocity() == Vector::new(0, 0) || r.velocity() == Vector::new(0, -4));
    }
}

#[test]
fn the_player_is_steered_and_kept_in_bounds() {
    let assets = CollisionAssets::new();
    let mut player = Player::new(assets.player(), Vector::new(320, 180));
    assert_eq!(player.angle(), 90);
    assert_eq!(player.collision_lines().len(), 0);
    player.control(1, -1);
    assert_eq!(player.world_pos(), Vector::new(322, 178));
    assert_eq!(player.velocity(), Vector::new(2, -2));
    assert_eq!(player.collision_lines().len(), 3);
    assert_eq!(player.collision_lines().segment(1), seg(306, 194, 338, 178));
    player.control(0, 0);
    assert_eq!(player.world_pos(), Vector::new(322, 178));
    assert_eq!(player.velocity(), Vector::new(0, 0));
    for _ in 0..200 {
        player.control(-1, -1);
    }
    assert_eq!(player.world_pos(), Vector::new(0, 0));
    for _ in 0..1000 {
        player.control(1, 1);
    }
    assert_eq!(player.world_pos(), Vector::new(853, 720));
    player.advance(Vector::new(4, 0));
    assert_eq!(player.world_pos(), Vector::new(857, 720));
    player.control(1, 0);
    assert_eq!(player.world_pos(), Vector::new(857, 720));
    player.control(-1, 0);
    assert_eq!(player.world_pos(), Vector::new(855, 720));
}

#[test]
fn a_dead_player_does_not_respond() {
    let assets = CollisionAssets::new();
    let mut player = Player::new(assets.player(), Vector::new(320, 180));
    player.kill();
    player.control(1, 1);
    assert_eq!(player.world_pos(), Vector::new(320, 180));
    assert_eq!(player.collision_lines().len(), 0);
    assert!(player.is_dead());
}

#[test]
fn input_axes_read_what_alone_is_held() {
    assert_eq!(axis(true, false), -1);
    assert_eq!(axis(false, true), 1);
    assert_eq!(axis(true, true), 0);
    assert_eq!(axis(false, false), 0);
    let sample = InputSample::from_buttons(false, true, false, true, false, false, true);
    assert_eq!(sample, InputSample { quit: false, fire: true, bomb: false, dx: -1, dy: 1 });
    assert_eq!(InputSample::idle(), InputSample { quit: false, fire: false, bomb: false, dx: 0, dy: 0 });
}
