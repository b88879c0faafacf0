use line_shooter::camera::Camera;
use line_shooter::collision_lines::Collidable;
use line_shooter::geometry::{Segment, Vector};
use line_shooter::landscape::{height_in_range, Landscape, LandscapeAction, TerrainDraws};

fn seg(ax: i32, ay: i32, bx: i32, by: i32) -> Segment {
    Segment::new(Vector::new(ax, ay), Vector::new(bx, by))
}

fn camera_at(x: i32) -> Camera {
    Camera::new(Vector::new(x, 0))
}

fn level() -> TerrainDraws {
    TerrainDraws { shape: 0, rise: 0, spawn: 30 }
}

fn assert_ribbon(landscape: &Landscape) {
    assert!(landscape.len() >= 1);
    for i in 1..landscape.len() {
        assert_eq!(landscape.segment(i - 1).b, landscape.segment(i).a);
    }
}

fn tip(landscape: &Landscape) -> Vector {
    landscape.segment(landscape.len() - 1).b
}

#[test]
fn new_terrain_is_level_ground_one_step_past_the_view() {
    let landscape = Landscape::new();
    assert_eq!(landscape.len(), 82);
    assert_eq!(landscape.segment(0), seg(0, 675, 0, 675));
    assert_eq!(landscape.segment(1), seg(0, 675, 16, 675));
    assert_eq!(landscape.segment(81), seg(1280, 675, 1296, 675));
    assert_ribbon(&landscape);
    assert_eq!(landscape.collision_lines().len(), 0);
}

#[test]
fn terrain_rests_while_its_tip_is_a_step_ahead() {
    let mut landscape = Landscape::new();
    let action = landscape.update_with(&camera_at(0), level());
    assert_eq!(action, LandscapeAction::Idle);
    assert_eq!(landscape.len(), 82);
    // The outline is rebuilt from the segments as they stand.
    assert_eq!(landscape.collision_lines().len(), 82);
    assert_eq!(landscape.collision_lines().segment(81), seg(1280, 675, 1296, 675));
}

#[test]
fn terrain_grows_by_the_drawn_rise() {
    let mut landscape = Landscape::new();
    let draws = TerrainDraws { shape: 25, rise: -100, spawn: 99 };
    let action = landscape.update_with(&camera_at(1), draws);
    assert_eq!(action, LandscapeAction::Idle);
    // The first segment ends behind the camera and is dropped.
    assert_eq!(landscape.len(), 82);
    assert_eq!(landscape.segment(0), seg(0, 675, 16, 675));
    assert_eq!(landscape.segment(81), seg(1296, 675, 1312, 575));
    assert_ribbon(&landscape);
}

#[test]
fn a_rise_out_of_range_leaves_the_ground_level() {
    let mut landscape = Landscape::new();
    let draws = TerrainDraws { shape: 99, rise: 100, spawn: 0 };
    landscape.update_with(&camera_at(4), draws);
    assert_eq!(tip(&landscape), Vector::new(1312, 675));
    let draws = TerrainDraws { shape: 99, rise: 37, spawn: 0 };
    landscape.update_with(&camera_at(20), draws);
    assert_eq!(tip(&landscape), Vector::new(1328, 712));
    assert!(height_in_range(675, 37));
    assert!(!height_in_range(675, 38));
    assert!(height_in_range(180, 0));
    assert!(!height_in_range(180, -1));
}

#[test]
fn a_level_run_asks_for_an_enemy_on_its_third_segment() {
    let mut landscape = Landscape::new();
    let mut x = 4;
    // shape below 25 begins a level run of five segments
    let begin = TerrainDraws { shape: 24, rise: -50, spawn: 99 };
    assert_eq!(landscape.update_with(&camera_at(x), begin), LandscapeAction::Idle);
    assert_eq!(tip(&landscape), Vector::new(1312, 675));
    x += 16;
    // within the run the shape draw is not asked
    let turret = TerrainDraws { shape: 99, rise: -50, spawn: 50 };
    assert_eq!(landscape.update_with(&camera_at(x), turret), LandscapeAction::Idle);
    x += 16;
    assert_eq!(
        landscape.update_with(&camera_at(x), turret),
        LandscapeAction::MakeTurret(seg(1328, 675, 1344, 675))
    );
    x += 16;
    assert_eq!(landscape.update_with(&camera_at(x), turret), LandscapeAction::Idle);
    x += 16;
    assert_eq!(landscape.update_with(&camera_at(x), turret), LandscapeAction::Idle);
    assert_eq!(tip(&landscape), Vector::new(1376, 675));
    x += 16;
    // the run is over: the ground may rise again
    assert_eq!(landscape.update_with(&camera_at(x), turret), LandscapeAction::Idle);
    assert_eq!(tip(&landscape), Vector::new(1392, 625));
    assert_ribbon(&landscape);
}

#[test]
fn the_spawn_draw_picks_turret_rocket_or_nothing() {
    for (spawn, kind) in [(0, 2), (24, 2), (25, 0), (49, 0), (50, 1), (99, 1)] {
        let mut landscape = Landscape::new();
        let draws = TerrainDraws { shape: 0, rise: 0, spawn };
        let mut x = 4;
        landscape.update_with(&camera_at(x), draws);
        x += 16;
        landscape.update_with(&camera_at(x), draws);
        x += 16;
        let action = landscape.update_with(&camera_at(x), draws);
        let line = seg(1328, 675, 1344, 675);
        let expected = match kind {
            1 => LandscapeAction::MakeTurret(line),
            2 => LandscapeAction::MakeRocket(line),
            _ => LandscapeAction::Idle,
        };
        assert_eq!(action, expected);
    }
}

#[test]
fn terrain_scrolls_and_is_cut_off_behind_the_camera() {
    let mut landscape = Landscape::new();
    let mut x = 0;
    while x < 2000 {
        x += 4;
        landscape.update(&camera_at(x));
        assert_ribbon(&landscape);
        assert!(tip(&landscape).x >= x + 1280 + 16);
    }
    assert_eq!(x, 2000);
    for i in 0..landscape.len() {
        assert!(landscape.segment(i).b.x >= 2000);
        let y = landscape.segment(i).b.y;
        assert!((180..=712).contains(&y));
        assert_eq!(landscape.segment(i).b.x - landscape.segment(i).a.x, 16);
    }
    assert!(tip(&landscape).x >= 2000 + 1280);
    assert_eq!(landscape.collision_lines().len(), landscape.len());
}

#[test]
fn terrain_scrolls_the_same_on_given_draws() {
    let mut landscape = Landscape::new();
    let mut x = 0;
    while x < 2000 {
        x += 4;
        landscape.update_with(&camera_at(x), level());
    }
    assert_eq!(landscape.segment(0), seg(1984, 675, 2000, 675));
    assert_eq!(tip(&landscape), Vector::new(3296, 675));
    assert_eq!(landscape.len(), 82);
}

#[test]
fn a_far_jump_of_the_camera_never_empties_the_terrain() {
    let mut landscape = Landscape::new();
    for _ in 0..200 {
        landscape.update(&camera_at(1_000_000));
        assert_ribbon(&landscape);
    }
    assert_eq!(landscape.len(), 82);
    let mut edge = Landscape::new();
    for _ in 0..200 {
        edge.update(&camera_at(i32::MAX));
        assert_ribbon(&edge);
    }
}
