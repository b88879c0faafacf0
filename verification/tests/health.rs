use line_shooter::collision_assets::CollisionAssets;
use line_shooter::geometry::Vector;
use line_shooter::health::{kill_marked, reap, Alive, Health, Killable, Reapable};
use line_shooter::killable::{Kill, Reap};
use line_shooter::shot::Shot;
use line_shooter::world_pos::WorldPos;

fn shots_at(xs: &[i32]) -> Vec<Shot> {
    let assets = CollisionAssets::new();
    xs.iter()
        .map(|x| Shot::new(assets.shot(), Vector::new(*x, 0), Vector::new(0, 0), 0))
        .collect()
}

fn columns(shots: &Vec<Shot>) -> Vec<i32> {
    shots.iter().map(|s| s.world_pos().x).collect()
}

#[test]
fn health_starts_alive_and_a_kill_is_final() {
    let mut h = Health::new();
    assert!(h.is_alive());
    assert!(!h.is_dead());
    h.kill();
    assert!(h.is_dead());
    assert!(!h.is_alive());
    h.kill();
    assert!(h.is_dead());
}

#[test]
fn reap_removes_the_dead_and_keeps_the_order_of_the_living() {
    let mut shots = shots_at(&[10, 20, 30, 40, 50, 60]);
    shots[0].kill();
    shots[2].kill();
    shots[3].kill();
    reap(&mut shots);
    assert_eq!(columns(&shots), vec![20, 50, 60]);
    assert!(shots.iter().all(|s| s.is_alive()));
}

#[test]
fn reap_of_the_living_changes_nothing_and_of_the_dead_leaves_nothing() {
    let mut shots = shots_at(&[1, 2, 3]);
    Reapable::reap(&mut shots);
    assert_eq!(columns(&shots), vec![1, 2, 3]);
    for s in shots.iter_mut() {
        s.kill();
    }
    Reapable::reap(&mut shots);
    assert!(shots.is_empty());
    let mut none: Vec<Shot> = Vec::new();
    reap(&mut none);
    assert!(none.is_empty());
}

#[test]
fn kill_marked_kills_exactly_the_marked() {
    let mut shots = shots_at(&[1, 2, 3, 4]);
    kill_marked(&mut shots, &vec![false, true, false, true]);
    let dead: Vec<bool> = shots.iter().map(|s| s.is_dead()).collect();
    assert_eq!(dead, vec![false, true, false, true]);
    assert_eq!(columns(&shots), vec![1, 2, 3, 4]);
}

#[test]
fn reap_by_capability_removes_the_dead() {
    let mut flags = vec![Health::new(), Health::new(), Health::new()];
    Kill::kill(&mut flags[1]);
    assert!(Kill::is_dead(&flags[1]));
    assert!(Kill::is_alive(&flags[0]));
    Reap::reap(&mut flags);
    assert_eq!(flags.len(), 2);
    assert!(flags.iter().all(|h| h.is_alive()));
}
