use line_shooter::collision_assets::CollisionAssets;
use line_shooter::collision_lines::{
    any_marked, collide_many_many, collide_many_one, collide_multi, collide_multi_single,
    collide_single_multi, collides_with, mark_also, mark_firsts, mark_seconds, no_marks,
    CollisionLines, CollisionModel,
};
use line_shooter::geometry::{transform_segment, Segment, Transform, Vector};

fn seg(ax: i32, ay: i32, bx: i32, by: i32) -> Segment {
    Segment::new(Vector::new(ax, ay), Vector::new(bx, by))
}

fn square(x: i32, y: i32, side: i32) -> CollisionLines {
    let model = CollisionModel::new(vec![
        seg(0, 0, side, 0),
        seg(side, 0, side, side),
        seg(side, side, 0, side),
        seg(0, side, 0, 0),
    ]);
    let mut lines = CollisionLines::new();
    lines.update(Transform::translate(Vector::new(x, y)), model);
    lines
}

#[test]
fn update_places_each_model_segment_in_order() {
    let segments = vec![seg(-4, 4, 4, 4), seg(4, 4, 0, -4), seg(0, -4, -4, 4)];
    let model = CollisionModel::new(segments.clone());
    let transform = Transform::place(Vector::new(10, 20), 90);
    let mut lines = CollisionLines::new();
    lines.update(transform, model.clone());
    assert_eq!(lines.len(), model.len());
    assert_eq!(lines.len(), 3);
    for i in 0..3 {
        assert_eq!(lines.segment(i), transform_segment(transform, segments[i]));
    }
    assert_eq!(lines.segment(0), seg(6, 16, 6, 24));
}

#[test]
fn update_leaves_nothing_stale() {
    let model = CollisionModel::new(vec![seg(0, 0, 1, 1), seg(1, 1, 2, 0)]);
    let mut lines = CollisionLines::new();
    lines.update(Transform::identity(), model.clone());
    lines.update(Transform::translate(Vector::new(5, 5)), model.clone());
    assert_eq!(lines.len(), 2);
    assert_eq!(lines.segment(0), seg(5, 5, 6, 6));
    assert_eq!(lines.segment(1), seg(6, 6, 7, 5));
}

#[test]
fn add_model_and_add_lines_append() {
    let model = CollisionModel::new(vec![seg(0, 0, 1, 1)]);
    let mut lines = CollisionLines::new();
    assert_eq!(lines.len(), 0);
    lines.add_model(model.clone(), Transform::identity());
    lines.add_model(model, Transform::translate(Vector::new(2, 0)));
    lines.add_lines(Transform::translate(Vector::new(0, 3)), &vec![seg(1, 1, 2, 2)]);
    assert_eq!(lines.len(), 3);
    assert_eq!(lines.segment(0), seg(0, 0, 1, 1));
    assert_eq!(lines.segment(1), seg(2, 0, 3, 1));
    assert_eq!(lines.segment(2), seg(1, 4, 2, 5));
    lines.clear();
    assert_eq!(lines.len(), 0);
}

#[test]
fn a_shared_model_is_the_same_model() {
    let assets = CollisionAssets::new();
    let shot = assets.shot();
    let again = assets.shot();
    assert_eq!(shot.len(), 4);
    assert_eq!(again.len(), 4);
    assert_eq!(shot.segment(3), seg(0, 0, 0, -8));
    assert_eq!(again.segment(3), seg(0, 0, 0, -8));
    assert_eq!(assets.bomb().len(), 6);
    assert_eq!(assets.turret().len(), 7);
    assert_eq!(assets.turret().segment(3), seg(-4, 16, 0, 24));
    assert_eq!(assets.player().len(), 3);
    assert_eq!(assets.player().segment(1), seg(16, 16, 0, -16));
    assert_eq!(assets.rocket().len(), 4);
    assert_eq!(assets.rocket().segment(0), seg(-12, 16, 0, -32));
}

#[test]
fn outlines_collide_where_edges_meet() {
    let a = square(0, 0, 10);
    let b = square(5, 5, 10);
    let far = square(100, 100, 10);
    let inside = square(2, 2, 3);
    assert!(collides_with(&a, &b));
    assert!(collides_with(&b, &a));
    assert!(!collides_with(&a, &far));
    // Outlines are edges: one wholly inside another touches none of them.
    assert!(!collides_with(&a, &inside));
    assert!(!collides_with(&a, &CollisionLines::new()));
}

#[test]
fn one_against_many_lists_hits_in_order() {
    let x = square(0, 0, 10);
    let ys = vec![square(100, 0, 5), square(5, 5, 10), square(50, 50, 5), square(-5, -5, 10)];
    assert_eq!(collide_single_multi(&x, &ys), vec![1, 3]);
    assert_eq!(collide_multi_single(&ys, &x), vec![1, 3]);
    assert_eq!(collide_many_one(&ys, &x), vec![false, true, false, true]);
    assert_eq!(collide_single_multi(&x, &Vec::<CollisionLines>::new()), Vec::<usize>::new());
}

#[test]
fn many_against_many_visits_every_pair_once() {
    let xs = vec![square(0, 0, 10), square(200, 200, 10), square(20, 0, 10)];
    let ys = vec![square(5, 5, 10), square(25, 5, 10), square(8, -2, 14)];
    // xs[0] meets ys[0] and ys[2]; xs[2] meets ys[1] and ys[2]; xs[1] meets none.
    assert_eq!(collide_multi(&xs, &ys), vec![(0, 0), (0, 2), (2, 1), (2, 2)]);
    let found = collide_many_many(&xs, &ys);
    assert_eq!(found.firsts, vec![true, false, true]);
    assert_eq!(found.seconds, vec![true, true, true]);
    assert_eq!(found.pairs, 4);
}

#[test]
fn many_against_none_finds_nothing() {
    let xs = vec![square(0, 0, 10)];
    let none: Vec<CollisionLines> = Vec::new();
    let found = collide_many_many(&xs, &none);
    assert_eq!(found.firsts, vec![false]);
    assert_eq!(found.seconds, Vec::<bool>::new());
    assert_eq!(found.pairs, 0);
    assert_eq!(collide_multi(&none, &xs), Vec::<(usize, usize)>::new());
}

#[test]
fn marks_accumulate() {
    let mut marks = no_marks(4);
    assert_eq!(marks, vec![false; 4]);
    assert!(!any_marked(&marks));
    mark_firsts(&mut marks, &vec![(1, 0), (1, 3), (9, 9)]);
    assert_eq!(marks, vec![false, true, false, false]);
    mark_seconds(&mut marks, &vec![(1, 0), (1, 3)]);
    assert_eq!(marks, vec![true, true, false, true]);
    let mut other = no_marks(4);
    mark_also(&mut other, &vec![false, false, true, false]);
    assert_eq!(other, vec![false, false, true, false]);
    assert!(any_marked(&other));
}
