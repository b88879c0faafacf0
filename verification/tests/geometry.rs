use line_shooter::geometry::{
    cosine_of, segments_intersect, sine_of, transform_segment, Segment, Transform, Vector, UNIT,
};

fn seg(ax: i32, ay: i32, bx: i32, by: i32) -> Segment {
    Segment::new(Vector::new(ax, ay), Vector::new(bx, by))
}

#[test]
fn crossing_segments_intersect() {
    assert!(segments_intersect(seg(0, 0, 10, 10), seg(0, 10, 10, 0)));
}

#[test]
fn distant_segments_do_not_intersect() {
    assert!(!segments_intersect(seg(0, 0, 10, 10), seg(20, 0, 30, 10)));
    assert!(!segments_intersect(seg(0, 0, 10, 0), seg(0, 1, 10, 1)));
}

#[test]
fn touching_ends_intersect() {
    assert!(segments_intersect(seg(0, 0, 10, 0), seg(10, 0, 20, 5)));
    assert!(segments_intersect(seg(0, 0, 10, 0), seg(5, 0, 5, 9)));
}

#[test]
fn collinear_overlap_intersects_and_collinear_gap_does_not() {
    assert!(segments_intersect(seg(0, 0, 10, 0), seg(5, 0, 15, 0)));
    assert!(!segments_intersect(seg(0, 0, 10, 0), seg(11, 0, 15, 0)));
}

#[test]
fn a_point_meets_the_segment_it_lies_on() {
    assert!(segments_intersect(seg(3, 3, 3, 3), seg(0, 0, 6, 6)));
    assert!(!segments_intersect(seg(3, 4, 3, 4), seg(0, 0, 6, 6)));
}

#[test]
fn intersection_is_symmetric_on_a_grid_of_segments() {
    let mut all: Vec<Segment> = Vec::new();
    for ax in -2..3 {
        for by in -2..3 {
            all.push(seg(ax, 0, 1, by));
            all.push(seg(0, ax, by, ax));
        }
    }
    for s in all.iter() {
        for t in all.iter() {
            assert_eq!(segments_intersect(*s, *t), segments_intersect(*t, *s));
        }
    }
}

#[test]
fn intersection_holds_at_the_edges_of_the_grid() {
    let a = seg(i32::MIN, i32::MIN, i32::MAX, i32::MAX);
    let b = seg(i32::MIN, i32::MAX, i32::MAX, i32::MIN);
    assert!(segments_intersect(a, b));
    let c = seg(i32::MIN, i32::MIN, i32::MIN, i32::MAX);
    let d = seg(i32::MAX, i32::MIN, i32::MAX, i32::MAX);
    assert!(!segments_intersect(c, d));
}

#[test]
fn sines_of_whole_degrees() {
    assert_eq!(sine_of(0), 0);
    assert_eq!(sine_of(30), 2048);
    assert_eq!(sine_of(90), UNIT);
    assert_eq!(sine_of(150), 2048);
    assert_eq!(sine_of(180), 0);
    assert_eq!(sine_of(270), -UNIT);
    assert_eq!(sine_of(-90), -UNIT);
    assert_eq!(sine_of(360 + 30), 2048);
    assert_eq!(sine_of(45), 2896);
    assert_eq!(cosine_of(0), UNIT);
    assert_eq!(cosine_of(60), 2048);
    assert_eq!(cosine_of(90), 0);
    assert_eq!(cosine_of(180), -UNIT);
    assert_eq!(cosine_of(i32::MAX), cosine_of(i32::MAX % 360));
    assert_eq!(sine_of(i32::MIN), sine_of(i32::MIN % 360 + 360));
}

#[test]
fn quarter_turn_takes_up_to_right() {
    let t = Transform::rotate(90);
    assert_eq!(t.apply(Vector::new(0, -8)), Vector::new(8, 0));
    assert_eq!(t.apply(Vector::new(8, 0)), Vector::new(0, 8));
}

#[test]
fn place_rotates_then_translates() {
    let t = Transform::place(Vector::new(100, 200), 180);
    assert_eq!(t.apply(Vector::new(3, 4)), Vector::new(97, 196));
    let s = transform_segment(t, seg(0, 0, 16, 24));
    assert_eq!(s, seg(100, 200, 84, 176));
}

#[test]
fn rotation_rounds_to_the_nearest_point() {
    let t = Transform::rotate(45);
    // 10 * cos 45 = 7.07
    assert_eq!(t.apply(Vector::new(10, 0)), Vector::new(7, 7));
    assert_eq!(t.apply(Vector::new(0, 10)), Vector::new(-7, 7));
}

#[test]
fn identity_and_translation() {
    let s = seg(-5, 7, 9, -11);
    assert_eq!(transform_segment(Transform::identity(), s), s);
    let t = Transform::translate(Vector::new(10, -10));
    assert_eq!(transform_segment(t, s), seg(5, -3, 19, -21));
}

#[test]
fn transform_saturates_at_the_edge_of_the_grid() {
    let t = Transform::translate(Vector::new(i32::MAX, i32::MIN));
    assert_eq!(t.apply(Vector::new(10, -10)), Vector::new(i32::MAX, i32::MIN));
    assert_eq!(
        Vector::new(i32::MAX, 0).translate(Vector::new(1, -1)),
        Vector::new(i32::MAX, -1)
    );
}

#[test]
fn quarter_turn_transform_round_trips() {
    for degrees in [0, 90, 180, 270, -90] {
        let t = Transform::place(Vector::new(37, -12), degrees);
        let back = t.inverse();
        for s in [seg(0, 0, 5, 9), seg(-4, 4, 4, 4), seg(100, -100, -7, 3)] {
            assert_eq!(transform_segment(back, transform_segment(t, s)), s);
        }
    }
}

#[test]
fn any_rotation_round_trips_within_two_units() {
    for degrees in (0..360).step_by(7) {
        let t = Transform::place(Vector::new(50, -60), degrees);
        let back = t.inverse();
        for p in [
            Vector::new(12, -9),
            Vector::new(2048, 2048),
            Vector::new(-2048, 2047),
            Vector::new(-1, 1),
            Vector::new(0, 0),
        ] {
            let q = back.apply(t.apply(p));
            assert!((q.x - p.x).abs() <= 2 && (q.y - p.y).abs() <= 2);
        }
        let unit = (t.cos as i64) * (t.cos as i64) + (t.sin as i64) * (t.sin as i64);
        assert!((unit - 4096 * 4096).abs() <= 8192);
    }
}

#[test]
fn segment_center_rounds_down() {
    assert_eq!(seg(0, 675, 16, 675).center(), Vector::new(8, 675));
    assert_eq!(seg(-3, 1, 0, 2).center(), Vector::new(-2, 1));
}
