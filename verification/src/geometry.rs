//! Plane geometry on the integer grid: points, segments, rigid transforms in
//! fixed point, and the segment intersection test.

use vstd::prelude::*;

verus! {

/// One in the fixed-point scale in which a rotation's sine and cosine are held.
pub const UNIT: i32 = 4096;

/// A point of the grid, or a displacement between two of them.
#[derive(Clone, Copy, Debug, PartialEq, Eq, Structural)]
pub struct Vector {
    pub x: i32,
    pub y: i32,
}

/// An ordered pair of points: one edge of a polyline.
#[derive(Clone, Copy, Debug, PartialEq, Eq, Structural)]
pub struct Segment {
    pub a: Vector,
    pub b: Vector,
}

/// A rotation about the origin followed by a translation. The rotation is the
/// pair (`cos`, `sin`) over `UNIT`; `shift` is the translation.
#[derive(Clone, Copy, Debug, PartialEq, Eq, Structural)]
pub struct Transform {
    pub cos: i32,
    pub sin: i32,
    pub shift: Vector,
}

/// `n / UNIT` rounded to the nearest integer, halves upwards.
pub open spec fn scaled_down(n: int) -> int {
    (n + 2048) / 4096
}

/// Whether `v` is a coordinate of the grid.
pub open spec fn fits(v: int) -> bool {
    i32::MIN <= v <= i32::MAX
}

/// The coordinate of the grid nearest to `v`: the grid ends at the least and
/// the greatest value of `i32`, and what would lie beyond stays on the edge.
pub open spec fn clamped(v: int) -> i32 {
    if v < i32::MIN {
        i32::MIN
    } else if v > i32::MAX {
        i32::MAX
    } else {
        v as i32
    }
}

/// The coordinate of the grid nearest to `v`.
pub fn clamp_to_grid(v: i64) -> (c: i32)
    ensures
        c == clamped(v as int),
{
    if v < -0x8000_0000 {
        i32::MIN
    } else if v > 0x7fff_ffff {
        i32::MAX
    } else {
        v as i32
    }
}

/// The sine of `d` degrees over `UNIT`, for `0 <= d <= 90`.
#[verifier::opaque]
pub open spec fn quarter_sine(d: u32) -> int {
    match d {
        0 => 0,
        1 => 71,
        2 => 143,
        3 => 214,
        4 => 286,
        5 => 357,
        6 => 428,
        7 => 499,
        8 => 570,
        9 => 641,
        10 => 711,
        11 => 782,
        12 => 852,
        13 => 921,
        14 => 991,
        15 => 1060,
        16 => 1129,
        17 => 1198,
        18 => 1266,
        19 => 1334,
        20 => 1401,
        21 => 1468,
        22 => 1534,
        23 => 1600,
        24 => 1666,
        25 => 1731,
        26 => 1796,
        27 => 1860,
        28 => 1923,
        29 => 1986,
        30 => 2048,
        31 => 2110,
        32 => 2171,
        33 => 2231,
        34 => 2290,
        35 => 2349,
        36 => 2408,
        37 => 2465,
        38 => 2522,
        39 => 2578,
        40 => 2633,
        41 => 2687,
        42 => 2741,
        43 => 2793,
        44 => 2845,
        45 => 2896,
        46 => 2946,
        47 => 2996,
        48 => 3044,
        49 => 3091,
        50 => 3138,
        51 => 3183,
        52 => 3228,
        53 => 3271,
        54 => 3314,
        55 => 3355,
        56 => 3396,
        57 => 3435,
        58 => 3474,
        59 => 3511,
        60 => 3547,
        61 => 3582,
        62 => 3617,
        63 => 3650,
        64 => 3681,
        65 => 3712,
        66 => 3742,
        67 => 3770,
        68 => 3798,
        69 => 3824,
        70 => 3849,
        71 => 3873,
        72 => 3896,
        73 => 3917,
        74 => 3937,
        75 => 3956,
        76 => 3974,
        77 => 3991,
        78 => 4006,
        79 => 4021,
        80 => 4034,
        81 => 4046,
        82 => 4056,
        83 => 4065,
        84 => 4074,
        85 => 4080,
        86 => 4086,
        87 => 4090,
        88 => 4094,
        89 => 4095,
        _ => 4096,
    }
}

/// The sine of `d` degrees over `UNIT`, for any `d`.
pub open spec fn sine(d: int) -> int {
    let r = d % 360;
    if r <= 90 {
        quarter_sine(r as u32)
    } else if r <= 180 {
        quarter_sine((180 - r) as u32)
    } else if r <= 270 {
        -quarter_sine((r - 180) as u32)
    } else {
        -quarter_sine((360 - r) as u32)
    }
}

/// The cosine of `d` degrees over `UNIT`, for any `d`.
pub open spec fn cosine(d: int) -> int {
    sine(d + 90)
}

fn quarter_sine_of(d: u32) -> (s: i32)
    requires
        d <= 90,
    ensures
        s == quarter_sine(d),
        0 <= s <= 4096,
{
    proof {
        reveal(quarter_sine);
    }
    match d {
        0 => 0,
        1 => 71,
        2 => 143,
        3 => 214,
        4 => 286,
        5 => 357,
        6 => 428,
        7 => 499,
        8 => 570,
        9 => 641,
        10 => 711,
        11 => 782,
        12 => 852,
        13 => 921,
        14 => 991,
        15 => 1060,
        16 => 1129,
        17 => 1198,
        18 => 1266,
        19 => 1334,
        20 => 1401,
        21 => 1468,
        22 => 1534,
        23 => 1600,
        24 => 1666,
        25 => 1731,
        26 => 1796,
        27 => 1860,
        28 => 1923,
        29 => 1986,
        30 => 2048,
        31 => 2110,
        32 => 2171,
        33 => 2231,
        34 => 2290,
        35 => 2349,
        36 => 2408,
        37 => 2465,
        38 => 2522,
        39 => 2578,
        40 => 2633,
        41 => 2687,
        42 => 2741,
        43 => 2793,
        44 => 2845,
        45 => 2896,
        46 => 2946,
        47 => 2996,
        48 => 3044,
        49 => 3091,
        50 => 3138,
        51 => 3183,
        52 => 3228,
        53 => 3271,
        54 => 3314,
        55 => 3355,
        56 => 3396,
        57 => 3435,
        58 => 3474,
        59 => 3511,
        60 => 3547,
        61 => 3582,
        62 => 3617,
        63 => 3650,
        64 => 3681,
        65 => 3712,
        66 => 3742,
        67 => 3770,
        68 => 3798,
        69 => 3824,
        70 => 3849,
        71 => 3873,
        72 => 3896,
        73 => 3917,
        74 => 3937,
        75 => 3956,
        76 => 3974,
        77 => 3991,
        78 => 4006,
        79 => 4021,
        80 => 4034,
        81 => 4046,
        82 => 4056,
        83 => 4065,
        84 => 4074,
        85 => 4080,
        86 => 4086,
        87 => 4090,
        88 => 4094,
        89 => 4095,
        _ => 4096,
    }
}

/// The sine of `degrees` over `UNIT`.
pub fn sine_of(degrees: i32) -> (s: i32)
    ensures
        s == sine(degrees as int),
        -4096 <= s <= 4096,
{
    let wide: i64 = degrees as i64 + 3600000000;
    let r: u32 = (wide % 360) as u32;
    assert(r as int == (degrees as int) % 360);
    if r <= 90 {
        quarter_sine_of(r)
    } else if r <= 180 {
        quarter_sine_of(180 - r)
    } else if r <= 270 {
        -quarter_sine_of(r - 180)
    } else {
        -quarter_sine_of(360 - r)
    }
}

/// The cosine of `degrees` over `UNIT`.
pub fn cosine_of(degrees: i32) -> (c: i32)
    ensures
        c == cosine(degrees as int),
        -4096 <= c <= 4096,
{
    let wide: i64 = degrees as i64 + 3600000090;
    let r: u32 = (wide % 360) as u32;
    assert(r as int == (degrees as int + 90) % 360);
    if r <= 90 {
        quarter_sine_of(r)
    } else if r <= 180 {
        quarter_sine_of(180 - r)
    } else if r <= 270 {
        -quarter_sine_of(r - 180)
    } else {
        -quarter_sine_of(360 - r)
    }
}

impl Vector {
    pub fn new(x: i32, y: i32) -> (v: Self)
        ensures
            v == (Vector { x, y }),
    {
        Vector { x, y }
    }

    /// This point moved by `other`, kept on the grid.
    pub open spec fn shifted(self, other: Vector) -> Vector {
        Vector { x: clamped(self.x + other.x), y: clamped(self.y + other.y) }
    }

    /// This point moved by `other`. A coordinate that would leave the grid
    /// stays on its edge.
    pub fn translate(self, other: Vector) -> (v: Self)
        ensures
            v == self.shifted(other),
    {
        Vector {
            x: clamp_to_grid(self.x as i64 + other.x as i64),
            y: clamp_to_grid(self.y as i64 + other.y as i64),
        }
    }
}

impl Segment {
    pub fn new(a: Vector, b: Vector) -> (s: Self)
        ensures
            s == (Segment { a, b }),
    {
        Segment { a, b }
    }

    /// The point halfway between the two ends, each coordinate rounded down.
    pub open spec fn midpoint(self) -> Vector {
        Vector { x: ((self.a.x + self.b.x) / 2) as i32, y: ((self.a.y + self.b.y) / 2) as i32 }
    }

    /// The point halfway between the two ends.
    pub fn center(&self) -> (c: Vector)
        ensures
            c == self.midpoint(),
    {
        Vector { x: halfway(self.a.x, self.b.x), y: halfway(self.a.y, self.b.y) }
    }

    /// The same edge walked the other way.
    pub open spec fn reversed(self) -> Segment {
        Segment { a: self.b, b: self.a }
    }
}

impl Transform {
    /// Whether the rotation part is within the fixed-point scale.
    pub open spec fn wf(self) -> bool {
        -4096 <= self.cos <= 4096 && -4096 <= self.sin <= 4096
    }

    /// Where `p` lands, as unbounded integers.
    pub open spec fn image(self, p: Vector) -> (int, int) {
        (
            scaled_down(self.cos * p.x - self.sin * p.y) + self.shift.x,
            scaled_down(self.sin * p.x + self.cos * p.y) + self.shift.y,
        )
    }

    /// Where `p` lands on the grid: its image, each coordinate kept on the grid.
    pub open spec fn lands(self, p: Vector) -> Vector {
        Vector { x: clamped(self.image(p).0), y: clamped(self.image(p).1) }
    }

    /// Whether the image of `p` is a point of the grid.
    pub open spec fn maps(self, p: Vector) -> bool {
        fits(self.image(p).0) && fits(self.image(p).1)
    }

    /// Whether the images of both ends of `s` are points of the grid.
    pub open spec fn maps_segment(self, s: Segment) -> bool {
        self.maps(s.a) && self.maps(s.b)
    }

    /// Whether the rotation part is a whole number of quarter turns.
    pub open spec fn square(self) -> bool {
        (self.cos == 0 && (self.sin == 4096 || self.sin == -4096)) || (self.sin == 0 && (self.cos
            == 4096 || self.cos == -4096))
    }

    /// The transform that moves nothing.
    pub fn identity() -> (t: Self)
        ensures
            t == (Transform { cos: 4096, sin: 0, shift: Vector { x: 0, y: 0 } }),
    {
        Transform { cos: UNIT, sin: 0, shift: Vector { x: 0, y: 0 } }
    }

    /// The translation by `shift`.
    pub fn translate(shift: Vector) -> (t: Self)
        ensures
            t == (Transform { cos: 4096, sin: 0, shift }),
    {
        Transform { cos: UNIT, sin: 0, shift }
    }

    /// The rotation by `degrees` about the origin.
    pub fn rotate(degrees: i32) -> (t: Self)
        ensures
            t.cos == cosine(degrees as int),
            t.sin == sine(degrees as int),
            t.shift == (Vector { x: 0, y: 0 }),
            t.wf(),
    {
        Transform { cos: cosine_of(degrees), sin: sine_of(degrees), shift: Vector { x: 0, y: 0 } }
    }

    /// The rotation by `degrees` about the origin, then the translation by
    /// `shift`: how an entity at `shift`, turned by `degrees`, places its model.
    pub fn place(shift: Vector, degrees: i32) -> (t: Self)
        ensures
            t == placement(shift, degrees),
            t.wf(),
    {
        Transform { cos: cosine_of(degrees), sin: sine_of(degrees), shift }
    }

    /// Applies the transform to one point.
    pub fn apply(self, p: Vector) -> (q: Vector)
        requires
            self.wf(),
        ensures
            q == self.lands(p),
    {
        let c: i64 = self.cos as i64;
        let s: i64 = self.sin as i64;
        let px: i64 = p.x as i64;
        let py: i64 = p.y as i64;
        assert(-4096 * 0x8000_0000 <= c * px <= 4096 * 0x8000_0000) by (nonlinear_arith)
            requires
                -4096 <= c <= 4096,
                -0x8000_0000 <= px <= 0x8000_0000,
        ;
        assert(-4096 * 0x8000_0000 <= s * py <= 4096 * 0x8000_0000) by (nonlinear_arith)
            requires
                -4096 <= s <= 4096,
                -0x8000_0000 <= py <= 0x8000_0000,
        ;
        assert(-4096 * 0x8000_0000 <= s * px <= 4096 * 0x8000_0000) by (nonlinear_arith)
            requires
                -4096 <= s <= 4096,
                -0x8000_0000 <= px <= 0x8000_0000,
        ;
        assert(-4096 * 0x8000_0000 <= c * py <= 4096 * 0x8000_0000) by (nonlinear_arith)
            requires
                -4096 <= c <= 4096,
                -0x8000_0000 <= py <= 0x8000_0000,
        ;
        let rx: i64 = round_scaled(c * px - s * py);
        let ry: i64 = round_scaled(s * px + c * py);
        Vector {
            x: clamp_to_grid(rx + self.shift.x as i64),
            y: clamp_to_grid(ry + self.shift.y as i64),
        }
    }

    /// The translation of the inverse transform, as unbounded integers.
    pub open spec fn inverse_shift(self) -> (int, int) {
        (
            -scaled_down(self.cos * self.shift.x + self.sin * self.shift.y),
            -scaled_down(self.cos * self.shift.y - self.sin * self.shift.x),
        )
    }

    /// Whether the inverse's translation is a displacement of the grid.
    pub open spec fn invertible(self) -> bool {
        fits(self.inverse_shift().0) && fits(self.inverse_shift().1)
    }

    /// The transform that undoes this one: the opposite rotation, and the
    /// translation that takes this one's back to the origin.
    pub open spec fn inverted(self) -> Transform {
        Transform {
            cos: self.cos,
            sin: (-self.sin) as i32,
            shift: Vector { x: self.inverse_shift().0 as i32, y: self.inverse_shift().1 as i32 },
        }
    }

    /// Whether the rotation part is a rotation up to the rounding of its
    /// sine and cosine: their squares add up to the square of `UNIT`, give
    /// or take twice `UNIT`.
    pub open spec fn nearly_unit(self) -> bool {
        -8192 <= self.cos * self.cos + self.sin * self.sin - 4096 * 4096 <= 8192
    }

    /// The transform that undoes this one. It undoes a transform by quarter
    /// turns exactly, another up to rounding.
    pub fn inverse(self) -> (t: Self)
        requires
            self.wf(),
            self.invertible(),
        ensures
            t == self.inverted(),
            t.wf(),
    {
        let c: i64 = self.cos as i64;
        let s: i64 = self.sin as i64;
        let sx: i64 = self.shift.x as i64;
        let sy: i64 = self.shift.y as i64;
        assert(-4096 * 0x8000_0000 <= c * sx <= 4096 * 0x8000_0000) by (nonlinear_arith)
            requires
                -4096 <= c <= 4096,
                -0x8000_0000 <= sx <= 0x8000_0000,
        ;
        assert(-4096 * 0x8000_0000 <= s * sy <= 4096 * 0x8000_0000) by (nonlinear_arith)
            requires
                -4096 <= s <= 4096,
                -0x8000_0000 <= sy <= 0x8000_0000,
        ;
        assert(-4096 * 0x8000_0000 <= s * sx <= 4096 * 0x8000_0000) by (nonlinear_arith)
            requires
                -4096 <= s <= 4096,
                -0x8000_0000 <= sx <= 0x8000_0000,
        ;
        assert(-4096 * 0x8000_0000 <= c * sy <= 4096 * 0x8000_0000) by (nonlinear_arith)
            requires
                -4096 <= c <= 4096,
                -0x8000_0000 <= sy <= 0x8000_0000,
        ;
        let x: i64 = -round_scaled(c * sx + s * sy);
        let y: i64 = -round_scaled(c * sy - s * sx);
        Transform { cos: self.cos, sin: -self.sin, shift: Vector { x: x as i32, y: y as i32 } }
    }
}

/// The rotation by `degrees` about the origin followed by the translation by
/// `shift`.
pub open spec fn placement(shift: Vector, degrees: i32) -> Transform {
    Transform { cos: cosine(degrees as int) as i32, sin: sine(degrees as int) as i32, shift }
}

/// Half the sum of two coordinates, rounded down.
fn halfway(p: i32, q: i32) -> (h: i32)
    ensures
        h == (p + q) / 2,
{
    let lifted: u64 = (p as i64 + q as i64 + 0x1_0000_0000) as u64;
    let half: u64 = lifted / 2;
    ((half as i64) - 0x8000_0000) as i32
}

/// `n / UNIT` rounded to the nearest integer, halves upwards.
fn round_scaled(n: i64) -> (q: i64)
    requires
        -0x4000_0000_0000 <= n <= 0x4000_0000_0000,
    ensures
        q == scaled_down(n as int),
{
    // 0x4000_0000_0000 = 4096 * 0x4_0000_0000
    let lifted: u64 = (n + 2048 + 0x4000_0000_0000) as u64;
    let q: u64 = lifted / 4096;
    assert(q as int == scaled_down(n as int) + 0x4_0000_0000);
    (q as i64) - 0x4_0000_0000
}

/// Applies `transform` to both ends of `segment`.
pub fn transform_segment(transform: Transform, segment: Segment) -> (out: Segment)
    requires
        transform.wf(),
    ensures
        out == moved(transform, segment),
{
    Segment { a: transform.apply(segment.a), b: transform.apply(segment.b) }
}

/// `segment` with both ends taken through `transform`.
pub open spec fn moved(transform: Transform, segment: Segment) -> Segment {
    Segment { a: transform.lands(segment.a), b: transform.lands(segment.b) }
}

/// Twice the signed area of the triangle `p`, `q`, `r`: positive where `r` lies
/// on one side of the line through `p` and `q`, negative on the other, zero on
/// the line.
pub open spec fn cross(p: Vector, q: Vector, r: Vector) -> int {
    (q.x - p.x) * (r.y - p.y) - (q.y - p.y) * (r.x - p.x)
}

/// The sign of `cross`: 1, -1 or 0.
pub open spec fn turn(p: Vector, q: Vector, r: Vector) -> int {
    let c = cross(p, q, r);
    if c > 0 {
        1
    } else if c < 0 {
        -1
    } else {
        0
    }
}

/// Whether `r` lies in the upright box spanned by `p` and `q`, border included.
pub open spec fn in_box(p: Vector, q: Vector, r: Vector) -> bool {
    &&& (p.x <= r.x <= q.x || q.x <= r.x <= p.x)
    &&& (p.y <= r.y <= q.y || q.y <= r.y <= p.y)
}

/// Whether `r` lies on the segment from `p` to `q`, ends included.
pub open spec fn on_segment(p: Vector, q: Vector, r: Vector) -> bool {
    turn(p, q, r) == 0 && in_box(p, q, r)
}

/// Whether the two segments have a point in common. Ends belong to their
/// segment, so touching counts, and so does overlap along a common line.
pub open spec fn intersects(s: Segment, t: Segment) -> bool {
    ||| (turn(s.a, s.b, t.a) != turn(s.a, s.b, t.b) && turn(t.a, t.b, s.a) != turn(t.a, t.b, s.b))
    ||| on_segment(s.a, s.b, t.a)
    ||| on_segment(s.a, s.b, t.b)
    ||| on_segment(t.a, t.b, s.a)
    ||| on_segment(t.a, t.b, s.b)
}

fn turn_of(p: Vector, q: Vector, r: Vector) -> (t: i8)
    ensures
        t == turn(p, q, r),
{
    let ax: i128 = q.x as i128 - p.x as i128;
    let ay: i128 = q.y as i128 - p.y as i128;
    let bx: i128 = r.x as i128 - p.x as i128;
    let by: i128 = r.y as i128 - p.y as i128;
    assert(-0x1_0000_0000_0000_0000 <= ax * by <= 0x1_0000_0000_0000_0000) by (nonlinear_arith)
        requires
            -0x1_0000_0000 <= ax <= 0x1_0000_0000,
            -0x1_0000_0000 <= by <= 0x1_0000_0000,
    ;
    assert(-0x1_0000_0000_0000_0000 <= ay * bx <= 0x1_0000_0000_0000_0000) by (nonlinear_arith)
        requires
            -0x1_0000_0000 <= ay <= 0x1_0000_0000,
            -0x1_0000_0000 <= bx <= 0x1_0000_0000,
    ;
    let c: i128 = ax * by - ay * bx;
    if c > 0 {
        1
    } else if c < 0 {
        -1
    } else {
        0
    }
}

fn in_box_of(p: Vector, q: Vector, r: Vector) -> (inside: bool)
    ensures
        inside == in_box(p, q, r),
{
    ((p.x <= r.x && r.x <= q.x) || (q.x <= r.x && r.x <= p.x)) && ((p.y <= r.y && r.y <= q.y) || (
    q.y <= r.y && r.y <= p.y))
}

/// Tests whether two segments have a point in common.
pub fn segments_intersect(s: Segment, t: Segment) -> (hit: bool)
    ensures
        hit == intersects(s, t),
{
    let d1: i8 = turn_of(s.a, s.b, t.a);
    let d2: i8 = turn_of(s.a, s.b, t.b);
    let d3: i8 = turn_of(t.a, t.b, s.a);
    let d4: i8 = turn_of(t.a, t.b, s.b);
    if d1 != d2 && d3 != d4 {
        return true;
    }
    (d1 == 0 && in_box_of(s.a, s.b, t.a)) || (d2 == 0 && in_box_of(s.a, s.b, t.b)) || (d3 == 0
        && in_box_of(t.a, t.b, s.a)) || (d4 == 0 && in_box_of(t.a, t.b, s.b))
}

/// Intersection does not depend on the order of the two segments.
pub proof fn lemma_intersects_symmetric(s: Segment, t: Segment)
    ensures
        intersects(s, t) == intersects(t, s),
{
}

/// Intersection does not depend on the direction in which a segment is walked.
pub proof fn lemma_intersects_reversed(s: Segment, t: Segment)
    ensures
        intersects(s.reversed(), t) == intersects(s, t),
{
    assert(cross(s.b, s.a, t.a) == -cross(s.a, s.b, t.a)) by (nonlinear_arith);
    assert(cross(s.b, s.a, t.b) == -cross(s.a, s.b, t.b)) by (nonlinear_arith);
}

/// A segment meets itself, and meets any segment that starts at one of its ends.
pub proof fn lemma_intersects_shared_end(s: Segment, t: Segment)
    requires
        t.a == s.a || t.a == s.b || t.b == s.a || t.b == s.b,
    ensures
        intersects(s, t),
{
    assert(cross(s.a, s.b, s.a) == 0) by (nonlinear_arith);
    assert(cross(s.a, s.b, s.b) == 0) by (nonlinear_arith);
}

/// A transform by quarter turns followed by its inverse returns every point
/// to where it was.
pub proof fn lemma_square_round_trip(t: Transform, p: Vector)
    requires
        t.square(),
        t.invertible(),
        t.maps(p),
    ensures
        t.inverted().lands(t.lands(p)) == p,
{
    let c = t.cos as int;
    let s = t.sin as int;
    let ix = t.image(p).0;
    let iy = t.image(p).1;
    lemma_square_products(c, s, p.x as int, p.y as int);
    lemma_square_products(c, s, t.shift.x as int, t.shift.y as int);
    lemma_square_products(c, -s, ix, iy);
}

proof fn lemma_square_products(c: int, s: int, x: int, y: int)
    requires
        (c == 0 && (s == 4096 || s == -4096)) || (s == 0 && (c == 4096 || c == -4096)),
    ensures
        c == 0 ==> c * x == 0 && c * y == 0,
        s == 0 ==> s * x == 0 && s * y == 0,
        c == 4096 ==> c * x == 4096 * x && c * y == 4096 * y,
        c == -4096 ==> c * x == -4096 * x && c * y == -4096 * y,
        s == 4096 ==> s * x == 4096 * x && s * y == 4096 * y,
        s == -4096 ==> s * x == -4096 * x && s * y == -4096 * y,
{
}

/// A transform by quarter turns followed by its inverse returns every
/// segment to where it was.
pub proof fn lemma_square_round_trip_segment(t: Transform, s: Segment)
    requires
        t.square(),
        t.invertible(),
        t.maps_segment(s),
    ensures
        moved(t.inverted(), moved(t, s)) == s,
{
    lemma_square_round_trip(t, s.a);
    lemma_square_round_trip(t, s.b);
}

/// The identity moves nothing.
pub proof fn lemma_identity_moves_nothing(s: Segment)
    ensures
        moved(Transform { cos: 4096, sin: 0, shift: Vector { x: 0, y: 0 } }, s) == s,
{
}

/// Rounding brings `n / UNIT` to within half a unit.
proof fn lemma_scaled_down_near(n: int)
    ensures
        -2047 <= 4096 * scaled_down(n) - n <= 2048,
{
}

/// One coordinate of a round trip: `back` is the image of the image of `p`,
/// where `u` and `v` are the rotated coordinates of the point and `b` is the
/// rotated translation.
proof fn lemma_round_trip_coordinate(
    c: int,
    s: int,
    delta: int,
    p: int,
    other: int,
    u: int,
    v: int,
    b: int,
)
    requires
        -4096 <= c <= 4096,
        -4096 <= s <= 4096,
        delta == c * c + s * s - 4096 * 4096,
        -8192 <= delta <= 8192,
        -2048 <= p <= 2048,
        -2047 <= 4096 * u - (c * p - s * other) <= 2048,
        -2047 <= 4096 * v - (s * p + c * other) <= 2048,
    ensures
        -2 <= scaled_down(c * u + s * v + b) - scaled_down(b) - p <= 2,
{
    let e1 = 4096 * u - (c * p - s * other);
    let e2 = 4096 * v - (s * p + c * other);
    let a = c * u + s * v;
    let back = scaled_down(a + b) - scaled_down(b);
    lemma_scaled_down_near(a + b);
    lemma_scaled_down_near(b);
    assert(-4095 <= 4096 * back - a <= 4095);
    assert(4096 * a == (c * c + s * s) * p + c * e1 + s * e2) by (nonlinear_arith)
        requires
            a == c * u + s * v,
            e1 == 4096 * u - (c * p - s * other),
            e2 == 4096 * v - (s * p + c * other),
    ;
    assert((c * c + s * s) * p == 4096 * 4096 * p + delta * p) by (nonlinear_arith)
        requires
            delta == c * c + s * s - 4096 * 4096,
    ;
    assert(-8192 * 2048 <= delta * p <= 8192 * 2048) by (nonlinear_arith)
        requires
            -8192 <= delta <= 8192,
            -2048 <= p <= 2048,
    ;
    assert(-4096 * 2048 <= c * e1 <= 4096 * 2048) by (nonlinear_arith)
        requires
            -4096 <= c <= 4096,
            -2047 <= e1 <= 2048,
    ;
    assert(-4096 * 2048 <= s * e2 <= 4096 * 2048) by (nonlinear_arith)
        requires
            -4096 <= s <= 4096,
            -2047 <= e2 <= 2048,
    ;
}

/// A transform whose rotation part is a rotation up to rounding, followed by
/// its inverse, returns every point within 2048 units of the origin to
/// within two units of where it was.
pub proof fn lemma_round_trip_within_two(t: Transform, p: Vector)
    requires
        t.wf(),
        t.nearly_unit(),
        t.invertible(),
        t.maps(p),
        -2048 <= p.x <= 2048,
        -2048 <= p.y <= 2048,
    ensures
        -2 <= t.inverted().image(t.lands(p)).0 - p.x <= 2,
        -2 <= t.inverted().image(t.lands(p)).1 - p.y <= 2,
{
    let c = t.cos as int;
    let s = t.sin as int;
    let delta = c * c + s * s - 4096 * 4096;
    let u = scaled_down(c * p.x - s * p.y);
    let v = scaled_down(s * p.x + c * p.y);
    let q = t.lands(p);
    assert(q.x == u + t.shift.x && q.y == v + t.shift.y);
    lemma_scaled_down_near(c * p.x - s * p.y);
    lemma_scaled_down_near(s * p.x + c * p.y);
    let back = t.inverted();
    let bx = c * t.shift.x + s * t.shift.y;
    let by = c * t.shift.y - s * t.shift.x;
    assert(back.cos * q.x - back.sin * q.y == c * u + s * v + bx) by (nonlinear_arith)
        requires
            back.cos == c,
            back.sin == -s,
            q.x == u + t.shift.x,
            q.y == v + t.shift.y,
            bx == c * t.shift.x + s * t.shift.y,
    ;
    assert(back.sin * q.x + back.cos * q.y == c * v + (-s) * u + by) by (nonlinear_arith)
        requires
            back.cos == c,
            back.sin == -s,
            q.x == u + t.shift.x,
            q.y == v + t.shift.y,
            by == c * t.shift.y - s * t.shift.x,
    ;
    lemma_round_trip_coordinate(c, s, delta, p.x as int, p.y as int, u, v, bx);
    lemma_round_trip_other(c, s, delta, p.x as int, p.y as int, u, v, by);
}

/// The other coordinate of a round trip.
proof fn lemma_round_trip_other(
    c: int,
    s: int,
    delta: int,
    other: int,
    p: int,
    u: int,
    v: int,
    b: int,
)
    requires
        -4096 <= c <= 4096,
        -4096 <= s <= 4096,
        delta == c * c + s * s - 4096 * 4096,
        -8192 <= delta <= 8192,
        -2048 <= p <= 2048,
        -2047 <= 4096 * u - (c * other - s * p) <= 2048,
        -2047 <= 4096 * v - (s * other + c * p) <= 2048,
    ensures
        -2 <= scaled_down(c * v + (-s) * u + b) - scaled_down(b) - p <= 2,
{
    let e1 = 4096 * u - (c * other - s * p);
    let e2 = 4096 * v - (s * other + c * p);
    let a = c * v + (-s) * u;
    let back = scaled_down(a + b) - scaled_down(b);
    lemma_scaled_down_near(a + b);
    lemma_scaled_down_near(b);
    assert(-4095 <= 4096 * back - a <= 4095);
    assert(4096 * a == (c * c + s * s) * p + c * e2 - s * e1) by (nonlinear_arith)
        requires
            a == c * v + (-s) * u,
            e1 == 4096 * u - (c * other - s * p),
            e2 == 4096 * v - (s * other + c * p),
    ;
    assert((c * c + s * s) * p == 4096 * 4096 * p + delta * p) by (nonlinear_arith)
        requires
            delta == c * c + s * s - 4096 * 4096,
    ;
    assert(-8192 * 2048 <= delta * p <= 8192 * 2048) by (nonlinear_arith)
        requires
            -8192 <= delta <= 8192,
            -2048 <= p <= 2048,
    ;
    assert(-4096 * 2048 <= c * e2 <= 4096 * 2048) by (nonlinear_arith)
        requires
            -4096 <= c <= 4096,
            -2047 <= e2 <= 2048,
    ;
    assert(-4096 * 2048 <= s * e1 <= 4096 * 2048) by (nonlinear_arith)
        requires
            -4096 <= s <= 4096,
            -2047 <= e1 <= 2048,
    ;
}

/// In the table of sines, the squares of the sine of an angle and of the
/// sine of its complement add up to the square of `UNIT`, give or take
/// twice `UNIT`.
proof fn lemma_quarter_sines_nearly_unit(d: u32)
    requires
        d <= 90,
    ensures
        -8192 <= quarter_sine(d) * quarter_sine(d) + quarter_sine((90 - d) as u32) * quarter_sine(
            (90 - d) as u32,
        ) - 4096 * 4096 <= 8192,
        0 <= quarter_sine(d) <= 4096,
        0 <= quarter_sine((90 - d) as u32) <= 4096,
{
    reveal(quarter_sine);
}

/// Every placement turns by what is a rotation up to rounding.
pub proof fn lemma_placement_nearly_unit(shift: Vector, degrees: i32)
    ensures
        placement(shift, degrees).wf(),
        placement(shift, degrees).nearly_unit(),
{
    let r = (degrees as int) % 360;
    let a: u32 = if r <= 90 {
        r as u32
    } else if r <= 180 {
        (180 - r) as u32
    } else if r <= 270 {
        (r - 180) as u32
    } else {
        (360 - r) as u32
    };
    lemma_quarter_sines_nearly_unit(a);
    let s = sine(degrees as int);
    let c = cosine(degrees as int);
    assert(s == quarter_sine(a) || s == -quarter_sine(a));
    assert((degrees as int + 90) % 360 == (r + 90) % 360);
    assert(c == quarter_sine((90 - a) as u32) || c == -quarter_sine((90 - a) as u32));
    assert(s * s == quarter_sine(a) * quarter_sine(a)) by (nonlinear_arith)
        requires
            s == quarter_sine(a) || s == -quarter_sine(a),
    ;
    assert(c * c == quarter_sine((90 - a) as u32) * quarter_sine((90 - a) as u32))
        by (nonlinear_arith)
        requires
            c == quarter_sine((90 - a) as u32) || c == -quarter_sine((90 - a) as u32),
    ;
}

} // verus!
