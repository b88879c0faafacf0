//! Collision outlines: the shared template of an archetype in model space, the
//! per-instance buffer of that template placed in the world, and the tests of
//! one outline against another.

use crate::geometry::{intersects, moved, segments_intersect, transform_segment, Segment, Transform};
use std::rc::Rc;
use vstd::prelude::*;

verus! {

/// The outline of an archetype in model space. It is built once and shared by
/// every entity of the archetype; nothing changes it afterwards.
pub struct CollisionModel {
    lines: Rc<Vec<Segment>>,
}

/// The outline of one entity in world space, rebuilt whenever the entity moves.
pub struct CollisionLines {
    lines: Vec<Segment>,
}

/// Each segment of `model` taken through `transform`, in the same order.
pub open spec fn placed(model: Seq<Segment>, transform: Transform) -> Seq<Segment> {
    Seq::new(model.len(), |i: int| moved(transform, model[i]))
}

/// Whether some segment of `a` has a point in common with some segment of `b`.
pub open spec fn overlap(a: Seq<Segment>, b: Seq<Segment>) -> bool {
    exists|i: int, j: int| 0 <= i < a.len() && 0 <= j < b.len() && intersects(a[i], b[j])
}

/// `std::rc::Rc::clone`: another handle to the same allocation, so that what
/// the new handle points to is what the old one points to.
#[verifier::external_body]
fn share(lines: &Rc<Vec<Segment>>) -> (shared: Rc<Vec<Segment>>)
    ensures
        shared@ == lines@,
{
    Rc::clone(lines)
}

impl View for CollisionModel {
    type V = Seq<Segment>;

    closed spec fn view(&self) -> Seq<Segment> {
        self.lines@
    }
}

impl View for CollisionLines {
    type V = Seq<Segment>;

    closed spec fn view(&self) -> Seq<Segment> {
        self.lines@
    }
}

impl Clone for CollisionModel {
    /// Another handle to the same template.
    fn clone(&self) -> (copy: Self)
        ensures
            copy@ == self@,
    {
        CollisionModel { lines: share(&self.lines) }
    }
}

impl CollisionModel {
    pub fn new(lines: Vec<Segment>) -> (model: Self)
        ensures
            model@ == lines@,
    {
        CollisionModel { lines: Rc::new(lines) }
    }

    /// The number of segments in the template.
    pub fn len(&self) -> (n: usize)
        ensures
            n == self@.len(),
    {
        self.lines.len()
    }

    /// The segment at `index`.
    pub fn segment(&self, index: usize) -> (s: Segment)
        requires
            index < self@.len(),
        ensures
            s == self@[index as int],
    {
        self.lines[index]
    }
}

impl CollisionLines {
    pub fn new() -> (lines: Self)
        ensures
            lines@ == Seq::<Segment>::empty(),
    {
        CollisionLines { lines: Vec::new() }
    }

    /// Removes every segment from the buffer.
    pub fn clear(&mut self)
        ensures
            final(self)@ == Seq::<Segment>::empty(),
    {
        self.lines.clear();
    }

    /// The number of segments in the buffer.
    pub fn len(&self) -> (n: usize)
        ensures
            n == self@.len(),
    {
        self.lines.len()
    }

    /// The segment at `index`.
    pub fn segment(&self, index: usize) -> (s: Segment)
        requires
            index < self@.len(),
        ensures
            s == self@[index as int],
    {
        self.lines[index]
    }

    /// Appends each of `lines`, taken through `transform`, to the buffer.
    pub fn add_lines(&mut self, transform: Transform, lines: &Vec<Segment>)
        requires
            transform.wf(),
        ensures
            final(self)@ == old(self)@ + placed(lines@, transform),
    {
        let n: usize = lines.len();
        let mut i: usize = 0;
        while i < n
            invariant
                0 <= i <= n,
                n == lines@.len(),
                transform.wf(),
                self@ == old(self)@ + placed(lines@, transform).take(i as int),
            decreases n - i,
        {
            let s: Segment = lines[i];
            self.lines.push(transform_segment(transform, s));
            assert(self@ =~= old(self)@ + placed(lines@, transform).take(i + 1));
            i += 1;
        }
        assert(placed(lines@, transform).take(n as int) =~= placed(lines@, transform));
    }

    /// Appends the segments of `collision_model`, taken through `transform`, to
    /// the buffer.
    pub fn add_model(&mut self, collision_model: CollisionModel, transform: Transform)
        requires
            transform.wf(),
        ensures
            final(self)@ == old(self)@ + placed(collision_model@, transform),
    {
        self.add_lines(transform, &*collision_model.lines);
    }

    /// Replaces what the buffer holds by the segments of `collision_model`
    /// taken through `transform`: one for each segment of the model, in the
    /// model's order, and nothing left of what was there before.
    pub fn update(&mut self, transform: Transform, collision_model: CollisionModel)
        requires
            transform.wf(),
        ensures
            final(self)@ == placed(collision_model@, transform),
            final(self)@.len() == collision_model@.len(),
            forall|i: int|
                0 <= i < collision_model@.len() ==> (#[trigger] final(self)@[i]) == moved(
                    transform,
                    collision_model@[i],
                ),
    {
        self.clear();
        self.add_model(collision_model, transform);
        assert(self@ =~= placed(collision_model@, transform));
    }
}

/// Something with an outline in world space.
pub trait Collidable {
    /// The outline that `collision_lines` hands out.
    spec fn outline(&self) -> Seq<Segment>;

    fn collision_lines(&self) -> (lines: &CollisionLines)
        ensures
            lines@ == self.outline(),
    ;
}

impl Collidable for CollisionLines {
    open spec fn outline(&self) -> Seq<Segment> {
        self@
    }

    fn collision_lines(&self) -> (lines: &CollisionLines) {
        self
    }
}

/// Tests whether the outlines of `a` and `b` have a point in common.
pub fn collides_with<A: Collidable, B: Collidable>(a: &A, b: &B) -> (hit: bool)
    ensures
        hit == overlap(a.outline(), b.outline()),
{
    let a_lines = a.collision_lines();
    let b_lines = b.collision_lines();
    let n: usize = a_lines.len();
    let m: usize = b_lines.len();
    let mut i: usize = 0;
    while i < n
        invariant
            0 <= i <= n,
            n == a_lines@.len(),
            m == b_lines@.len(),
            a_lines@ == a.outline(),
            b_lines@ == b.outline(),
            forall|p: int, q: int|
                0 <= p < i && 0 <= q < m ==> !intersects(a_lines@[p], b_lines@[q]),
        decreases n - i,
    {
        let line_a: Segment = a_lines.segment(i);
        let mut j: usize = 0;
        while j < m
            invariant
                0 <= j <= m,
                i < n,
                n == a_lines@.len(),
                m == b_lines@.len(),
                a_lines@ == a.outline(),
                b_lines@ == b.outline(),
                line_a == a_lines@[i as int],
                forall|p: int, q: int|
                    0 <= p < i && 0 <= q < m ==> !intersects(a_lines@[p], b_lines@[q]),
                forall|q: int| 0 <= q < j ==> !intersects(a_lines@[i as int], b_lines@[q]),
            decreases m - j,
        {
            if segments_intersect(line_a, b_lines.segment(j)) {
                assert(intersects(a_lines@[i as int], b_lines@[j as int]));
                return true;
            }
            j += 1;
        }
        i += 1;
    }
    false
}

/// Whether the members of `hits` stand in strictly ascending order.
pub open spec fn ascending(hits: Seq<usize>) -> bool {
    forall|k: int, l: int| 0 <= k < l < hits.len() ==> hits[k] < hits[l]
}

/// Whether pair `p` comes before pair `q` when all pairs are walked row by row.
pub open spec fn pair_before(p: (usize, usize), q: (usize, usize)) -> bool {
    p.0 < q.0 || (p.0 == q.0 && p.1 < q.1)
}

/// Whether the members of `hits` stand in the order of a row-by-row walk,
/// none of them twice.
pub open spec fn row_major(hits: Seq<(usize, usize)>) -> bool {
    forall|k: int, l: int| 0 <= k < l < hits.len() ==> pair_before(hits[k], hits[l])
}

proof fn lemma_push_contains<T>(s: Seq<T>, x: T, y: T)
    ensures
        s.push(x).contains(y) <==> (s.contains(y) || y == x),
{
    let t = s.push(x);
    if s.contains(y) {
        let i = choose|i: int| 0 <= i < s.len() && s[i] == y;
        assert(t[i] == y);
    }
    if y == x {
        assert(t[s.len() as int] == y);
    }
    if t.contains(y) {
        let i = choose|i: int| 0 <= i < t.len() && t[i] == y;
        if i < s.len() {
            assert(s[i] == y);
        }
    }
}

/// Tests one outline against each of `ys`. The result holds, in ascending
/// order, the index of every member of `ys` that `x` collides with.
pub fn collide_single_multi<T: Collidable, U: Collidable>(x: &T, ys: &[U]) -> (hits: Vec<usize>)
    ensures
        ascending(hits@),
        forall|j: usize|
            hits@.contains(j) <==> (j < ys@.len() && overlap(
                x.outline(),
                (#[trigger] ys@[j as int]).outline(),
            )),
{
    let mut hits: Vec<usize> = Vec::new();
    let m: usize = ys.len();
    let mut j: usize = 0;
    while j < m
        invariant
            0 <= j <= m,
            m == ys@.len(),
            ascending(hits@),
            forall|k: int| 0 <= k < hits@.len() ==> hits@[k] < j,
            forall|q: usize|
                hits@.contains(q) <==> (q < j && overlap(
                    x.outline(),
                    (#[trigger] ys@[q as int]).outline(),
                )),
        decreases m - j,
    {
        if collides_with(x, &ys[j]) {
            let ghost before = hits@;
            hits.push(j);
            proof {
                assert forall|q: usize|
                    hits@.contains(q) <==> (q < j + 1 && overlap(
                        x.outline(),
                        (#[trigger] ys@[q as int]).outline(),
                    )) by {
                    lemma_push_contains(before, j, q);
                }
            }
        }
        j += 1;
    }
    hits
}

/// Tests each of `xs` against one outline. The result holds, in ascending
/// order, the index of every member of `xs` that collides with `y`.
pub fn collide_multi_single<T: Collidable, U: Collidable>(xs: &[T], y: &U) -> (hits: Vec<usize>)
    ensures
        ascending(hits@),
        forall|i: usize|
            hits@.contains(i) <==> (i < xs@.len() && overlap(
                (#[trigger] xs@[i as int]).outline(),
                y.outline(),
            )),
{
    let mut hits: Vec<usize> = Vec::new();
    let n: usize = xs.len();
    let mut i: usize = 0;
    while i < n
        invariant
            0 <= i <= n,
            n == xs@.len(),
            ascending(hits@),
            forall|k: int| 0 <= k < hits@.len() ==> hits@[k] < i,
            forall|p: usize|
                hits@.contains(p) <==> (p < i && overlap(
                    (#[trigger] xs@[p as int]).outline(),
                    y.outline(),
                )),
        decreases n - i,
    {
        if collides_with(&xs[i], y) {
            let ghost before = hits@;
            hits.push(i);
            proof {
                assert forall|p: usize|
                    hits@.contains(p) <==> (p < i + 1 && overlap(
                        (#[trigger] xs@[p as int]).outline(),
                        y.outline(),
                    )) by {
                    lemma_push_contains(before, i, p);
                }
            }
        }
        i += 1;
    }
    hits
}

/// Whether member `i` of `xs` and member `j` of `ys` exist and collide.
pub open spec fn pair_collides<T: Collidable, U: Collidable>(
    xs: Seq<T>,
    ys: Seq<U>,
    i: usize,
    j: usize,
) -> bool {
    i < xs.len() && j < ys.len() && overlap(xs[i as int].outline(), ys[j as int].outline())
}

/// How many of the first `m` members of `ys` collide with the outline `x`.
pub open spec fn row_hits<U: Collidable>(x: Seq<Segment>, ys: Seq<U>, m: int) -> nat
    decreases m,
{
    if m <= 0 {
        0
    } else {
        row_hits(x, ys, m - 1) + if overlap(x, ys[m - 1].outline()) {
            1nat
        } else {
            0nat
        }
    }
}

/// How many pairs of one of the first `n` members of `xs` and one member of
/// `ys` collide.
pub open spec fn pair_hits<T: Collidable, U: Collidable>(xs: Seq<T>, ys: Seq<U>, n: int) -> nat
    decreases n,
{
    if n <= 0 {
        0
    } else {
        pair_hits(xs, ys, n - 1) + row_hits(xs[n - 1].outline(), ys, ys.len() as int)
    }
}

/// Whether the outline `x` collides with some member of `ys`.
pub open spec fn meets_any<U: Collidable>(x: Seq<Segment>, ys: Seq<U>) -> bool {
    exists|j: int| 0 <= j < ys.len() && overlap(x, (#[trigger] ys[j]).outline())
}

/// Whether some member of `xs` collides with the outline `y`.
pub open spec fn met_by_any<T: Collidable>(xs: Seq<T>, y: Seq<Segment>) -> bool {
    exists|i: int| 0 <= i < xs.len() && overlap((#[trigger] xs[i]).outline(), y)
}

/// Tests each of `xs` against each of `ys`. The result holds every colliding
/// pair of indices once, in the order of a row-by-row walk: a hit does not
/// end the walk of its row.
pub fn collide_multi<T: Collidable, U: Collidable>(xs: &[T], ys: &[U]) -> (hits: Vec<
    (usize, usize),
>)
    ensures
        row_major(hits@),
        forall|i: usize, j: usize|
            #[trigger] hits@.contains((i, j)) <==> pair_collides(xs@, ys@, i, j),
        hits@.len() == pair_hits(xs@, ys@, xs@.len() as int),
{
    let mut hits: Vec<(usize, usize)> = Vec::new();
    let n: usize = xs.len();
    let m: usize = ys.len();
    let mut i: usize = 0;
    while i < n
        invariant
            0 <= i <= n,
            n == xs@.len(),
            m == ys@.len(),
            row_major(hits@),
            hits@.len() == pair_hits(xs@, ys@, i as int),
            forall|k: int| 0 <= k < hits@.len() ==> (#[trigger] hits@[k]).0 < i,
            forall|p: usize, q: usize|
                #[trigger] hits@.contains((p, q)) <==> (p < i && pair_collides(xs@, ys@, p, q)),
        decreases n - i,
    {
        let mut j: usize = 0;
        while j < m
            invariant
                0 <= j <= m,
                i < n,
                n == xs@.len(),
                m == ys@.len(),
                row_major(hits@),
                hits@.len() == pair_hits(xs@, ys@, i as int) + row_hits(
                    xs@[i as int].outline(),
                    ys@,
                    j as int,
                ),
                forall|k: int|
                    0 <= k < hits@.len() ==> pair_before(#[trigger] hits@[k], (i, j)),
                forall|p: usize, q: usize|
                    #[trigger] hits@.contains((p, q)) <==> ((p < i || (p == i && q < j))
                        && pair_collides(xs@, ys@, p, q)),
            decreases m - j,
        {
            if collides_with(&xs[i], &ys[j]) {
                let ghost before = hits@;
                hits.push((i, j));
                proof {
                    assert forall|p: usize, q: usize|
                        #[trigger] hits@.contains((p, q)) <==> ((p < i || (p == i && q < j + 1))
                            && pair_collides(xs@, ys@, p, q)) by {
                        lemma_push_contains(before, (i, j), (p, q));
                    }
                }
            }
            j += 1;
        }
        i += 1;
    }
    hits
}

/// `n` marks, none of them set.
pub fn no_marks(n: usize) -> (marks: Vec<bool>)
    ensures
        marks@.len() == n,
        forall|i: int| 0 <= i < n ==> !marks@[i],
{
    let mut marks: Vec<bool> = Vec::new();
    let mut i: usize = 0;
    while i < n
        invariant
            0 <= i <= n,
            marks@.len() == i,
            forall|k: int| 0 <= k < i ==> !marks@[k],
        decreases n - i,
    {
        marks.push(false);
        i += 1;
    }
    marks
}

/// Whether `i` is the first index of one of `pairs`.
pub open spec fn is_first(pairs: Seq<(usize, usize)>, i: int) -> bool {
    exists|k: int| 0 <= k < pairs.len() && (#[trigger] pairs[k]).0 == i
}

/// Whether `j` is the second index of one of `pairs`.
pub open spec fn is_second(pairs: Seq<(usize, usize)>, j: int) -> bool {
    exists|k: int| 0 <= k < pairs.len() && (#[trigger] pairs[k]).1 == j
}

/// Sets the mark of every first index among `pairs` that has a mark.
pub fn mark_firsts(marks: &mut Vec<bool>, pairs: &Vec<(usize, usize)>)
    ensures
        final(marks)@.len() == old(marks)@.len(),
        forall|i: int|
            0 <= i < old(marks)@.len() ==> (#[trigger] final(marks)@[i]) == (old(marks)@[i]
                || is_first(pairs@, i)),
{
    let n: usize = pairs.len();
    let mut k: usize = 0;
    while k < n
        invariant
            0 <= k <= n,
            n == pairs@.len(),
            marks@.len() == old(marks)@.len(),
            forall|i: int|
                0 <= i < marks@.len() ==> (#[trigger] marks@[i]) == (old(marks)@[i] || is_first(
                    pairs@.take(k as int),
                    i,
                )),
        decreases n - k,
    {
        let h: usize = pairs[k].0;
        if h < marks.len() {
            marks[h] = true;
        }
        proof {
            assert forall|i: int| 0 <= i < marks@.len() implies (#[trigger] marks@[i]) == (old(
                marks,
            )@[i] || is_first(pairs@.take(k + 1), i)) by {
                let shorter = pairs@.take(k as int);
                let longer = pairs@.take(k + 1);
                if is_first(shorter, i) {
                    let w = choose|w: int| 0 <= w < shorter.len() && (#[trigger] shorter[w]).0 == i;
                    assert(longer[w].0 == i);
                }
                if h == i {
                    assert(longer[k as int].0 == i);
                }
                if is_first(longer, i) {
                    let w = choose|w: int| 0 <= w < longer.len() && (#[trigger] longer[w]).0 == i;
                    if w < k {
                        assert(shorter[w].0 == i);
                    }
                }
            }
        }
        k += 1;
    }
    assert(pairs@.take(n as int) =~= pairs@);
}

/// Sets the mark of every second index among `pairs` that has a mark.
pub fn mark_seconds(marks: &mut Vec<bool>, pairs: &Vec<(usize, usize)>)
    ensures
        final(marks)@.len() == old(marks)@.len(),
        forall|j: int|
            0 <= j < old(marks)@.len() ==> (#[trigger] final(marks)@[j]) == (old(marks)@[j]
                || is_second(pairs@, j)),
{
    let n: usize = pairs.len();
    let mut k: usize = 0;
    while k < n
        invariant
            0 <= k <= n,
            n == pairs@.len(),
            marks@.len() == old(marks)@.len(),
            forall|j: int|
                0 <= j < marks@.len() ==> (#[trigger] marks@[j]) == (old(marks)@[j] || is_second(
                    pairs@.take(k as int),
                    j,
                )),
        decreases n - k,
    {
        let h: usize = pairs[k].1;
        if h < marks.len() {
            marks[h] = true;
        }
        proof {
            assert forall|j: int| 0 <= j < marks@.len() implies (#[trigger] marks@[j]) == (old(
                marks,
            )@[j] || is_second(pairs@.take(k + 1), j)) by {
                let shorter = pairs@.take(k as int);
                let longer = pairs@.take(k + 1);
                if is_second(shorter, j) {
                    let w = choose|w: int| 0 <= w < shorter.len() && (#[trigger] shorter[w]).1 == j;
                    assert(longer[w].1 == j);
                }
                if h == j {
                    assert(longer[k as int].1 == j);
                }
                if is_second(longer, j) {
                    let w = choose|w: int| 0 <= w < longer.len() && (#[trigger] longer[w]).1 == j;
                    if w < k {
                        assert(shorter[w].1 == j);
                    }
                }
            }
        }
        k += 1;
    }
    assert(pairs@.take(n as int) =~= pairs@);
}

/// For the colliding pairs of `xs` and `ys`: an index is the first of one of
/// them exactly if that member of `xs` collides with some member of `ys`,
/// and the second of one exactly if some member of `xs` collides with that
/// member of `ys`.
pub proof fn lemma_pairs_are_collisions<T: Collidable, U: Collidable>(
    xs: Seq<T>,
    ys: Seq<U>,
    pairs: Seq<(usize, usize)>,
)
    requires
        forall|i: usize, j: usize|
            #[trigger] pairs.contains((i, j)) <==> pair_collides(xs, ys, i, j),
        xs.len() <= usize::MAX,
        ys.len() <= usize::MAX,
    ensures
        forall|i: int|
            0 <= i < xs.len() ==> #[trigger] is_first(pairs, i) == meets_any(xs[i].outline(), ys),
        forall|j: int|
            0 <= j < ys.len() ==> #[trigger] is_second(pairs, j) == met_by_any(
                xs,
                ys[j].outline(),
            ),
{
    assert forall|i: int| 0 <= i < xs.len() implies #[trigger] is_first(pairs, i) == meets_any(
        xs[i].outline(),
        ys,
    ) by {
        if is_first(pairs, i) {
            let k = choose|k: int| 0 <= k < pairs.len() && (#[trigger] pairs[k]).0 == i;
            assert(pairs.contains(pairs[k]));
            assert(pair_collides(xs, ys, pairs[k].0, pairs[k].1));
            assert(overlap(xs[i].outline(), ys[pairs[k].1 as int].outline()));
        }
        if meets_any(xs[i].outline(), ys) {
            let j = choose|j: int| 0 <= j < ys.len() && overlap(
                xs[i].outline(),
                (#[trigger] ys[j]).outline(),
            );
            assert(pair_collides(xs, ys, i as usize, j as usize));
            assert(pairs.contains((i as usize, j as usize)));
            let k = choose|k: int| 0 <= k < pairs.len() && pairs[k] == (i as usize, j as usize);
            assert(pairs[k].0 == i);
        }
    }
    assert forall|j: int| 0 <= j < ys.len() implies #[trigger] is_second(pairs, j) == met_by_any(
        xs,
        ys[j].outline(),
    ) by {
        if is_second(pairs, j) {
            let k = choose|k: int| 0 <= k < pairs.len() && (#[trigger] pairs[k]).1 == j;
            assert(pairs.contains(pairs[k]));
            assert(pair_collides(xs, ys, pairs[k].0, pairs[k].1));
            assert(overlap(xs[pairs[k].0 as int].outline(), ys[j].outline()));
        }
        if met_by_any(xs, ys[j].outline()) {
            let i = choose|i: int| 0 <= i < xs.len() && overlap(
                (#[trigger] xs[i]).outline(),
                ys[j].outline(),
            );
            assert(pair_collides(xs, ys, i as usize, j as usize));
            assert(pairs.contains((i as usize, j as usize)));
            let k = choose|k: int| 0 <= k < pairs.len() && pairs[k] == (i as usize, j as usize);
            assert(pairs[k].1 == j);
        }
    }
}

/// Whether one of `marks` is set.
pub open spec fn any_set(marks: Seq<bool>) -> bool {
    exists|i: int| 0 <= i < marks.len() && #[trigger] marks[i]
}

/// Tests whether one of `marks` is set.
pub fn any_marked(marks: &Vec<bool>) -> (any: bool)
    ensures
        any == any_set(marks@),
{
    let n: usize = marks.len();
    let mut i: usize = 0;
    while i < n
        invariant
            0 <= i <= n,
            n == marks@.len(),
            forall|k: int| 0 <= k < i ==> !marks@[k],
        decreases n - i,
    {
        if marks[i] {
            return true;
        }
        i += 1;
    }
    false
}

/// Tests each of `xs` against one outline and marks those that collide with
/// it: one mark for each member of `xs`, in its order.
pub fn collide_many_one<T: Collidable, U: Collidable>(xs: &[T], y: &U) -> (marks: Vec<bool>)
    ensures
        marks@.len() == xs@.len(),
        forall|i: int|
            0 <= i < xs@.len() ==> (#[trigger] marks@[i]) == overlap(
                xs@[i].outline(),
                y.outline(),
            ),
        any_set(marks@) == met_by_any(xs@, y.outline()),
{
    let mut marks: Vec<bool> = Vec::new();
    let n: usize = xs.len();
    let mut i: usize = 0;
    while i < n
        invariant
            0 <= i <= n,
            n == xs@.len(),
            marks@.len() == i,
            forall|k: int|
                0 <= k < i ==> (#[trigger] marks@[k]) == overlap(xs@[k].outline(), y.outline()),
        decreases n - i,
    {
        let hit: bool = collides_with(&xs[i], y);
        marks.push(hit);
        i += 1;
    }
    proof {
        if any_set(marks@) {
            let k = choose|k: int| 0 <= k < marks@.len() && #[trigger] marks@[k];
            assert(overlap(xs@[k].outline(), y.outline()));
        }
        if met_by_any(xs@, y.outline()) {
            let k = choose|k: int|
                0 <= k < xs@.len() && overlap((#[trigger] xs@[k]).outline(), y.outline());
            assert(marks@[k]);
        }
    }
    marks
}

/// What a test of each of `xs` against each of `ys` finds.
pub struct Crossing {
    /// For each of `xs`: whether it collides with one of `ys`.
    pub firsts: Vec<bool>,
    /// For each of `ys`: whether one of `xs` collides with it.
    pub seconds: Vec<bool>,
    /// How many pairs collide.
    pub pairs: usize,
}

/// Tests each of `xs` against each of `ys`, every pair once, and marks on
/// both sides those that collide with one of the other side.
pub fn collide_many_many<T: Collidable, U: Collidable>(xs: &[T], ys: &[U]) -> (found: Crossing)
    ensures
        found.firsts@.len() == xs@.len(),
        found.seconds@.len() == ys@.len(),
        forall|i: int|
            0 <= i < xs@.len() ==> (#[trigger] found.firsts@[i]) == meets_any(
                xs@[i].outline(),
                ys@,
            ),
        forall|j: int|
            0 <= j < ys@.len() ==> (#[trigger] found.seconds@[j]) == met_by_any(
                xs@,
                ys@[j].outline(),
            ),
        found.pairs == pair_hits(xs@, ys@, xs@.len() as int),
{
    let hits = collide_multi(xs, ys);
    let mut firsts = no_marks(xs.len());
    let mut seconds = no_marks(ys.len());
    mark_firsts(&mut firsts, &hits);
    mark_seconds(&mut seconds, &hits);
    proof {
        lemma_pairs_are_collisions(xs@, ys@, hits@);
        assert forall|i: int| 0 <= i < xs@.len() implies (#[trigger] firsts@[i]) == meets_any(
            xs@[i].outline(),
            ys@,
        ) by {
            assert(firsts@[i] == is_first(hits@, i));
        }
        assert forall|j: int| 0 <= j < ys@.len() implies (#[trigger] seconds@[j]) == met_by_any(
            xs@,
            ys@[j].outline(),
        ) by {
            assert(seconds@[j] == is_second(hits@, j));
        }
    }
    Crossing { firsts, seconds, pairs: hits.len() }
}

/// Sets each of `marks` whose fellow in `more` is set.
pub fn mark_also(marks: &mut Vec<bool>, more: &Vec<bool>)
    requires
        more@.len() == old(marks)@.len(),
    ensures
        final(marks)@.len() == old(marks)@.len(),
        forall|i: int|
            0 <= i < old(marks)@.len() ==> (#[trigger] final(marks)@[i]) == (old(marks)@[i]
                || more@[i]),
{
    let n: usize = marks.len();
    let mut i: usize = 0;
    while i < n
        invariant
            0 <= i <= n,
            n == marks@.len(),
            n == old(marks)@.len(),
            n == more@.len(),
            forall|k: int| 0 <= k < i ==> (#[trigger] marks@[k]) == (old(marks)@[k] || more@[k]),
            forall|k: int| i <= k < n ==> marks@[k] == old(marks)@[k],
        decreases n - i,
    {
        if more[i] {
            marks[i] = true;
        }
        i += 1;
    }
}

/// Whether `a` and `b` hold, member by member, the same outlines.
pub open spec fn same_outlines<T: Collidable>(a: Seq<T>, b: Seq<T>) -> bool {
    &&& a.len() == b.len()
    &&& forall|i: int| 0 <= i < a.len() ==> (#[trigger] a[i]).outline() == b[i].outline()
}

/// Whether an outline collides with one of a collection depends on the
/// collection's outlines alone.
pub proof fn lemma_meets_any_same<U: Collidable>(x: Seq<Segment>, ys: Seq<U>, zs: Seq<U>)
    requires
        same_outlines(ys, zs),
    ensures
        meets_any(x, ys) == meets_any(x, zs),
{
    if meets_any(x, ys) {
        let j = choose|j: int| 0 <= j < ys.len() && overlap(x, (#[trigger] ys[j]).outline());
        assert(overlap(x, zs[j].outline()));
    }
    if meets_any(x, zs) {
        let j = choose|j: int| 0 <= j < zs.len() && overlap(x, (#[trigger] zs[j]).outline());
        assert(ys[j].outline() == zs[j].outline());
        assert(overlap(x, ys[j].outline()));
    }
}

/// The number of members that collide with an outline depends on the
/// members' outlines alone.
pub proof fn lemma_row_hits_same<U: Collidable>(x: Seq<Segment>, ys: Seq<U>, zs: Seq<U>, m: int)
    requires
        same_outlines(ys, zs),
        m <= ys.len(),
    ensures
        row_hits(x, ys, m) == row_hits(x, zs, m),
    decreases m,
{
    if m > 0 {
        lemma_row_hits_same(x, ys, zs, m - 1);
        assert(ys[m - 1].outline() == zs[m - 1].outline());
    }
}

/// The number of colliding pairs depends on the outlines alone.
pub proof fn lemma_pair_hits_same<T: Collidable, U: Collidable>(
    xs: Seq<T>,
    ys: Seq<U>,
    zs: Seq<U>,
    n: int,
)
    requires
        same_outlines(ys, zs),
    ensures
        pair_hits(xs, ys, n) == pair_hits(xs, zs, n),
    decreases n,
{
    if n > 0 {
        lemma_pair_hits_same(xs, ys, zs, n - 1);
        lemma_row_hits_same(xs[n - 1].outline(), ys, zs, ys.len() as int);
    }
}

} // verus!
