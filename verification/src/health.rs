//! Liveness of entities, and the pass that removes the dead from a collection.

use vstd::prelude::*;

verus! {

/// The liveness flag of one entity: alive from construction until killed.
pub struct Health(bool);

impl Health {
    /// Whether this flag still says "alive".
    pub closed spec fn alive(&self) -> bool {
        self.0
    }

    pub fn new() -> (h: Self)
        ensures
            h.alive(),
    {
        Health(true)
    }

    pub fn kill(&mut self)
        ensures
            !final(self).alive(),
    {
        self.0 = false;
    }

    pub fn is_alive(&self) -> (r: bool)
        ensures
            r == self.alive(),
    {
        self.0
    }

    pub fn is_dead(&self) -> (r: bool)
        ensures
            r == !self.alive(),
    {
        !self.0
    }
}

/// Something whose liveness can be observed.
pub trait Alive {
    /// The liveness that `is_alive` reports.
    spec fn alive(&self) -> bool;

    fn is_alive(&self) -> (r: bool)
        ensures
            r == self.alive(),
    ;

    fn is_dead(&self) -> (r: bool)
        ensures
            r == !self.alive(),
    ;
}

/// Something that can be killed. A kill is final: nothing here revives.
pub trait Killable: Alive {
    /// Whether `self` is what a kill makes of `before`: dead, and in all else
    /// that the implementor speaks of as `before` was.
    spec fn killed_from(&self, before: &Self) -> bool;

    fn kill(&mut self)
        ensures
            !final(self).alive(),
            final(self).killed_from(old(self)),
    ;
}

/// A collection from which the dead can be removed.
pub trait Reapable {
    /// Whether this collection is `before` with its dead members removed and
    /// its living members kept in their order.
    spec fn reaped_from(&self, before: &Self) -> bool;

    fn reap(&mut self)
        ensures
            final(self).reaped_from(old(self)),
    ;
}

impl Alive for Health {
    open spec fn alive(&self) -> bool {
        Health::alive(self)
    }

    fn is_alive(&self) -> (r: bool) {
        Health::is_alive(self)
    }

    fn is_dead(&self) -> (r: bool) {
        Health::is_dead(self)
    }
}

impl Killable for Health {
    open spec fn killed_from(&self, before: &Self) -> bool {
        !Health::alive(self)
    }

    fn kill(&mut self) {
        Health::kill(self)
    }
}

/// The living members of `s`, in the order in which they stand in `s`.
pub open spec fn survivors<T: Alive>(s: Seq<T>) -> Seq<T> {
    s.filter(|e: T| e.alive())
}

/// Removes every dead member of `a` and keeps the living ones in their order.
pub fn reap<T: Alive>(a: &mut Vec<T>)
    ensures
        final(a)@ == survivors(old(a)@),
{
    let ghost orig = a@;
    let ghost mut seen: int = 0;
    let mut i: usize = 0;
    proof {
        assert(orig.take(0) =~= Seq::<T>::empty());
        assert(orig.skip(0) =~= orig);
    }
    while i < a.len()
        invariant
            0 <= seen <= orig.len(),
            i == survivors(orig.take(seen)).len(),
            a@ == survivors(orig.take(seen)) + orig.skip(seen),
        decreases orig.len() - seen,
    {
        let ghost kept = survivors(orig.take(seen));
        proof {
            assert(seen < orig.len());
            assert(a@[i as int] == orig[seen]);
            assert(orig.take(seen + 1) =~= orig.take(seen) + seq![orig[seen]]);
            Seq::filter_distributes_over_add(orig.take(seen), seq![orig[seen]], |e: T| e.alive());
            lemma_survivors_of_one(orig[seen]);
        }
        if a[i].is_dead() {
            a.remove(i);
            proof {
                assert(a@ =~= kept + orig.skip(seen + 1));
            }
        } else {
            proof {
                assert(a@ =~= (kept + seq![orig[seen]]) + orig.skip(seen + 1));
            }
            i += 1;
        }
        proof {
            seen = seen + 1;
        }
    }
    proof {
        assert(seen == orig.len());
        assert(orig.take(seen) =~= orig);
        assert(a@ =~= survivors(orig));
    }
}

proof fn lemma_survivors_of_one<T: Alive>(e: T)
    ensures
        survivors(seq![e]) == if e.alive() { seq![e] } else { Seq::<T>::empty() },
{
    let p = |x: T| x.alive();
    let s = seq![e];
    reveal_with_fuel(Seq::filter, 2);
    assert(s.drop_last() =~= Seq::<T>::empty());
    assert(s.last() == e);
    assert(s.filter(p) =~= if e.alive() { seq![e] } else { Seq::<T>::empty() });
}

impl<T: Alive> Reapable for Vec<T> {
    open spec fn reaped_from(&self, before: &Self) -> bool {
        self@ == survivors(before@)
    }

    fn reap(&mut self) {
        self::reap(self);
    }
}

/// Whether `after` is `before` with exactly the marked members killed and
/// every other member as it was.
pub open spec fn struck<T: Killable>(before: Seq<T>, after: Seq<T>, marks: Seq<bool>) -> bool {
    &&& after.len() == before.len()
    &&& forall|i: int|
        0 <= i < before.len() ==> if marks[i] {
            (#[trigger] after[i]).killed_from(&before[i])
        } else {
            after[i] == before[i]
        }
}

/// Kills each member of `xs` whose mark is set.
pub fn kill_marked<T: Killable>(xs: &mut Vec<T>, marks: &Vec<bool>)
    requires
        marks@.len() == old(xs)@.len(),
    ensures
        struck(old(xs)@, final(xs)@, marks@),
{
    let n: usize = xs.len();
    let mut i: usize = 0;
    while i < n
        invariant
            0 <= i <= n,
            n == xs@.len(),
            n == old(xs)@.len(),
            marks@.len() == n,
            forall|k: int|
                0 <= k < i ==> if marks@[k] {
                    (#[trigger] xs@[k]).killed_from(&old(xs)@[k])
                } else {
                    xs@[k] == old(xs)@[k]
                },
            forall|k: int| i <= k < n ==> xs@[k] == old(xs)@[k],
        decreases n - i,
    {
        if marks[i] {
            xs[i].kill();
        }
        i += 1;
    }
}

/// Whether every member of `s` is alive.
pub open spec fn all_alive<T: Alive>(s: Seq<T>) -> bool {
    forall|i: int| 0 <= i < s.len() ==> (#[trigger] s[i]).alive()
}

/// After a reap no dead member remains, nothing has come in that was not
/// there, and every living member is still there.
pub proof fn lemma_survivors<T: Alive>(s: Seq<T>)
    ensures
        all_alive(survivors(s)),
        survivors(s).len() <= s.len(),
        forall|i: int| 0 <= i < survivors(s).len() ==> s.contains(#[trigger] survivors(s)[i]),
        forall|i: int| 0 <= i < s.len() && s[i].alive() ==> survivors(s).contains(#[trigger] s[i]),
{
    let p = |e: T| e.alive();
    s.lemma_filter_len(p);
    assert forall|i: int| 0 <= i < survivors(s).len() implies (#[trigger] survivors(s)[i]).alive()
        && s.contains(survivors(s)[i]) by {
        s.lemma_filter_pred(p, i);
        assert(s.filter(p).contains(survivors(s)[i]));
        s.lemma_filter_contains_rev(p, survivors(s)[i]);
    }
    assert forall|i: int| 0 <= i < s.len() && s[i].alive() implies survivors(s).contains(
        #[trigger] s[i],
    ) by {
        s.lemma_filter_contains(p, i);
    }
}

/// A reap keeps the order: the survivors of two collections laid end to end
/// are the survivors of the first followed by those of the second.
pub proof fn lemma_survivors_in_order<T: Alive>(a: Seq<T>, b: Seq<T>)
    ensures
        survivors(a + b) == survivors(a) + survivors(b),
{
    Seq::filter_distributes_over_add(a, b, |e: T| e.alive());
}

/// A reap changes nothing where no one is dead.
pub proof fn lemma_survivors_of_living<T: Alive>(s: Seq<T>)
    requires
        all_alive(s),
    ensures
        survivors(s) == s,
    decreases s.len(),
{
    reveal_with_fuel(Seq::filter, 2);
    if s.len() > 0 {
        let rest = s.drop_last();
        assert(all_alive(rest)) by {
            assert forall|i: int| 0 <= i < rest.len() implies (#[trigger] rest[i]).alive() by {
                assert(rest[i] == s[i]);
            }
        }
        lemma_survivors_of_living(rest);
        assert(s.last().alive());
        assert(rest.push(s.last()) =~= s);
    } else {
        assert(survivors(s) =~= s);
    }
}

} // verus!
