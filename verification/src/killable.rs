//! Liveness as one capability, and a reap for collections of what has it.

use crate::health::Health;
use vstd::prelude::*;

verus! {

/// Something that lives until it is killed.
pub trait Kill {
    /// The liveness that `is_alive` reports.
    spec fn living(&self) -> bool;

    fn kill(&mut self)
        ensures
            !final(self).living(),
    ;

    fn is_alive(&self) -> (r: bool)
        ensures
            r == self.living(),
    ;

    fn is_dead(&self) -> (r: bool)
        ensures
            r == !self.living(),
    ;
}

/// A collection from which the dead can be removed.
pub trait Reap {
    /// Whether this collection is `before` with its dead members removed and
    /// its living members kept in their order.
    spec fn reaped_from(&self, before: &Self) -> bool;

    fn reap(&mut self)
        ensures
            final(self).reaped_from(old(self)),
    ;
}

impl Kill for Health {
    open spec fn living(&self) -> bool {
        self.alive()
    }

    fn kill(&mut self) {
        Health::kill(self)
    }

    fn is_alive(&self) -> (r: bool) {
        Health::is_alive(self)
    }

    fn is_dead(&self) -> (r: bool) {
        Health::is_dead(self)
    }
}

/// The living members of `s`, in the order in which they stand in `s`.
pub open spec fn living_of<T: Kill>(s: Seq<T>) -> Seq<T> {
    s.filter(|e: T| e.living())
}

impl<T: Kill> Reap for Vec<T> {
    open spec fn reaped_from(&self, before: &Self) -> bool {
        self@ == living_of(before@)
    }

    fn reap(&mut self) {
        let ghost orig = self@;
        let ghost mut seen: int = 0;
        let mut i: usize = 0;
        proof {
            assert(orig.take(0) =~= Seq::<T>::empty());
            assert(orig.skip(0) =~= orig);
        }
        while i < self.len()
            invariant
                0 <= seen <= orig.len(),
                i == living_of(orig.take(seen)).len(),
                self@ == living_of(orig.take(seen)) + orig.skip(seen),
            decreases orig.len() - seen,
        {
            let ghost kept = living_of(orig.take(seen));
            proof {
                assert(self@[i as int] == orig[seen]);
                assert(orig.take(seen + 1) =~= orig.take(seen) + seq![orig[seen]]);
                Seq::filter_distributes_over_add(
                    orig.take(seen),
                    seq![orig[seen]],
                    |e: T| e.living(),
                );
                lemma_living_of_one(orig[seen]);
            }
            if self[i].is_dead() {
                self.remove(i);
                proof {
                    assert(self@ =~= kept + orig.skip(seen + 1));
                }
            } else {
                proof {
                    assert(self@ =~= (kept + seq![orig[seen]]) + orig.skip(seen + 1));
                }
                i += 1;
            }
            proof {
                seen = seen + 1;
            }
        }
        proof {
            assert(orig.take(seen) =~= orig);
            assert(self@ =~= living_of(orig));
        }
    }
}

proof fn lemma_living_of_one<T: Kill>(e: T)
    ensures
        living_of(seq![e]) == if e.living() {
            seq![e]
        } else {
            Seq::<T>::empty()
        },
{
    let s = seq![e];
    reveal_with_fuel(Seq::filter, 2);
    assert(s.drop_last() =~= Seq::<T>::empty());
    assert(s.last() == e);
}

} // verus!
