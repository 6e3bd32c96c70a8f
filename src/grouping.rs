use vstd::prelude::*;
use crate::compose::comp;
use crate::invoke::{Invocable1, Invocable2};

verus! {

/// Composition of one-argument functions does not depend on grouping:
/// `(a ∘ b) ∘ c` and `a ∘ (b ∘ c)` accept the same arguments and give the same
/// results.
pub proof fn law_regroup<A, B, C, X, Y1, Y2, R>(fa: A, fb: B, fc: C, x: X, r: R) where
    A: Invocable1<Y2, Output = R>,
    B: Invocable1<Y1, Output = Y2>,
    C: Invocable1<X, Output = Y1>,
    ensures
        comp::<_, _, (Y1,), (X,)>(comp::<_, _, (Y2,), (Y1,)>(fa, fb), fc).accepts1(x)
            <==> comp::<_, _, (Y2,), (X,)>(fa, comp::<_, _, (Y1,), (X,)>(fb, fc)).accepts1(x),
        comp::<_, _, (Y1,), (X,)>(comp::<_, _, (Y2,), (Y1,)>(fa, fb), fc).yields1(x, r)
            <==> comp::<_, _, (Y2,), (X,)>(fa, comp::<_, _, (Y1,), (X,)>(fb, fc)).yields1(x, r),
{
    let left = comp::<_, _, (Y1,), (X,)>(comp::<_, _, (Y2,), (Y1,)>(fa, fb), fc);
    let right = comp::<_, _, (Y2,), (X,)>(fa, comp::<_, _, (Y1,), (X,)>(fb, fc));
    if left.accepts1(x) {
        assert forall|y2: Y2| right.inner.yields1(x, y2) implies fa.accepts1(y2) by {
            let y1 = choose|y1: Y1| fc.yields1(x, y1) && fb.yields1(y1, y2);
            assert(left.outer.accepts1(y1));
            assert(left.outer.inner.yields1(y1, y2));
        }
        assert forall|y1: Y1| fc.yields1(x, y1) implies fb.accepts1(y1) by {
            assert(left.inner.yields1(x, y1));
        }
        assert(right.inner.accepts1(x));
    }
    if right.accepts1(x) {
        assert forall|y1: Y1| left.inner.yields1(x, y1) implies left.outer.accepts1(y1) by {
            assert(right.inner.inner.yields1(x, y1));
            assert forall|y2: Y2| fb.yields1(y1, y2) implies fa.accepts1(y2) by {
                assert(right.inner.yields1(x, y2));
            }
        }
    }
    if left.yields1(x, r) {
        let y1 = choose|y1: Y1| fc.yields1(x, y1) && left.outer.yields1(y1, r);
        let y2 = choose|y2: Y2| fb.yields1(y1, y2) && fa.yields1(y2, r);
        assert(right.inner.inner.yields1(x, y1));
        assert(right.inner.yields1(x, y2));
    }
    if right.yields1(x, r) {
        let y2 = choose|y2: Y2| right.inner.yields1(x, y2) && fa.yields1(y2, r);
        let y1 = choose|y1: Y1| fc.yields1(x, y1) && fb.yields1(y1, y2);
        assert(left.outer.inner.yields1(y1, y2));
        assert(left.outer.yields1(y1, r));
        assert(left.inner.yields1(x, y1));
    }
}

/// Regrouping also leaves a curried composition unchanged: with a
/// one-argument `a`, a two-argument `b` and a one-argument `c`, both
/// `(a ∘ b) ∘ c` and `a ∘ (b ∘ c)` give `a(b(c(x2), x1))` for `(x1, x2)`.
pub proof fn law_regroup_curried<A, B, C, T, X, Y1, Y2, R>(fa: A, fb: B, fc: C, t: T, x: X, r: R) where
    A: Invocable1<Y2, Output = R>,
    B: Invocable2<Y1, T, Output = Y2>,
    C: Invocable1<X, Output = Y1>,
    ensures
        comp::<_, _, (Y1, T), (X,)>(comp::<_, _, (Y2,), (Y1, T)>(fa, fb), fc).yields2(t, x, r)
            <==> comp::<_, _, (Y2,), (T, X)>(fa, comp::<_, _, (Y1, T), (X,)>(fb, fc)).yields2(t, x, r),
        comp::<_, _, (Y2,), (T, X)>(fa, comp::<_, _, (Y1, T), (X,)>(fb, fc)).yields2(t, x, r)
            <==> exists|y1: Y1, y2: Y2| fc.yields1(x, y1) && fb.yields2(y1, t, y2) && fa.yields1(y2, r),
{
    let left = comp::<_, _, (Y1, T), (X,)>(comp::<_, _, (Y2,), (Y1, T)>(fa, fb), fc);
    let right = comp::<_, _, (Y2,), (T, X)>(fa, comp::<_, _, (Y1, T), (X,)>(fb, fc));
    if left.yields2(t, x, r) {
        let y1 = choose|y1: Y1| fc.yields1(x, y1) && left.outer.yields2(y1, t, r);
        let y2 = choose|y2: Y2| fb.yields2(y1, t, y2) && fa.yields1(y2, r);
        assert(right.inner.inner.yields1(x, y1));
        assert(right.inner.yields2(t, x, y2));
    }
    if right.yields2(t, x, r) {
        let y2 = choose|y2: Y2| right.inner.yields2(t, x, y2) && fa.yields1(y2, r);
        let y1 = choose|y1: Y1| fc.yields1(x, y1) && fb.yields2(y1, t, y2);
        assert(left.outer.inner.yields2(y1, t, y2));
        assert(left.outer.yields2(y1, t, r));
        assert(left.inner.yields1(x, y1));
    }
    if exists|y1: Y1, y2: Y2| fc.yields1(x, y1) && fb.yields2(y1, t, y2) && fa.yields1(y2, r) {
        let (y1, y2) = choose|y1: Y1, y2: Y2| fc.yields1(x, y1) && fb.yields2(y1, t, y2) && fa.yields1(y2, r);
        assert(right.inner.inner.yields1(x, y1));
        assert(right.inner.yields2(t, x, y2));
    }
}

} // verus!
