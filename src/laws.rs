//! Each combinator, called at a given argument shape, behaves as the nested calls that its
//! lambda form spells out: the composition accepts exactly the arguments for which every call
//! of the nesting is allowed, and gives exactly the results that the nesting can give.
//! Results are relations, so the laws hold for callables that are not deterministic too.

use vstd::prelude::*;
use crate::compose::{comp, Last};
use crate::invoke::{Invocable0, Invocable1, Invocable2, Invocable3, Invocable4};

verus! {

/// Bluebird, called as its lambda form reads, is the nested call `b(a, b, c)(x) = a(b(c(x)))`: it
/// accepts exactly the arguments for which every call in the nesting is allowed, and gives exactly
/// the results that the nesting can give.
pub proof fn law_b<A, B, C, X1, Y1, Y2, R>(fa: A, fb: B, fc: C, x1: X1, r: R) where
    A: Invocable1<Y2, Output = R>,
    B: Invocable1<Y1, Output = Y2>,
    C: Invocable1<X1, Output = Y1>,
    ensures
        comp::<_, _, (Y2,), (X1,)>(fa, comp::<_, _, (Y1,), (X1,)>(fb, fc)).accepts1(x1)
            <==> (fc.accepts1(x1) && forall|y1: Y1| fc.yields1(x1, y1) ==> (fb.accepts1(y1) && forall|y2: Y2| fb.yields1(y1, y2) ==> (fa.accepts1(y2)))),
        comp::<_, _, (Y2,), (X1,)>(fa, comp::<_, _, (Y1,), (X1,)>(fb, fc)).yields1(x1, r)
            <==> exists|y1: Y1, y2: Y2| fc.yields1(x1, y1) && fb.yields1(y1, y2) && fa.yields1(y2, r),
{
    let f = comp::<_, _, (Y2,), (X1,)>(fa, comp::<_, _, (Y1,), (X1,)>(fb, fc));
    assert forall|y1: Y1, y2: Y2| fc.yields1(x1, y1) && fb.yields1(y1, y2) implies f.inner.yields1(x1, y2) by {
        assert(f.inner.inner.yields1(x1, y1));
        assert(f.inner.outer.yields1(y1, y2));
    }
    if f.yields1(x1, r) {
        let y2 = choose|y2: Y2| f.inner.yields1(x1, y2) && f.outer.yields1(y2, r);
        let y1 = choose|y1: Y1| f.inner.inner.yields1(x1, y1) && f.inner.outer.yields1(y1, y2);
    }
    if exists|y1: Y1, y2: Y2| fc.yields1(x1, y1) && fb.yields1(y1, y2) && fa.yields1(y2, r) {
        let (y1, y2) = choose|y1: Y1, y2: Y2| fc.yields1(x1, y1) && fb.yields1(y1, y2) && fa.yields1(y2, r);
        assert(f.inner.inner.yields1(x1, y1));
        assert(f.inner.outer.yields1(y1, y2));
        assert(f.inner.yields1(x1, y2));
        assert(f.outer.yields1(y2, r));
        assert(f.yields1(x1, r));
    }
}

/// Blackbird, called as its lambda form reads, is the nested call `b1(a, b, c, d)(x1, x2) =
/// a(b(c(x1), d(x2)))`: it accepts exactly the arguments for which every call in the nesting is
/// allowed, and gives exactly the results that the nesting can give.
pub proof fn law_b1<A, B, C, D, X1, X2, Y1, Y2, Y3, R>(fa: A, fb: B, fc: C, fd: D, x1: X1, x2: X2, r: R) where
    A: Invocable1<Y3, Output = R>,
    B: Invocable2<Y2, Y1, Output = Y3>,
    C: Invocable1<X1, Output = Y2>,
    D: Invocable1<X2, Output = Y1>,
    ensures
        comp::<_, _, (Y3,), (X1, X2)>(fa, comp::<_, _, (Y1, X1), (X2,)>(comp::<_, _, (Y2, Y1), (X1,)>(fb, fc), fd)).accepts2(x1, x2)
            <==> (fd.accepts1(x2) && forall|y1: Y1| fd.yields1(x2, y1) ==> (fc.accepts1(x1) && forall|y2: Y2| fc.yields1(x1, y2) ==> (fb.accepts2(y2, y1) && forall|y3: Y3| fb.yields2(y2, y1, y3) ==> (fa.accepts1(y3))))),
        comp::<_, _, (Y3,), (X1, X2)>(fa, comp::<_, _, (Y1, X1), (X2,)>(comp::<_, _, (Y2, Y1), (X1,)>(fb, fc), fd)).yields2(x1, x2, r)
            <==> exists|y1: Y1, y2: Y2, y3: Y3| fd.yields1(x2, y1) && fc.yields1(x1, y2) && fb.yields2(y2, y1, y3) && fa.yields1(y3, r),
{
    let f = comp::<_, _, (Y3,), (X1, X2)>(fa, comp::<_, _, (Y1, X1), (X2,)>(comp::<_, _, (Y2, Y1), (X1,)>(fb, fc), fd));
    assert forall|y1: Y1, y2: Y2, y3: Y3| fd.yields1(x2, y1) && fc.yields1(x1, y2) && fb.yields2(y2, y1, y3) implies f.inner.yields2(x1, x2, y3) by {
        assert(f.inner.outer.inner.yields1(x1, y2));
        assert(f.inner.outer.outer.yields2(y2, y1, y3));
        assert(f.inner.outer.yields2(y1, x1, y3));
        assert(f.inner.inner.yields1(x2, y1));
    }
    if f.yields2(x1, x2, r) {
        let y3 = choose|y3: Y3| f.inner.yields2(x1, x2, y3) && f.outer.yields1(y3, r);
        let y1 = choose|y1: Y1| f.inner.inner.yields1(x2, y1) && f.inner.outer.yields2(y1, x1, y3);
        let y2 = choose|y2: Y2| f.inner.outer.inner.yields1(x1, y2) && f.inner.outer.outer.yields2(y2, y1, y3);
    }
    if exists|y1: Y1, y2: Y2, y3: Y3| fd.yields1(x2, y1) && fc.yields1(x1, y2) && fb.yields2(y2, y1, y3) && fa.yields1(y3, r) {
        let (y1, y2, y3) = choose|y1: Y1, y2: Y2, y3: Y3| fd.yields1(x2, y1) && fc.yields1(x1, y2) && fb.yields2(y2, y1, y3) && fa.yields1(y3, r);
        assert(f.inner.outer.inner.yields1(x1, y2));
        assert(f.inner.outer.outer.yields2(y2, y1, y3));
        assert(f.inner.outer.yields2(y1, x1, y3));
        assert(f.inner.inner.yields1(x2, y1));
        assert(f.inner.yields2(x1, x2, y3));
        assert(f.outer.yields1(y3, r));
        assert(f.yields2(x1, x2, r));
    }
}

/// Blackbird with one-argument callables only is the chain `b1(a, b, c, d)(x) = a(b(c(d(x))))`,
/// with the same callability and results.
pub proof fn law_b1_chain<A, B, C, D, X1, Y1, Y2, Y3, R>(fa: A, fb: B, fc: C, fd: D, x1: X1, r: R) where
    A: Invocable1<Y3, Output = R>,
    B: Invocable1<Y2, Output = Y3>,
    C: Invocable1<Y1, Output = Y2>,
    D: Invocable1<X1, Output = Y1>,
    ensures
        comp::<_, _, (Y3,), (X1,)>(fa, comp::<_, _, (Y1,), (X1,)>(comp::<_, _, (Y2,), (Y1,)>(fb, fc), fd)).accepts1(x1)
            <==> (fd.accepts1(x1) && forall|y1: Y1| fd.yields1(x1, y1) ==> (fc.accepts1(y1) && forall|y2: Y2| fc.yields1(y1, y2) ==> (fb.accepts1(y2) && forall|y3: Y3| fb.yields1(y2, y3) ==> (fa.accepts1(y3))))),
        comp::<_, _, (Y3,), (X1,)>(fa, comp::<_, _, (Y1,), (X1,)>(comp::<_, _, (Y2,), (Y1,)>(fb, fc), fd)).yields1(x1, r)
            <==> exists|y1: Y1, y2: Y2, y3: Y3| fd.yields1(x1, y1) && fc.yields1(y1, y2) && fb.yields1(y2, y3) && fa.yields1(y3, r),
{
    let f = comp::<_, _, (Y3,), (X1,)>(fa, comp::<_, _, (Y1,), (X1,)>(comp::<_, _, (Y2,), (Y1,)>(fb, fc), fd));
    assert forall|y1: Y1, y2: Y2, y3: Y3| fd.yields1(x1, y1) && fc.yields1(y1, y2) && fb.yields1(y2, y3) implies f.inner.yields1(x1, y3) by {
        assert(f.inner.outer.inner.yields1(y1, y2));
        assert(f.inner.outer.outer.yields1(y2, y3));
        assert(f.inner.outer.yields1(y1, y3));
        assert(f.inner.inner.yields1(x1, y1));
    }
    if f.yields1(x1, r) {
        let y3 = choose|y3: Y3| f.inner.yields1(x1, y3) && f.outer.yields1(y3, r);
        let y1 = choose|y1: Y1| f.inner.inner.yields1(x1, y1) && f.inner.outer.yields1(y1, y3);
        let y2 = choose|y2: Y2| f.inner.outer.inner.yields1(y1, y2) && f.inner.outer.outer.yields1(y2, y3);
    }
    if exists|y1: Y1, y2: Y2, y3: Y3| fd.yields1(x1, y1) && fc.yields1(y1, y2) && fb.yields1(y2, y3) && fa.yields1(y3, r) {
        let (y1, y2, y3) = choose|y1: Y1, y2: Y2, y3: Y3| fd.yields1(x1, y1) && fc.yields1(y1, y2) && fb.yields1(y2, y3) && fa.yields1(y3, r);
        assert(f.inner.outer.inner.yields1(y1, y2));
        assert(f.inner.outer.outer.yields1(y2, y3));
        assert(f.inner.outer.yields1(y1, y3));
        assert(f.inner.inner.yields1(x1, y1));
        assert(f.inner.yields1(x1, y3));
        assert(f.outer.yields1(y3, r));
        assert(f.yields1(x1, r));
    }
}

/// Bunting, called as its lambda form reads, is the nested call `b2(a, b, c, d, e)(x1, x2, x3) =
/// a(b(c(x1), d(x2), e(x3)))`: it accepts exactly the arguments for which every call in the nesting
/// is allowed, and gives exactly the results that the nesting can give.
pub proof fn law_b2<A, B, C, D, E, X1, X2, X3, Y1, Y2, Y3, Y4, R>(fa: A, fb: B, fc: C, fd: D, fe: E, x1: X1, x2: X2, x3: X3, r: R) where
    A: Invocable1<Y4, Output = R>,
    B: Invocable3<Y3, Y2, Y1, Output = Y4>,
    C: Invocable1<X1, Output = Y3>,
    D: Invocable1<X2, Output = Y2>,
    E: Invocable1<X3, Output = Y1>,
    ensures
        comp::<_, _, (Y4,), (X1, X2, X3)>(fa, comp::<_, _, (Y1, X1, X2), (X3,)>(comp::<_, _, (Y2, Y1, X1), (X2,)>(comp::<_, _, (Y3, Y2, Y1), (X1,)>(fb, fc), fd), fe)).accepts3(x1, x2, x3)
            <==> (fe.accepts1(x3) && forall|y1: Y1| fe.yields1(x3, y1) ==> (fd.accepts1(x2) && forall|y2: Y2| fd.yields1(x2, y2) ==> (fc.accepts1(x1) && forall|y3: Y3| fc.yields1(x1, y3) ==> (fb.accepts3(y3, y2, y1) && forall|y4: Y4| fb.yields3(y3, y2, y1, y4) ==> (fa.accepts1(y4)))))),
        comp::<_, _, (Y4,), (X1, X2, X3)>(fa, comp::<_, _, (Y1, X1, X2), (X3,)>(comp::<_, _, (Y2, Y1, X1), (X2,)>(comp::<_, _, (Y3, Y2, Y1), (X1,)>(fb, fc), fd), fe)).yields3(x1, x2, x3, r)
            <==> exists|y1: Y1, y2: Y2, y3: Y3, y4: Y4| fe.yields1(x3, y1) && fd.yields1(x2, y2) && fc.yields1(x1, y3) && fb.yields3(y3, y2, y1, y4) && fa.yields1(y4, r),
{
    let f = comp::<_, _, (Y4,), (X1, X2, X3)>(fa, comp::<_, _, (Y1, X1, X2), (X3,)>(comp::<_, _, (Y2, Y1, X1), (X2,)>(comp::<_, _, (Y3, Y2, Y1), (X1,)>(fb, fc), fd), fe));
    assert forall|y1: Y1, y2: Y2, y3: Y3, y4: Y4| fe.yields1(x3, y1) && fd.yields1(x2, y2) && fc.yields1(x1, y3) && fb.yields3(y3, y2, y1, y4) implies f.inner.yields3(x1, x2, x3, y4) by {
        assert(f.inner.outer.outer.inner.yields1(x1, y3));
        assert(f.inner.outer.outer.outer.yields3(y3, y2, y1, y4));
        assert(f.inner.outer.outer.yields3(y2, y1, x1, y4));
        assert(f.inner.outer.inner.yields1(x2, y2));
        assert(f.inner.outer.yields3(y1, x1, x2, y4));
        assert(f.inner.inner.yields1(x3, y1));
    }
    if f.yields3(x1, x2, x3, r) {
        let y4 = choose|y4: Y4| f.inner.yields3(x1, x2, x3, y4) && f.outer.yields1(y4, r);
        let y1 = choose|y1: Y1| f.inner.inner.yields1(x3, y1) && f.inner.outer.yields3(y1, x1, x2, y4);
        let y2 = choose|y2: Y2| f.inner.outer.inner.yields1(x2, y2) && f.inner.outer.outer.yields3(y2, y1, x1, y4);
        let y3 = choose|y3: Y3| f.inner.outer.outer.inner.yields1(x1, y3) && f.inner.outer.outer.outer.yields3(y3, y2, y1, y4);
    }
    if exists|y1: Y1, y2: Y2, y3: Y3, y4: Y4| fe.yields1(x3, y1) && fd.yields1(x2, y2) && fc.yields1(x1, y3) && fb.yields3(y3, y2, y1, y4) && fa.yields1(y4, r) {
        let (y1, y2, y3, y4) = choose|y1: Y1, y2: Y2, y3: Y3, y4: Y4| fe.yields1(x3, y1) && fd.yields1(x2, y2) && fc.yields1(x1, y3) && fb.yields3(y3, y2, y1, y4) && fa.yields1(y4, r);
        assert(f.inner.outer.outer.inner.yields1(x1, y3));
        assert(f.inner.outer.outer.outer.yields3(y3, y2, y1, y4));
        assert(f.inner.outer.outer.yields3(y2, y1, x1, y4));
        assert(f.inner.outer.inner.yields1(x2, y2));
        assert(f.inner.outer.yields3(y1, x1, x2, y4));
        assert(f.inner.inner.yields1(x3, y1));
        assert(f.inner.yields3(x1, x2, x3, y4));
        assert(f.outer.yields1(y4, r));
        assert(f.yields3(x1, x2, x3, r));
    }
}

/// Bunting with one-argument callables only is the chain `b2(a, b, c, d, e)(x) = a(b(c(d(e(x)))))`,
/// with the same callability and results.
pub proof fn law_b2_chain<A, B, C, D, E, X1, Y1, Y2, Y3, Y4, R>(fa: A, fb: B, fc: C, fd: D, fe: E, x1: X1, r: R) where
    A: Invocable1<Y4, Output = R>,
    B: Invocable1<Y3, Output = Y4>,
    C: Invocable1<Y2, Output = Y3>,
    D: Invocable1<Y1, Output = Y2>,
    E: Invocable1<X1, Output = Y1>,
    ensures
        comp::<_, _, (Y4,), (X1,)>(fa, comp::<_, _, (Y1,), (X1,)>(comp::<_, _, (Y2,), (Y1,)>(comp::<_, _, (Y3,), (Y2,)>(fb, fc), fd), fe)).accepts1(x1)
            <==> (fe.accepts1(x1) && forall|y1: Y1| fe.yields1(x1, y1) ==> (fd.accepts1(y1) && forall|y2: Y2| fd.yields1(y1, y2) ==> (fc.accepts1(y2) && forall|y3: Y3| fc.yields1(y2, y3) ==> (fb.accepts1(y3) && forall|y4: Y4| fb.yields1(y3, y4) ==> (fa.accepts1(y4)))))),
        comp::<_, _, (Y4,), (X1,)>(fa, comp::<_, _, (Y1,), (X1,)>(comp::<_, _, (Y2,), (Y1,)>(comp::<_, _, (Y3,), (Y2,)>(fb, fc), fd), fe)).yields1(x1, r)
            <==> exists|y1: Y1, y2: Y2, y3: Y3, y4: Y4| fe.yields1(x1, y1) && fd.yields1(y1, y2) && fc.yields1(y2, y3) && fb.yields1(y3, y4) && fa.yields1(y4, r),
{
    let f = comp::<_, _, (Y4,), (X1,)>(fa, comp::<_, _, (Y1,), (X1,)>(comp::<_, _, (Y2,), (Y1,)>(comp::<_, _, (Y3,), (Y2,)>(fb, fc), fd), fe));
    assert forall|y1: Y1, y2: Y2, y3: Y3, y4: Y4| fe.yields1(x1, y1) && fd.yields1(y1, y2) && fc.yields1(y2, y3) && fb.yields1(y3, y4) implies f.inner.yields1(x1, y4) by {
        assert(f.inner.outer.outer.inner.yields1(y2, y3));
        assert(f.inner.outer.outer.outer.yields1(y3, y4));
        assert(f.inner.outer.outer.yields1(y2, y4));
        assert(f.inner.outer.inner.yields1(y1, y2));
        assert(f.inner.outer.yields1(y1, y4));
        assert(f.inner.inner.yields1(x1, y1));
    }
    if f.yields1(x1, r) {
        let y4 = choose|y4: Y4| f.inner.yields1(x1, y4) && f.outer.yields1(y4, r);
        let y1 = choose|y1: Y1| f.inner.inner.yields1(x1, y1) && f.inner.outer.yields1(y1, y4);
        let y2 = choose|y2: Y2| f.inner.outer.inner.yields1(y1, y2) && f.inner.outer.outer.yields1(y2, y4);
        let y3 = choose|y3: Y3| f.inner.outer.outer.inner.yields1(y2, y3) && f.inner.outer.outer.outer.yields1(y3, y4);
    }
    if exists|y1: Y1, y2: Y2, y3: Y3, y4: Y4| fe.yields1(x1, y1) && fd.yields1(y1, y2) && fc.yields1(y2, y3) && fb.yields1(y3, y4) && fa.yields1(y4, r) {
        let (y1, y2, y3, y4) = choose|y1: Y1, y2: Y2, y3: Y3, y4: Y4| fe.yields1(x1, y1) && fd.yields1(y1, y2) && fc.yields1(y2, y3) && fb.yields1(y3, y4) && fa.yields1(y4, r);
        assert(f.inner.outer.outer.inner.yields1(y2, y3));
        assert(f.inner.outer.outer.outer.yields1(y3, y4));
        assert(f.inner.outer.outer.yields1(y2, y4));
        assert(f.inner.outer.inner.yields1(y1, y2));
        assert(f.inner.outer.yields1(y1, y4));
        assert(f.inner.inner.yields1(x1, y1));
        assert(f.inner.yields1(x1, y4));
        assert(f.outer.yields1(y4, r));
        assert(f.yields1(x1, r));
    }
}

/// Becard, called as its lambda form reads, is the nested call `b3(a, b, c, d)(x) = a(b(c(d(x))))`:
/// it accepts exactly the arguments for which every call in the nesting is allowed, and gives
/// exactly the results that the nesting can give.
pub proof fn law_b3<A, B, C, D, X1, Y1, Y2, Y3, R>(fa: A, fb: B, fc: C, fd: D, x1: X1, r: R) where
    A: Invocable1<Y3, Output = R>,
    B: Invocable1<Y2, Output = Y3>,
    C: Invocable1<Y1, Output = Y2>,
    D: Invocable1<X1, Output = Y1>,
    ensures
        comp::<_, _, (Y3,), (X1,)>(fa, comp::<_, _, (Y2,), (X1,)>(fb, comp::<_, _, (Y1,), (X1,)>(fc, fd))).accepts1(x1)
            <==> (fd.accepts1(x1) && forall|y1: Y1| fd.yields1(x1, y1) ==> (fc.accepts1(y1) && forall|y2: Y2| fc.yields1(y1, y2) ==> (fb.accepts1(y2) && forall|y3: Y3| fb.yields1(y2, y3) ==> (fa.accepts1(y3))))),
        comp::<_, _, (Y3,), (X1,)>(fa, comp::<_, _, (Y2,), (X1,)>(fb, comp::<_, _, (Y1,), (X1,)>(fc, fd))).yields1(x1, r)
            <==> exists|y1: Y1, y2: Y2, y3: Y3| fd.yields1(x1, y1) && fc.yields1(y1, y2) && fb.yields1(y2, y3) && fa.yields1(y3, r),
{
    let f = comp::<_, _, (Y3,), (X1,)>(fa, comp::<_, _, (Y2,), (X1,)>(fb, comp::<_, _, (Y1,), (X1,)>(fc, fd)));
    assert forall|y1: Y1, y2: Y2, y3: Y3| fd.yields1(x1, y1) && fc.yields1(y1, y2) && fb.yields1(y2, y3) implies f.inner.yields1(x1, y3) by {
        assert(f.inner.inner.inner.yields1(x1, y1));
        assert(f.inner.inner.outer.yields1(y1, y2));
        assert(f.inner.inner.yields1(x1, y2));
        assert(f.inner.outer.yields1(y2, y3));
    }
    assert forall|y1: Y1, y2: Y2| fd.yields1(x1, y1) && fc.yields1(y1, y2) implies f.inner.inner.yields1(x1, y2) by {
        assert(f.inner.inner.inner.yields1(x1, y1));
        assert(f.inner.inner.outer.yields1(y1, y2));
    }
    if f.yields1(x1, r) {
        let y3 = choose|y3: Y3| f.inner.yields1(x1, y3) && f.outer.yields1(y3, r);
        let y2 = choose|y2: Y2| f.inner.inner.yields1(x1, y2) && f.inner.outer.yields1(y2, y3);
        let y1 = choose|y1: Y1| f.inner.inner.inner.yields1(x1, y1) && f.inner.inner.outer.yields1(y1, y2);
    }
    if exists|y1: Y1, y2: Y2, y3: Y3| fd.yields1(x1, y1) && fc.yields1(y1, y2) && fb.yields1(y2, y3) && fa.yields1(y3, r) {
        let (y1, y2, y3) = choose|y1: Y1, y2: Y2, y3: Y3| fd.yields1(x1, y1) && fc.yields1(y1, y2) && fb.yields1(y2, y3) && fa.yields1(y3, r);
        assert(f.inner.inner.inner.yields1(x1, y1));
        assert(f.inner.inner.outer.yields1(y1, y2));
        assert(f.inner.inner.yields1(x1, y2));
        assert(f.inner.outer.yields1(y2, y3));
        assert(f.inner.yields1(x1, y3));
        assert(f.outer.yields1(y3, r));
        assert(f.yields1(x1, r));
    }
}

/// Cardinal, called as its lambda form reads, is the nested call `c(a, b, c)(x1, x2) = a(c(x1),
/// b(x2))`: it accepts exactly the arguments for which every call in the nesting is allowed, and
/// gives exactly the results that the nesting can give.
pub proof fn law_c<A, B, C, X1, X2, Y1, Y2, R>(fa: A, fb: B, fc: C, x1: X1, x2: X2, r: R) where
    A: Invocable2<Y2, Y1, Output = R>,
    B: Invocable1<X2, Output = Y1>,
    C: Invocable1<X1, Output = Y2>,
    ensures
        comp::<_, _, (Y1, X1), (X2,)>(comp::<_, _, (Y2, Y1), (X1,)>(fa, fc), fb).accepts2(x1, x2)
            <==> (fb.accepts1(x2) && forall|y1: Y1| fb.yields1(x2, y1) ==> (fc.accepts1(x1) && forall|y2: Y2| fc.yields1(x1, y2) ==> (fa.accepts2(y2, y1)))),
        comp::<_, _, (Y1, X1), (X2,)>(comp::<_, _, (Y2, Y1), (X1,)>(fa, fc), fb).yields2(x1, x2, r)
            <==> exists|y1: Y1, y2: Y2| fb.yields1(x2, y1) && fc.yields1(x1, y2) && fa.yields2(y2, y1, r),
{
    let f = comp::<_, _, (Y1, X1), (X2,)>(comp::<_, _, (Y2, Y1), (X1,)>(fa, fc), fb);
    if f.yields2(x1, x2, r) {
        let y1 = choose|y1: Y1| f.inner.yields1(x2, y1) && f.outer.yields2(y1, x1, r);
        let y2 = choose|y2: Y2| f.outer.inner.yields1(x1, y2) && f.outer.outer.yields2(y2, y1, r);
    }
    if exists|y1: Y1, y2: Y2| fb.yields1(x2, y1) && fc.yields1(x1, y2) && fa.yields2(y2, y1, r) {
        let (y1, y2) = choose|y1: Y1, y2: Y2| fb.yields1(x2, y1) && fc.yields1(x1, y2) && fa.yields2(y2, y1, r);
        assert(f.outer.inner.yields1(x1, y2));
        assert(f.outer.outer.yields2(y2, y1, r));
        assert(f.outer.yields2(y1, x1, r));
        assert(f.inner.yields1(x2, y1));
        assert(f.yields2(x1, x2, r));
    }
}

/// Cardinal with one-argument callables only is the chain `c(a, b, c)(x) = a(c(b(x)))`, with the
/// same callability and results.
pub proof fn law_c_chain<A, B, C, X1, Y1, Y2, R>(fa: A, fb: B, fc: C, x1: X1, r: R) where
    A: Invocable1<Y2, Output = R>,
    B: Invocable1<X1, Output = Y1>,
    C: Invocable1<Y1, Output = Y2>,
    ensures
        comp::<_, _, (Y1,), (X1,)>(comp::<_, _, (Y2,), (Y1,)>(fa, fc), fb).accepts1(x1)
            <==> (fb.accepts1(x1) && forall|y1: Y1| fb.yields1(x1, y1) ==> (fc.accepts1(y1) && forall|y2: Y2| fc.yields1(y1, y2) ==> (fa.accepts1(y2)))),
        comp::<_, _, (Y1,), (X1,)>(comp::<_, _, (Y2,), (Y1,)>(fa, fc), fb).yields1(x1, r)
            <==> exists|y1: Y1, y2: Y2| fb.yields1(x1, y1) && fc.yields1(y1, y2) && fa.yields1(y2, r),
{
    let f = comp::<_, _, (Y1,), (X1,)>(comp::<_, _, (Y2,), (Y1,)>(fa, fc), fb);
    if f.yields1(x1, r) {
        let y1 = choose|y1: Y1| f.inner.yields1(x1, y1) && f.outer.yields1(y1, r);
        let y2 = choose|y2: Y2| f.outer.inner.yields1(y1, y2) && f.outer.outer.yields1(y2, r);
    }
    if exists|y1: Y1, y2: Y2| fb.yields1(x1, y1) && fc.yields1(y1, y2) && fa.yields1(y2, r) {
        let (y1, y2) = choose|y1: Y1, y2: Y2| fb.yields1(x1, y1) && fc.yields1(y1, y2) && fa.yields1(y2, r);
        assert(f.outer.inner.yields1(y1, y2));
        assert(f.outer.outer.yields1(y2, r));
        assert(f.outer.yields1(y1, r));
        assert(f.inner.yields1(x1, y1));
        assert(f.yields1(x1, r));
    }
}

/// Dove, called as its lambda form reads, is the nested call `d(a, b, c, d)(x1, x2) = a(b(x1),
/// c(d(x2)))`: it accepts exactly the arguments for which every call in the nesting is allowed, and
/// gives exactly the results that the nesting can give.
pub proof fn law_d<A, B, C, D, X1, X2, Y1, Y2, Y3, R>(fa: A, fb: B, fc: C, fd: D, x1: X1, x2: X2, r: R) where
    A: Invocable2<Y3, Y2, Output = R>,
    B: Invocable1<X1, Output = Y3>,
    C: Invocable1<Y1, Output = Y2>,
    D: Invocable1<X2, Output = Y1>,
    ensures
        comp::<_, _, (Y2, X1), (X2,)>(comp::<_, _, (Y3, Y2), (X1,)>(fa, fb), comp::<_, _, (Y1,), (X2,)>(fc, fd)).accepts2(x1, x2)
            <==> (fd.accepts1(x2) && forall|y1: Y1| fd.yields1(x2, y1) ==> (fc.accepts1(y1) && forall|y2: Y2| fc.yields1(y1, y2) ==> (fb.accepts1(x1) && forall|y3: Y3| fb.yields1(x1, y3) ==> (fa.accepts2(y3, y2))))),
        comp::<_, _, (Y2, X1), (X2,)>(comp::<_, _, (Y3, Y2), (X1,)>(fa, fb), comp::<_, _, (Y1,), (X2,)>(fc, fd)).yields2(x1, x2, r)
            <==> exists|y1: Y1, y2: Y2, y3: Y3| fd.yields1(x2, y1) && fc.yields1(y1, y2) && fb.yields1(x1, y3) && fa.yields2(y3, y2, r),
{
    let f = comp::<_, _, (Y2, X1), (X2,)>(comp::<_, _, (Y3, Y2), (X1,)>(fa, fb), comp::<_, _, (Y1,), (X2,)>(fc, fd));
    assert forall|y1: Y1, y2: Y2| fd.yields1(x2, y1) && fc.yields1(y1, y2) implies f.inner.yields1(x2, y2) by {
        assert(f.inner.inner.yields1(x2, y1));
        assert(f.inner.outer.yields1(y1, y2));
    }
    if f.yields2(x1, x2, r) {
        let y2 = choose|y2: Y2| f.inner.yields1(x2, y2) && f.outer.yields2(y2, x1, r);
        let y1 = choose|y1: Y1| f.inner.inner.yields1(x2, y1) && f.inner.outer.yields1(y1, y2);
        let y3 = choose|y3: Y3| f.outer.inner.yields1(x1, y3) && f.outer.outer.yields2(y3, y2, r);
    }
    if exists|y1: Y1, y2: Y2, y3: Y3| fd.yields1(x2, y1) && fc.yields1(y1, y2) && fb.yields1(x1, y3) && fa.yields2(y3, y2, r) {
        let (y1, y2, y3) = choose|y1: Y1, y2: Y2, y3: Y3| fd.yields1(x2, y1) && fc.yields1(y1, y2) && fb.yields1(x1, y3) && fa.yields2(y3, y2, r);
        assert(f.inner.inner.yields1(x2, y1));
        assert(f.inner.outer.yields1(y1, y2));
        assert(f.inner.yields1(x2, y2));
        assert(f.outer.inner.yields1(x1, y3));
        assert(f.outer.outer.yields2(y3, y2, r));
        assert(f.outer.yields2(y2, x1, r));
        assert(f.yields2(x1, x2, r));
    }
}

/// Dove with one-argument callables only is the chain `d(a, b, c, d)(x) = a(b(c(d(x))))`, with the
/// same callability and results.
pub proof fn law_d_chain<A, B, C, D, X1, Y1, Y2, Y3, R>(fa: A, fb: B, fc: C, fd: D, x1: X1, r: R) where
    A: Invocable1<Y3, Output = R>,
    B: Invocable1<Y2, Output = Y3>,
    C: Invocable1<Y1, Output = Y2>,
    D: Invocable1<X1, Output = Y1>,
    ensures
        comp::<_, _, (Y2,), (X1,)>(comp::<_, _, (Y3,), (Y2,)>(fa, fb), comp::<_, _, (Y1,), (X1,)>(fc, fd)).accepts1(x1)
            <==> (fd.accepts1(x1) && forall|y1: Y1| fd.yields1(x1, y1) ==> (fc.accepts1(y1) && forall|y2: Y2| fc.yields1(y1, y2) ==> (fb.accepts1(y2) && forall|y3: Y3| fb.yields1(y2, y3) ==> (fa.accepts1(y3))))),
        comp::<_, _, (Y2,), (X1,)>(comp::<_, _, (Y3,), (Y2,)>(fa, fb), comp::<_, _, (Y1,), (X1,)>(fc, fd)).yields1(x1, r)
            <==> exists|y1: Y1, y2: Y2, y3: Y3| fd.yields1(x1, y1) && fc.yields1(y1, y2) && fb.yields1(y2, y3) && fa.yields1(y3, r),
{
    let f = comp::<_, _, (Y2,), (X1,)>(comp::<_, _, (Y3,), (Y2,)>(fa, fb), comp::<_, _, (Y1,), (X1,)>(fc, fd));
    assert forall|y1: Y1, y2: Y2| fd.yields1(x1, y1) && fc.yields1(y1, y2) implies f.inner.yields1(x1, y2) by {
        assert(f.inner.inner.yields1(x1, y1));
        assert(f.inner.outer.yields1(y1, y2));
    }
    if f.yields1(x1, r) {
        let y2 = choose|y2: Y2| f.inner.yields1(x1, y2) && f.outer.yields1(y2, r);
        let y1 = choose|y1: Y1| f.inner.inner.yields1(x1, y1) && f.inner.outer.yields1(y1, y2);
        let y3 = choose|y3: Y3| f.outer.inner.yields1(y2, y3) && f.outer.outer.yields1(y3, r);
    }
    if exists|y1: Y1, y2: Y2, y3: Y3| fd.yields1(x1, y1) && fc.yields1(y1, y2) && fb.yields1(y2, y3) && fa.yields1(y3, r) {
        let (y1, y2, y3) = choose|y1: Y1, y2: Y2, y3: Y3| fd.yields1(x1, y1) && fc.yields1(y1, y2) && fb.yields1(y2, y3) && fa.yields1(y3, r);
        assert(f.inner.inner.yields1(x1, y1));
        assert(f.inner.outer.yields1(y1, y2));
        assert(f.inner.yields1(x1, y2));
        assert(f.outer.inner.yields1(y2, y3));
        assert(f.outer.outer.yields1(y3, r));
        assert(f.outer.yields1(y2, r));
        assert(f.yields1(x1, r));
    }
}

/// Dickcissel, called as its lambda form reads, is the nested call `d1(a, b, c, d, e)(x1, x2, x3) =
/// a(b(x1), c(x2), d(e(x3)))`: it accepts exactly the arguments for which every call in the nesting
/// is allowed, and gives exactly the results that the nesting can give.
pub proof fn law_d1<A, B, C, D, E, X1, X2, X3, Y1, Y2, Y3, Y4, R>(fa: A, fb: B, fc: C, fd: D, fe: E, x1: X1, x2: X2, x3: X3, r: R) where
    A: Invocable3<Y4, Y3, Y2, Output = R>,
    B: Invocable1<X1, Output = Y4>,
    C: Invocable1<X2, Output = Y3>,
    D: Invocable1<Y1, Output = Y2>,
    E: Invocable1<X3, Output = Y1>,
    ensures
        comp::<_, _, (Y2, X1, X2), (X3,)>(comp::<_, _, (Y3, Y2, X1), (X2,)>(comp::<_, _, (Y4, Y3, Y2), (X1,)>(fa, fb), fc), comp::<_, _, (Y1,), (X3,)>(fd, fe)).accepts3(x1, x2, x3)
            <==> (fe.accepts1(x3) && forall|y1: Y1| fe.yields1(x3, y1) ==> (fd.accepts1(y1) && forall|y2: Y2| fd.yields1(y1, y2) ==> (fc.accepts1(x2) && forall|y3: Y3| fc.yields1(x2, y3) ==> (fb.accepts1(x1) && forall|y4: Y4| fb.yields1(x1, y4) ==> (fa.accepts3(y4, y3, y2)))))),
        comp::<_, _, (Y2, X1, X2), (X3,)>(comp::<_, _, (Y3, Y2, X1), (X2,)>(comp::<_, _, (Y4, Y3, Y2), (X1,)>(fa, fb), fc), comp::<_, _, (Y1,), (X3,)>(fd, fe)).yields3(x1, x2, x3, r)
            <==> exists|y1: Y1, y2: Y2, y3: Y3, y4: Y4| fe.yields1(x3, y1) && fd.yields1(y1, y2) && fc.yields1(x2, y3) && fb.yields1(x1, y4) && fa.yields3(y4, y3, y2, r),
{
    let f = comp::<_, _, (Y2, X1, X2), (X3,)>(comp::<_, _, (Y3, Y2, X1), (X2,)>(comp::<_, _, (Y4, Y3, Y2), (X1,)>(fa, fb), fc), comp::<_, _, (Y1,), (X3,)>(fd, fe));
    assert forall|y1: Y1, y2: Y2| fe.yields1(x3, y1) && fd.yields1(y1, y2) implies f.inner.yields1(x3, y2) by {
        assert(f.inner.inner.yields1(x3, y1));
        assert(f.inner.outer.yields1(y1, y2));
    }
    if f.yields3(x1, x2, x3, r) {
        let y2 = choose|y2: Y2| f.inner.yields1(x3, y2) && f.outer.yields3(y2, x1, x2, r);
        let y1 = choose|y1: Y1| f.inner.inner.yields1(x3, y1) && f.inner.outer.yields1(y1, y2);
        let y3 = choose|y3: Y3| f.outer.inner.yields1(x2, y3) && f.outer.outer.yields3(y3, y2, x1, r);
        let y4 = choose|y4: Y4| f.outer.outer.inner.yields1(x1, y4) && f.outer.outer.outer.yields3(y4, y3, y2, r);
    }
    if exists|y1: Y1, y2: Y2, y3: Y3, y4: Y4| fe.yields1(x3, y1) && fd.yields1(y1, y2) && fc.yields1(x2, y3) && fb.yields1(x1, y4) && fa.yields3(y4, y3, y2, r) {
        let (y1, y2, y3, y4) = choose|y1: Y1, y2: Y2, y3: Y3, y4: Y4| fe.yields1(x3, y1) && fd.yields1(y1, y2) && fc.yields1(x2, y3) && fb.yields1(x1, y4) && fa.yields3(y4, y3, y2, r);
        assert(f.inner.inner.yields1(x3, y1));
        assert(f.inner.outer.yields1(y1, y2));
        assert(f.inner.yields1(x3, y2));
        assert(f.outer.outer.inner.yields1(x1, y4));
        assert(f.outer.outer.outer.yields3(y4, y3, y2, r));
        assert(f.outer.outer.yields3(y3, y2, x1, r));
        assert(f.outer.inner.yields1(x2, y3));
        assert(f.outer.yields3(y2, x1, x2, r));
        assert(f.yields3(x1, x2, x3, r));
    }
}

/// Dickcissel with one-argument callables only is the chain `d1(a, b, c, d, e)(x) =
/// a(b(c(d(e(x)))))`, with the same callability and results.
pub proof fn law_d1_chain<A, B, C, D, E, X1, Y1, Y2, Y3, Y4, R>(fa: A, fb: B, fc: C, fd: D, fe: E, x1: X1, r: R) where
    A: Invocable1<Y4, Output = R>,
    B: Invocable1<Y3, Output = Y4>,
    C: Invocable1<Y2, Output = Y3>,
    D: Invocable1<Y1, Output = Y2>,
    E: Invocable1<X1, Output = Y1>,
    ensures
        comp::<_, _, (Y2,), (X1,)>(comp::<_, _, (Y3,), (Y2,)>(comp::<_, _, (Y4,), (Y3,)>(fa, fb), fc), comp::<_, _, (Y1,), (X1,)>(fd, fe)).accepts1(x1)
            <==> (fe.accepts1(x1) && forall|y1: Y1| fe.yields1(x1, y1) ==> (fd.accepts1(y1) && forall|y2: Y2| fd.yields1(y1, y2) ==> (fc.accepts1(y2) && forall|y3: Y3| fc.yields1(y2, y3) ==> (fb.accepts1(y3) && forall|y4: Y4| fb.yields1(y3, y4) ==> (fa.accepts1(y4)))))),
        comp::<_, _, (Y2,), (X1,)>(comp::<_, _, (Y3,), (Y2,)>(comp::<_, _, (Y4,), (Y3,)>(fa, fb), fc), comp::<_, _, (Y1,), (X1,)>(fd, fe)).yields1(x1, r)
            <==> exists|y1: Y1, y2: Y2, y3: Y3, y4: Y4| fe.yields1(x1, y1) && fd.yields1(y1, y2) && fc.yields1(y2, y3) && fb.yields1(y3, y4) && fa.yields1(y4, r),
{
    let f = comp::<_, _, (Y2,), (X1,)>(comp::<_, _, (Y3,), (Y2,)>(comp::<_, _, (Y4,), (Y3,)>(fa, fb), fc), comp::<_, _, (Y1,), (X1,)>(fd, fe));
    assert forall|y1: Y1, y2: Y2| fe.yields1(x1, y1) && fd.yields1(y1, y2) implies f.inner.yields1(x1, y2) by {
        assert(f.inner.inner.yields1(x1, y1));
        assert(f.inner.outer.yields1(y1, y2));
    }
    if f.yields1(x1, r) {
        let y2 = choose|y2: Y2| f.inner.yields1(x1, y2) && f.outer.yields1(y2, r);
        let y1 = choose|y1: Y1| f.inner.inner.yields1(x1, y1) && f.inner.outer.yields1(y1, y2);
        let y3 = choose|y3: Y3| f.outer.inner.yields1(y2, y3) && f.outer.outer.yields1(y3, r);
        let y4 = choose|y4: Y4| f.outer.outer.inner.yields1(y3, y4) && f.outer.outer.outer.yields1(y4, r);
    }
    if exists|y1: Y1, y2: Y2, y3: Y3, y4: Y4| fe.yields1(x1, y1) && fd.yields1(y1, y2) && fc.yields1(y2, y3) && fb.yields1(y3, y4) && fa.yields1(y4, r) {
        let (y1, y2, y3, y4) = choose|y1: Y1, y2: Y2, y3: Y3, y4: Y4| fe.yields1(x1, y1) && fd.yields1(y1, y2) && fc.yields1(y2, y3) && fb.yields1(y3, y4) && fa.yields1(y4, r);
        assert(f.inner.inner.yields1(x1, y1));
        assert(f.inner.outer.yields1(y1, y2));
        assert(f.inner.yields1(x1, y2));
        assert(f.outer.outer.inner.yields1(y3, y4));
        assert(f.outer.outer.outer.yields1(y4, r));
        assert(f.outer.outer.yields1(y3, r));
        assert(f.outer.inner.yields1(y2, y3));
        assert(f.outer.yields1(y2, r));
        assert(f.yields1(x1, r));
    }
}

/// Dovekies, called as its lambda form reads, is the nested call `d2(a, b, c, d, e)(x1, x2) =
/// a(b(c(x1)), d(e(x2)))`: it accepts exactly the arguments for which every call in the nesting is
/// allowed, and gives exactly the results that the nesting can give.
pub proof fn law_d2<A, B, C, D, E, X1, X2, Y1, Y2, Y3, Y4, R>(fa: A, fb: B, fc: C, fd: D, fe: E, x1: X1, x2: X2, r: R) where
    A: Invocable2<Y4, Y2, Output = R>,
    B: Invocable1<Y3, Output = Y4>,
    C: Invocable1<X1, Output = Y3>,
    D: Invocable1<Y1, Output = Y2>,
    E: Invocable1<X2, Output = Y1>,
    ensures
        comp::<_, _, (Y2, X1), (X2,)>(comp::<_, _, (Y4, Y2), (X1,)>(fa, comp::<_, _, (Y3,), (X1,)>(fb, fc)), comp::<_, _, (Y1,), (X2,)>(fd, fe)).accepts2(x1, x2)
            <==> (fe.accepts1(x2) && forall|y1: Y1| fe.yields1(x2, y1) ==> (fd.accepts1(y1) && forall|y2: Y2| fd.yields1(y1, y2) ==> (fc.accepts1(x1) && forall|y3: Y3| fc.yields1(x1, y3) ==> (fb.accepts1(y3) && forall|y4: Y4| fb.yields1(y3, y4) ==> (fa.accepts2(y4, y2)))))),
        comp::<_, _, (Y2, X1), (X2,)>(comp::<_, _, (Y4, Y2), (X1,)>(fa, comp::<_, _, (Y3,), (X1,)>(fb, fc)), comp::<_, _, (Y1,), (X2,)>(fd, fe)).yields2(x1, x2, r)
            <==> exists|y1: Y1, y2: Y2, y3: Y3, y4: Y4| fe.yields1(x2, y1) && fd.yields1(y1, y2) && fc.yields1(x1, y3) && fb.yields1(y3, y4) && fa.yields2(y4, y2, r),
{
    let f = comp::<_, _, (Y2, X1), (X2,)>(comp::<_, _, (Y4, Y2), (X1,)>(fa, comp::<_, _, (Y3,), (X1,)>(fb, fc)), comp::<_, _, (Y1,), (X2,)>(fd, fe));
    assert forall|y1: Y1, y2: Y2| fe.yields1(x2, y1) && fd.yields1(y1, y2) implies f.inner.yields1(x2, y2) by {
        assert(f.inner.inner.yields1(x2, y1));
        assert(f.inner.outer.yields1(y1, y2));
    }
    assert forall|y3: Y3, y4: Y4| fc.yields1(x1, y3) && fb.yields1(y3, y4) implies f.outer.inner.yields1(x1, y4) by {
        assert(f.outer.inner.inner.yields1(x1, y3));
        assert(f.outer.inner.outer.yields1(y3, y4));
    }
    if f.yields2(x1, x2, r) {
        let y2 = choose|y2: Y2| f.inner.yields1(x2, y2) && f.outer.yields2(y2, x1, r);
        let y1 = choose|y1: Y1| f.inner.inner.yields1(x2, y1) && f.inner.outer.yields1(y1, y2);
        let y4 = choose|y4: Y4| f.outer.inner.yields1(x1, y4) && f.outer.outer.yields2(y4, y2, r);
        let y3 = choose|y3: Y3| f.outer.inner.inner.yields1(x1, y3) && f.outer.inner.outer.yields1(y3, y4);
    }
    if exists|y1: Y1, y2: Y2, y3: Y3, y4: Y4| fe.yields1(x2, y1) && fd.yields1(y1, y2) && fc.yields1(x1, y3) && fb.yields1(y3, y4) && fa.yields2(y4, y2, r) {
        let (y1, y2, y3, y4) = choose|y1: Y1, y2: Y2, y3: Y3, y4: Y4| fe.yields1(x2, y1) && fd.yields1(y1, y2) && fc.yields1(x1, y3) && fb.yields1(y3, y4) && fa.yields2(y4, y2, r);
        assert(f.inner.inner.yields1(x2, y1));
        assert(f.inner.outer.yields1(y1, y2));
        assert(f.inner.yields1(x2, y2));
        assert(f.outer.inner.inner.yields1(x1, y3));
        assert(f.outer.inner.outer.yields1(y3, y4));
        assert(f.outer.inner.yields1(x1, y4));
        assert(f.outer.outer.yields2(y4, y2, r));
        assert(f.outer.yields2(y2, x1, r));
        assert(f.yields2(x1, x2, r));
    }
}

/// Dovekies with one-argument callables only is the chain `d2(a, b, c, d, e)(x) =
/// a(b(c(d(e(x)))))`, with the same callability and results.
pub proof fn law_d2_chain<A, B, C, D, E, X1, Y1, Y2, Y3, Y4, R>(fa: A, fb: B, fc: C, fd: D, fe: E, x1: X1, r: R) where
    A: Invocable1<Y4, Output = R>,
    B: Invocable1<Y3, Output = Y4>,
    C: Invocable1<Y2, Output = Y3>,
    D: Invocable1<Y1, Output = Y2>,
    E: Invocable1<X1, Output = Y1>,
    ensures
        comp::<_, _, (Y2,), (X1,)>(comp::<_, _, (Y4,), (Y2,)>(fa, comp::<_, _, (Y3,), (Y2,)>(fb, fc)), comp::<_, _, (Y1,), (X1,)>(fd, fe)).accepts1(x1)
            <==> (fe.accepts1(x1) && forall|y1: Y1| fe.yields1(x1, y1) ==> (fd.accepts1(y1) && forall|y2: Y2| fd.yields1(y1, y2) ==> (fc.accepts1(y2) && forall|y3: Y3| fc.yields1(y2, y3) ==> (fb.accepts1(y3) && forall|y4: Y4| fb.yields1(y3, y4) ==> (fa.accepts1(y4)))))),
        comp::<_, _, (Y2,), (X1,)>(comp::<_, _, (Y4,), (Y2,)>(fa, comp::<_, _, (Y3,), (Y2,)>(fb, fc)), comp::<_, _, (Y1,), (X1,)>(fd, fe)).yields1(x1, r)
            <==> exists|y1: Y1, y2: Y2, y3: Y3, y4: Y4| fe.yields1(x1, y1) && fd.yields1(y1, y2) && fc.yields1(y2, y3) && fb.yields1(y3, y4) && fa.yields1(y4, r),
{
    let f = comp::<_, _, (Y2,), (X1,)>(comp::<_, _, (Y4,), (Y2,)>(fa, comp::<_, _, (Y3,), (Y2,)>(fb, fc)), comp::<_, _, (Y1,), (X1,)>(fd, fe));
    assert forall|y1: Y1, y2: Y2| fe.yields1(x1, y1) && fd.yields1(y1, y2) implies f.inner.yields1(x1, y2) by {
        assert(f.inner.inner.yields1(x1, y1));
        assert(f.inner.outer.yields1(y1, y2));
    }
    assert forall|y2: Y2, y3: Y3, y4: Y4| fc.yields1(y2, y3) && fb.yields1(y3, y4) implies f.outer.inner.yields1(y2, y4) by {
        assert(f.outer.inner.inner.yields1(y2, y3));
        assert(f.outer.inner.outer.yields1(y3, y4));
    }
    if f.yields1(x1, r) {
        let y2 = choose|y2: Y2| f.inner.yields1(x1, y2) && f.outer.yields1(y2, r);
        let y1 = choose|y1: Y1| f.inner.inner.yields1(x1, y1) && f.inner.outer.yields1(y1, y2);
        let y4 = choose|y4: Y4| f.outer.inner.yields1(y2, y4) && f.outer.outer.yields1(y4, r);
        let y3 = choose|y3: Y3| f.outer.inner.inner.yields1(y2, y3) && f.outer.inner.outer.yields1(y3, y4);
    }
    if exists|y1: Y1, y2: Y2, y3: Y3, y4: Y4| fe.yields1(x1, y1) && fd.yields1(y1, y2) && fc.yields1(y2, y3) && fb.yields1(y3, y4) && fa.yields1(y4, r) {
        let (y1, y2, y3, y4) = choose|y1: Y1, y2: Y2, y3: Y3, y4: Y4| fe.yields1(x1, y1) && fd.yields1(y1, y2) && fc.yields1(y2, y3) && fb.yields1(y3, y4) && fa.yields1(y4, r);
        assert(f.inner.inner.yields1(x1, y1));
        assert(f.inner.outer.yields1(y1, y2));
        assert(f.inner.yields1(x1, y2));
        assert(f.outer.inner.inner.yields1(y2, y3));
        assert(f.outer.inner.outer.yields1(y3, y4));
        assert(f.outer.inner.yields1(y2, y4));
        assert(f.outer.outer.yields1(y4, r));
        assert(f.outer.yields1(y2, r));
        assert(f.yields1(x1, r));
    }
}

/// Eagle, called as its lambda form reads, is the nested call `e(a, b, c, d, e)(x1, x2, x3) =
/// a(b(x1), c(d(x2), e(x3)))`: it accepts exactly the arguments for which every call in the nesting
/// is allowed, and gives exactly the results that the nesting can give.
pub proof fn law_e<A, B, C, D, E, X1, X2, X3, Y1, Y2, Y3, Y4, R>(fa: A, fb: B, fc: C, fd: D, fe: E, x1: X1, x2: X2, x3: X3, r: R) where
    A: Invocable2<Y4, Y3, Output = R>,
    B: Invocable1<X1, Output = Y4>,
    C: Invocable2<Y2, Y1, Output = Y3>,
    D: Invocable1<X2, Output = Y2>,
    E: Invocable1<X3, Output = Y1>,
    ensures
        comp::<_, _, (Y3, X1), (X2, X3)>(comp::<_, _, (Y4, Y3), (X1,)>(fa, fb), comp::<_, _, (Y1, X2), (X3,)>(comp::<_, _, (Y2, Y1), (X2,)>(fc, fd), fe)).accepts3(x1, x2, x3)
            <==> (fe.accepts1(x3) && forall|y1: Y1| fe.yields1(x3, y1) ==> (fd.accepts1(x2) && forall|y2: Y2| fd.yields1(x2, y2) ==> (fc.accepts2(y2, y1) && forall|y3: Y3| fc.yields2(y2, y1, y3) ==> (fb.accepts1(x1) && forall|y4: Y4| fb.yields1(x1, y4) ==> (fa.accepts2(y4, y3)))))),
        comp::<_, _, (Y3, X1), (X2, X3)>(comp::<_, _, (Y4, Y3), (X1,)>(fa, fb), comp::<_, _, (Y1, X2), (X3,)>(comp::<_, _, (Y2, Y1), (X2,)>(fc, fd), fe)).yields3(x1, x2, x3, r)
            <==> exists|y1: Y1, y2: Y2, y3: Y3, y4: Y4| fe.yields1(x3, y1) && fd.yields1(x2, y2) && fc.yields2(y2, y1, y3) && fb.yields1(x1, y4) && fa.yields2(y4, y3, r),
{
    let f = comp::<_, _, (Y3, X1), (X2, X3)>(comp::<_, _, (Y4, Y3), (X1,)>(fa, fb), comp::<_, _, (Y1, X2), (X3,)>(comp::<_, _, (Y2, Y1), (X2,)>(fc, fd), fe));
    assert forall|y1: Y1, y2: Y2, y3: Y3| fe.yields1(x3, y1) && fd.yields1(x2, y2) && fc.yields2(y2, y1, y3) implies f.inner.yields2(x2, x3, y3) by {
        assert(f.inner.outer.inner.yields1(x2, y2));
        assert(f.inner.outer.outer.yields2(y2, y1, y3));
        assert(f.inner.outer.yields2(y1, x2, y3));
        assert(f.inner.inner.yields1(x3, y1));
    }
    if f.yields3(x1, x2, x3, r) {
        let y3 = choose|y3: Y3| f.inner.yields2(x2, x3, y3) && f.outer.yields2(y3, x1, r);
        let y1 = choose|y1: Y1| f.inner.inner.yields1(x3, y1) && f.inner.outer.yields2(y1, x2, y3);
        let y2 = choose|y2: Y2| f.inner.outer.inner.yields1(x2, y2) && f.inner.outer.outer.yields2(y2, y1, y3);
        let y4 = choose|y4: Y4| f.outer.inner.yields1(x1, y4) && f.outer.outer.yields2(y4, y3, r);
    }
    if exists|y1: Y1, y2: Y2, y3: Y3, y4: Y4| fe.yields1(x3, y1) && fd.yields1(x2, y2) && fc.yields2(y2, y1, y3) && fb.yields1(x1, y4) && fa.yields2(y4, y3, r) {
        let (y1, y2, y3, y4) = choose|y1: Y1, y2: Y2, y3: Y3, y4: Y4| fe.yields1(x3, y1) && fd.yields1(x2, y2) && fc.yields2(y2, y1, y3) && fb.yields1(x1, y4) && fa.yields2(y4, y3, r);
        assert(f.inner.outer.inner.yields1(x2, y2));
        assert(f.inner.outer.outer.yields2(y2, y1, y3));
        assert(f.inner.outer.yields2(y1, x2, y3));
        assert(f.inner.inner.yields1(x3, y1));
        assert(f.inner.yields2(x2, x3, y3));
        assert(f.outer.inner.yields1(x1, y4));
        assert(f.outer.outer.yields2(y4, y3, r));
        assert(f.outer.yields2(y3, x1, r));
        assert(f.yields3(x1, x2, x3, r));
    }
}

/// Eagle with one-argument callables only is the chain `e(a, b, c, d, e)(x) = a(b(c(d(e(x)))))`,
/// with the same callability and results.
pub proof fn law_e_chain<A, B, C, D, E, X1, Y1, Y2, Y3, Y4, R>(fa: A, fb: B, fc: C, fd: D, fe: E, x1: X1, r: R) where
    A: Invocable1<Y4, Output = R>,
    B: Invocable1<Y3, Output = Y4>,
    C: Invocable1<Y2, Output = Y3>,
    D: Invocable1<Y1, Output = Y2>,
    E: Invocable1<X1, Output = Y1>,
    ensures
        comp::<_, _, (Y3,), (X1,)>(comp::<_, _, (Y4,), (Y3,)>(fa, fb), comp::<_, _, (Y1,), (X1,)>(comp::<_, _, (Y2,), (Y1,)>(fc, fd), fe)).accepts1(x1)
            <==> (fe.accepts1(x1) && forall|y1: Y1| fe.yields1(x1, y1) ==> (fd.accepts1(y1) && forall|y2: Y2| fd.yields1(y1, y2) ==> (fc.accepts1(y2) && forall|y3: Y3| fc.yields1(y2, y3) ==> (fb.accepts1(y3) && forall|y4: Y4| fb.yields1(y3, y4) ==> (fa.accepts1(y4)))))),
        comp::<_, _, (Y3,), (X1,)>(comp::<_, _, (Y4,), (Y3,)>(fa, fb), comp::<_, _, (Y1,), (X1,)>(comp::<_, _, (Y2,), (Y1,)>(fc, fd), fe)).yields1(x1, r)
            <==> exists|y1: Y1, y2: Y2, y3: Y3, y4: Y4| fe.yields1(x1, y1) && fd.yields1(y1, y2) && fc.yields1(y2, y3) && fb.yields1(y3, y4) && fa.yields1(y4, r),
{
    let f = comp::<_, _, (Y3,), (X1,)>(comp::<_, _, (Y4,), (Y3,)>(fa, fb), comp::<_, _, (Y1,), (X1,)>(comp::<_, _, (Y2,), (Y1,)>(fc, fd), fe));
    assert forall|y1: Y1, y2: Y2, y3: Y3| fe.yields1(x1, y1) && fd.yields1(y1, y2) && fc.yields1(y2, y3) implies f.inner.yields1(x1, y3) by {
        assert(f.inner.outer.inner.yields1(y1, y2));
        assert(f.inner.outer.outer.yields1(y2, y3));
        assert(f.inner.outer.yields1(y1, y3));
        assert(f.inner.inner.yields1(x1, y1));
    }
    if f.yields1(x1, r) {
        let y3 = choose|y3: Y3| f.inner.yields1(x1, y3) && f.outer.yields1(y3, r);
        let y1 = choose|y1: Y1| f.inner.inner.yields1(x1, y1) && f.inner.outer.yields1(y1, y3);
        let y2 = choose|y2: Y2| f.inner.outer.inner.yields1(y1, y2) && f.inner.outer.outer.yields1(y2, y3);
        let y4 = choose|y4: Y4| f.outer.inner.yields1(y3, y4) && f.outer.outer.yields1(y4, r);
    }
    if exists|y1: Y1, y2: Y2, y3: Y3, y4: Y4| fe.yields1(x1, y1) && fd.yields1(y1, y2) && fc.yields1(y2, y3) && fb.yields1(y3, y4) && fa.yields1(y4, r) {
        let (y1, y2, y3, y4) = choose|y1: Y1, y2: Y2, y3: Y3, y4: Y4| fe.yields1(x1, y1) && fd.yields1(y1, y2) && fc.yields1(y2, y3) && fb.yields1(y3, y4) && fa.yields1(y4, r);
        assert(f.inner.outer.inner.yields1(y1, y2));
        assert(f.inner.outer.outer.yields1(y2, y3));
        assert(f.inner.outer.yields1(y1, y3));
        assert(f.inner.inner.yields1(x1, y1));
        assert(f.inner.yields1(x1, y3));
        assert(f.outer.inner.yields1(y3, y4));
        assert(f.outer.outer.yields1(y4, r));
        assert(f.outer.yields1(y3, r));
        assert(f.yields1(x1, r));
    }
}

/// Bald Eagle, called as its lambda form reads, is the nested call `e_hat(a, b, c, d, e, f, g)(x1,
/// x2, x3, x4) = a(b(c(x1), d(x2)), e(f(x3), g(x4)))`: it accepts exactly the arguments for which
/// every call in the nesting is allowed, and gives exactly the results that the nesting can give.
#[verifier::spinoff_prover]
#[verifier::rlimit(60)]
pub proof fn law_e_hat<A, B, C, D, E, F, G, X1, X2, X3, X4, Y1, Y2, Y3, Y4, Y5, Y6, R>(fa: A, fb: B, fc: C, fd: D, fe: E, ff: F, fg: G, x1: X1, x2: X2, x3: X3, x4: X4, r: R) where
    A: Invocable2<Y6, Y3, Output = R>,
    B: Invocable2<Y5, Y4, Output = Y6>,
    C: Invocable1<X1, Output = Y5>,
    D: Invocable1<X2, Output = Y4>,
    E: Invocable2<Y2, Y1, Output = Y3>,
    F: Invocable1<X3, Output = Y2>,
    G: Invocable1<X4, Output = Y1>,
    ensures
        comp::<_, _, (Y3, X1, X2), (X3, X4)>(comp::<_, _, (Y6, Y3), (X1, X2)>(fa, comp::<_, _, (Y4, X1), (X2,)>(comp::<_, _, (Y5, Y4), (X1,)>(fb, fc), fd)), comp::<_, _, (Y1, X3), (X4,)>(comp::<_, _, (Y2, Y1), (X3,)>(fe, ff), fg)).accepts4(x1, x2, x3, x4)
            <==> (fg.accepts1(x4) && forall|y1: Y1| fg.yields1(x4, y1) ==> (ff.accepts1(x3) && forall|y2: Y2| ff.yields1(x3, y2) ==> (fe.accepts2(y2, y1) && forall|y3: Y3| fe.yields2(y2, y1, y3) ==> (fd.accepts1(x2) && forall|y4: Y4| fd.yields1(x2, y4) ==> (fc.accepts1(x1) && forall|y5: Y5| fc.yields1(x1, y5) ==> (fb.accepts2(y5, y4) && forall|y6: Y6| fb.yields2(y5, y4, y6) ==> (fa.accepts2(y6, y3)))))))),
        comp::<_, _, (Y3, X1, X2), (X3, X4)>(comp::<_, _, (Y6, Y3), (X1, X2)>(fa, comp::<_, _, (Y4, X1), (X2,)>(comp::<_, _, (Y5, Y4), (X1,)>(fb, fc), fd)), comp::<_, _, (Y1, X3), (X4,)>(comp::<_, _, (Y2, Y1), (X3,)>(fe, ff), fg)).yields4(x1, x2, x3, x4, r)
            <==> exists|y1: Y1, y2: Y2, y3: Y3, y4: Y4, y5: Y5, y6: Y6| fg.yields1(x4, y1) && ff.yields1(x3, y2) && fe.yields2(y2, y1, y3) && fd.yields1(x2, y4) && fc.yields1(x1, y5) && fb.yields2(y5, y4, y6) && fa.yields2(y6, y3, r),
{
    let f = comp::<_, _, (Y3, X1, X2), (X3, X4)>(comp::<_, _, (Y6, Y3), (X1, X2)>(fa, comp::<_, _, (Y4, X1), (X2,)>(comp::<_, _, (Y5, Y4), (X1,)>(fb, fc), fd)), comp::<_, _, (Y1, X3), (X4,)>(comp::<_, _, (Y2, Y1), (X3,)>(fe, ff), fg));
    assert forall|y1: Y1, y2: Y2, y3: Y3| fg.yields1(x4, y1) && ff.yields1(x3, y2) && fe.yields2(y2, y1, y3) implies f.inner.yields2(x3, x4, y3) by {
        assert(f.inner.outer.inner.yields1(x3, y2));
        assert(f.inner.outer.outer.yields2(y2, y1, y3));
        assert(f.inner.outer.yields2(y1, x3, y3));
        assert(f.inner.inner.yields1(x4, y1));
    }
    assert forall|y3: Y3| #[trigger] f.inner.yields2(x3, x4, y3) implies exists|y1: Y1, y2: Y2| fg.yields1(x4, y1) && ff.yields1(x3, y2) && fe.yields2(y2, y1, y3) by {
        let y1 = choose|y1: Y1| f.inner.inner.yields1(x4, y1) && f.inner.outer.yields2(y1, x3, y3);
        let y2 = choose|y2: Y2| f.inner.outer.inner.yields1(x3, y2) && f.inner.outer.outer.yields2(y2, y1, y3);
    }
    assert forall|y4: Y4, y5: Y5, y6: Y6| fd.yields1(x2, y4) && fc.yields1(x1, y5) && fb.yields2(y5, y4, y6) implies f.outer.inner.yields2(x1, x2, y6) by {
        assert(f.outer.inner.outer.inner.yields1(x1, y5));
        assert(f.outer.inner.outer.outer.yields2(y5, y4, y6));
        assert(f.outer.inner.outer.yields2(y4, x1, y6));
        assert(f.outer.inner.inner.yields1(x2, y4));
    }
    assert forall|y6: Y6| #[trigger] f.outer.inner.yields2(x1, x2, y6) implies exists|y4: Y4, y5: Y5| fd.yields1(x2, y4) && fc.yields1(x1, y5) && fb.yields2(y5, y4, y6) by {
        let y4 = choose|y4: Y4| f.outer.inner.inner.yields1(x2, y4) && f.outer.inner.outer.yields2(y4, x1, y6);
        let y5 = choose|y5: Y5| f.outer.inner.outer.inner.yields1(x1, y5) && f.outer.inner.outer.outer.yields2(y5, y4, y6);
    }
    if f.yields4(x1, x2, x3, x4, r) {
        let y3 = choose|y3: Y3| f.inner.yields2(x3, x4, y3) && f.outer.yields3(y3, x1, x2, r);
        let y1 = choose|y1: Y1| f.inner.inner.yields1(x4, y1) && f.inner.outer.yields2(y1, x3, y3);
        let y2 = choose|y2: Y2| f.inner.outer.inner.yields1(x3, y2) && f.inner.outer.outer.yields2(y2, y1, y3);
        let y6 = choose|y6: Y6| f.outer.inner.yields2(x1, x2, y6) && f.outer.outer.yields2(y6, y3, r);
        let y4 = choose|y4: Y4| f.outer.inner.inner.yields1(x2, y4) && f.outer.inner.outer.yields2(y4, x1, y6);
        let y5 = choose|y5: Y5| f.outer.inner.outer.inner.yields1(x1, y5) && f.outer.inner.outer.outer.yields2(y5, y4, y6);
    }
    if exists|y1: Y1, y2: Y2, y3: Y3, y4: Y4, y5: Y5, y6: Y6| fg.yields1(x4, y1) && ff.yields1(x3, y2) && fe.yields2(y2, y1, y3) && fd.yields1(x2, y4) && fc.yields1(x1, y5) && fb.yields2(y5, y4, y6) && fa.yields2(y6, y3, r) {
        let (y1, y2, y3, y4, y5, y6) = choose|y1: Y1, y2: Y2, y3: Y3, y4: Y4, y5: Y5, y6: Y6| fg.yields1(x4, y1) && ff.yields1(x3, y2) && fe.yields2(y2, y1, y3) && fd.yields1(x2, y4) && fc.yields1(x1, y5) && fb.yields2(y5, y4, y6) && fa.yields2(y6, y3, r);
        assert(f.inner.outer.inner.yields1(x3, y2));
        assert(f.inner.outer.outer.yields2(y2, y1, y3));
        assert(f.inner.outer.yields2(y1, x3, y3));
        assert(f.inner.inner.yields1(x4, y1));
        assert(f.inner.yields2(x3, x4, y3));
        assert(f.outer.inner.outer.inner.yields1(x1, y5));
        assert(f.outer.inner.outer.outer.yields2(y5, y4, y6));
        assert(f.outer.inner.outer.yields2(y4, x1, y6));
        assert(f.outer.inner.inner.yields1(x2, y4));
        assert(f.outer.inner.yields2(x1, x2, y6));
        assert(f.outer.outer.yields2(y6, y3, r));
        assert(f.outer.yields3(y3, x1, x2, r));
        assert(f.yields4(x1, x2, x3, x4, r));
    }
}

/// Bald Eagle with one-argument callables only is the chain `e_hat(a, b, c, d, e, f, g)(x) =
/// a(b(c(d(e(f(g(x)))))))`, with the same results.
#[verifier::spinoff_prover]
#[verifier::rlimit(60)]
pub proof fn law_e_hat_chain<A, B, C, D, E, F, G, X1, Y1, Y2, Y3, Y4, Y5, Y6, R>(fa: A, fb: B, fc: C, fd: D, fe: E, ff: F, fg: G, x1: X1, r: R) where
    A: Invocable1<Y6, Output = R>,
    B: Invocable1<Y5, Output = Y6>,
    C: Invocable1<Y4, Output = Y5>,
    D: Invocable1<Y3, Output = Y4>,
    E: Invocable1<Y2, Output = Y3>,
    F: Invocable1<Y1, Output = Y2>,
    G: Invocable1<X1, Output = Y1>,
    ensures
        comp::<_, _, (Y3,), (X1,)>(comp::<_, _, (Y6,), (Y3,)>(fa, comp::<_, _, (Y4,), (Y3,)>(comp::<_, _, (Y5,), (Y4,)>(fb, fc), fd)), comp::<_, _, (Y1,), (X1,)>(comp::<_, _, (Y2,), (Y1,)>(fe, ff), fg)).yields1(x1, r)
            <==> exists|y1: Y1, y2: Y2, y3: Y3, y4: Y4, y5: Y5, y6: Y6| fg.yields1(x1, y1) && ff.yields1(y1, y2) && fe.yields1(y2, y3) && fd.yields1(y3, y4) && fc.yields1(y4, y5) && fb.yields1(y5, y6) && fa.yields1(y6, r),
{
    let f = comp::<_, _, (Y3,), (X1,)>(comp::<_, _, (Y6,), (Y3,)>(fa, comp::<_, _, (Y4,), (Y3,)>(comp::<_, _, (Y5,), (Y4,)>(fb, fc), fd)), comp::<_, _, (Y1,), (X1,)>(comp::<_, _, (Y2,), (Y1,)>(fe, ff), fg));
    assert forall|y1: Y1, y2: Y2, y3: Y3| fg.yields1(x1, y1) && ff.yields1(y1, y2) && fe.yields1(y2, y3) implies f.inner.yields1(x1, y3) by {
        assert(f.inner.outer.inner.yields1(y1, y2));
        assert(f.inner.outer.outer.yields1(y2, y3));
        assert(f.inner.outer.yields1(y1, y3));
        assert(f.inner.inner.yields1(x1, y1));
    }
    assert forall|y3: Y3| #[trigger] f.inner.yields1(x1, y3) implies exists|y1: Y1, y2: Y2| fg.yields1(x1, y1) && ff.yields1(y1, y2) && fe.yields1(y2, y3) by {
        let y1 = choose|y1: Y1| f.inner.inner.yields1(x1, y1) && f.inner.outer.yields1(y1, y3);
        let y2 = choose|y2: Y2| f.inner.outer.inner.yields1(y1, y2) && f.inner.outer.outer.yields1(y2, y3);
    }
    assert forall|y3: Y3, y4: Y4, y5: Y5, y6: Y6| fd.yields1(y3, y4) && fc.yields1(y4, y5) && fb.yields1(y5, y6) implies f.outer.inner.yields1(y3, y6) by {
        assert(f.outer.inner.outer.inner.yields1(y4, y5));
        assert(f.outer.inner.outer.outer.yields1(y5, y6));
        assert(f.outer.inner.outer.yields1(y4, y6));
        assert(f.outer.inner.inner.yields1(y3, y4));
    }
    assert forall|y3: Y3, y6: Y6| #[trigger] f.outer.inner.yields1(y3, y6) implies exists|y4: Y4, y5: Y5| fd.yields1(y3, y4) && fc.yields1(y4, y5) && fb.yields1(y5, y6) by {
        let y4 = choose|y4: Y4| f.outer.inner.inner.yields1(y3, y4) && f.outer.inner.outer.yields1(y4, y6);
        let y5 = choose|y5: Y5| f.outer.inner.outer.inner.yields1(y4, y5) && f.outer.inner.outer.outer.yields1(y5, y6);
    }
    if f.yields1(x1, r) {
        let y3 = choose|y3: Y3| f.inner.yields1(x1, y3) && f.outer.yields1(y3, r);
        let y1 = choose|y1: Y1| f.inner.inner.yields1(x1, y1) && f.inner.outer.yields1(y1, y3);
        let y2 = choose|y2: Y2| f.inner.outer.inner.yields1(y1, y2) && f.inner.outer.outer.yields1(y2, y3);
        let y6 = choose|y6: Y6| f.outer.inner.yields1(y3, y6) && f.outer.outer.yields1(y6, r);
        let y4 = choose|y4: Y4| f.outer.inner.inner.yields1(y3, y4) && f.outer.inner.outer.yields1(y4, y6);
        let y5 = choose|y5: Y5| f.outer.inner.outer.inner.yields1(y4, y5) && f.outer.inner.outer.outer.yields1(y5, y6);
    }
    if exists|y1: Y1, y2: Y2, y3: Y3, y4: Y4, y5: Y5, y6: Y6| fg.yields1(x1, y1) && ff.yields1(y1, y2) && fe.yields1(y2, y3) && fd.yields1(y3, y4) && fc.yields1(y4, y5) && fb.yields1(y5, y6) && fa.yields1(y6, r) {
        let (y1, y2, y3, y4, y5, y6) = choose|y1: Y1, y2: Y2, y3: Y3, y4: Y4, y5: Y5, y6: Y6| fg.yields1(x1, y1) && ff.yields1(y1, y2) && fe.yields1(y2, y3) && fd.yields1(y3, y4) && fc.yields1(y4, y5) && fb.yields1(y5, y6) && fa.yields1(y6, r);
        assert(f.inner.outer.inner.yields1(y1, y2));
        assert(f.inner.outer.outer.yields1(y2, y3));
        assert(f.inner.outer.yields1(y1, y3));
        assert(f.inner.inner.yields1(x1, y1));
        assert(f.inner.yields1(x1, y3));
        assert(f.outer.inner.outer.inner.yields1(y4, y5));
        assert(f.outer.inner.outer.outer.yields1(y5, y6));
        assert(f.outer.inner.outer.yields1(y4, y6));
        assert(f.outer.inner.inner.yields1(y3, y4));
        assert(f.outer.inner.yields1(y3, y6));
        assert(f.outer.outer.yields1(y6, r));
        assert(f.outer.yields1(y3, r));
        assert(f.yields1(x1, r));
    }
}

/// Finch, called as its lambda form reads, is the nested call `f(a, b, c)(x1, x2) = c(b(x1),
/// a(x2))`: it accepts exactly the arguments for which every call in the nesting is allowed, and
/// gives exactly the results that the nesting can give.
pub proof fn law_f<A, B, C, X1, X2, Y1, Y2, R>(fa: A, fb: B, fc: C, x1: X1, x2: X2, r: R) where
    A: Invocable1<X2, Output = Y1>,
    B: Invocable1<X1, Output = Y2>,
    C: Invocable2<Y2, Y1, Output = R>,
    ensures
        comp::<_, _, (Y1, X1), (X2,)>(comp::<_, _, (Y2, Y1), (X1,)>(fc, fb), fa).accepts2(x1, x2)
            <==> (fa.accepts1(x2) && forall|y1: Y1| fa.yields1(x2, y1) ==> (fb.accepts1(x1) && forall|y2: Y2| fb.yields1(x1, y2) ==> (fc.accepts2(y2, y1)))),
        comp::<_, _, (Y1, X1), (X2,)>(comp::<_, _, (Y2, Y1), (X1,)>(fc, fb), fa).yields2(x1, x2, r)
            <==> exists|y1: Y1, y2: Y2| fa.yields1(x2, y1) && fb.yields1(x1, y2) && fc.yields2(y2, y1, r),
{
    let f = comp::<_, _, (Y1, X1), (X2,)>(comp::<_, _, (Y2, Y1), (X1,)>(fc, fb), fa);
    if f.yields2(x1, x2, r) {
        let y1 = choose|y1: Y1| f.inner.yields1(x2, y1) && f.outer.yields2(y1, x1, r);
        let y2 = choose|y2: Y2| f.outer.inner.yields1(x1, y2) && f.outer.outer.yields2(y2, y1, r);
    }
    if exists|y1: Y1, y2: Y2| fa.yields1(x2, y1) && fb.yields1(x1, y2) && fc.yields2(y2, y1, r) {
        let (y1, y2) = choose|y1: Y1, y2: Y2| fa.yields1(x2, y1) && fb.yields1(x1, y2) && fc.yields2(y2, y1, r);
        assert(f.outer.inner.yields1(x1, y2));
        assert(f.outer.outer.yields2(y2, y1, r));
        assert(f.outer.yields2(y1, x1, r));
        assert(f.inner.yields1(x2, y1));
        assert(f.yields2(x1, x2, r));
    }
}

/// Finch with one-argument callables only is the chain `f(a, b, c)(x) = c(b(a(x)))`, with the same
/// callability and results.
pub proof fn law_f_chain<A, B, C, X1, Y1, Y2, R>(fa: A, fb: B, fc: C, x1: X1, r: R) where
    A: Invocable1<X1, Output = Y1>,
    B: Invocable1<Y1, Output = Y2>,
    C: Invocable1<Y2, Output = R>,
    ensures
        comp::<_, _, (Y1,), (X1,)>(comp::<_, _, (Y2,), (Y1,)>(fc, fb), fa).accepts1(x1)
            <==> (fa.accepts1(x1) && forall|y1: Y1| fa.yields1(x1, y1) ==> (fb.accepts1(y1) && forall|y2: Y2| fb.yields1(y1, y2) ==> (fc.accepts1(y2)))),
        comp::<_, _, (Y1,), (X1,)>(comp::<_, _, (Y2,), (Y1,)>(fc, fb), fa).yields1(x1, r)
            <==> exists|y1: Y1, y2: Y2| fa.yields1(x1, y1) && fb.yields1(y1, y2) && fc.yields1(y2, r),
{
    let f = comp::<_, _, (Y1,), (X1,)>(comp::<_, _, (Y2,), (Y1,)>(fc, fb), fa);
    if f.yields1(x1, r) {
        let y1 = choose|y1: Y1| f.inner.yields1(x1, y1) && f.outer.yields1(y1, r);
        let y2 = choose|y2: Y2| f.outer.inner.yields1(y1, y2) && f.outer.outer.yields1(y2, r);
    }
    if exists|y1: Y1, y2: Y2| fa.yields1(x1, y1) && fb.yields1(y1, y2) && fc.yields1(y2, r) {
        let (y1, y2) = choose|y1: Y1, y2: Y2| fa.yields1(x1, y1) && fb.yields1(y1, y2) && fc.yields1(y2, r);
        assert(f.outer.inner.yields1(y1, y2));
        assert(f.outer.outer.yields1(y2, r));
        assert(f.outer.yields1(y1, r));
        assert(f.inner.yields1(x1, y1));
        assert(f.yields1(x1, r));
    }
}

/// Goldfinch, called as its lambda form reads, is the nested call `g(a, b, c, d)(x1, x2) = a(d(x1),
/// b(c(x2)))`: it accepts exactly the arguments for which every call in the nesting is allowed, and
/// gives exactly the results that the nesting can give.
pub proof fn law_g<A, B, C, D, X1, X2, Y1, Y2, Y3, R>(fa: A, fb: B, fc: C, fd: D, x1: X1, x2: X2, r: R) where
    A: Invocable2<Y3, Y2, Output = R>,
    B: Invocable1<Y1, Output = Y2>,
    C: Invocable1<X2, Output = Y1>,
    D: Invocable1<X1, Output = Y3>,
    ensures
        comp::<_, _, (Y2, X1), (X2,)>(comp::<_, _, (Y3, Y2), (X1,)>(fa, fd), comp::<_, _, (Y1,), (X2,)>(fb, fc)).accepts2(x1, x2)
            <==> (fc.accepts1(x2) && forall|y1: Y1| fc.yields1(x2, y1) ==> (fb.accepts1(y1) && forall|y2: Y2| fb.yields1(y1, y2) ==> (fd.accepts1(x1) && forall|y3: Y3| fd.yields1(x1, y3) ==> (fa.accepts2(y3, y2))))),
        comp::<_, _, (Y2, X1), (X2,)>(comp::<_, _, (Y3, Y2), (X1,)>(fa, fd), comp::<_, _, (Y1,), (X2,)>(fb, fc)).yields2(x1, x2, r)
            <==> exists|y1: Y1, y2: Y2, y3: Y3| fc.yields1(x2, y1) && fb.yields1(y1, y2) && fd.yields1(x1, y3) && fa.yields2(y3, y2, r),
{
    let f = comp::<_, _, (Y2, X1), (X2,)>(comp::<_, _, (Y3, Y2), (X1,)>(fa, fd), comp::<_, _, (Y1,), (X2,)>(fb, fc));
    assert forall|y1: Y1, y2: Y2| fc.yields1(x2, y1) && fb.yields1(y1, y2) implies f.inner.yields1(x2, y2) by {
        assert(f.inner.inner.yields1(x2, y1));
        assert(f.inner.outer.yields1(y1, y2));
    }
    if f.yields2(x1, x2, r) {
        let y2 = choose|y2: Y2| f.inner.yields1(x2, y2) && f.outer.yields2(y2, x1, r);
        let y1 = choose|y1: Y1| f.inner.inner.yields1(x2, y1) && f.inner.outer.yields1(y1, y2);
        let y3 = choose|y3: Y3| f.outer.inner.yields1(x1, y3) && f.outer.outer.yields2(y3, y2, r);
    }
    if exists|y1: Y1, y2: Y2, y3: Y3| fc.yields1(x2, y1) && fb.yields1(y1, y2) && fd.yields1(x1, y3) && fa.yields2(y3, y2, r) {
        let (y1, y2, y3) = choose|y1: Y1, y2: Y2, y3: Y3| fc.yields1(x2, y1) && fb.yields1(y1, y2) && fd.yields1(x1, y3) && fa.yields2(y3, y2, r);
        assert(f.inner.inner.yields1(x2, y1));
        assert(f.inner.outer.yields1(y1, y2));
        assert(f.inner.yields1(x2, y2));
        assert(f.outer.inner.yields1(x1, y3));
        assert(f.outer.outer.yields2(y3, y2, r));
        assert(f.outer.yields2(y2, x1, r));
        assert(f.yields2(x1, x2, r));
    }
}

/// Goldfinch with one-argument callables only is the chain `g(a, b, c, d)(x) = a(d(b(c(x))))`, with
/// the same callability and results.
pub proof fn law_g_chain<A, B, C, D, X1, Y1, Y2, Y3, R>(fa: A, fb: B, fc: C, fd: D, x1: X1, r: R) where
    A: Invocable1<Y3, Output = R>,
    B: Invocable1<Y1, Output = Y2>,
    C: Invocable1<X1, Output = Y1>,
    D: Invocable1<Y2, Output = Y3>,
    ensures
        comp::<_, _, (Y2,), (X1,)>(comp::<_, _, (Y3,), (Y2,)>(fa, fd), comp::<_, _, (Y1,), (X1,)>(fb, fc)).accepts1(x1)
            <==> (fc.accepts1(x1) && forall|y1: Y1| fc.yields1(x1, y1) ==> (fb.accepts1(y1) && forall|y2: Y2| fb.yields1(y1, y2) ==> (fd.accepts1(y2) && forall|y3: Y3| fd.yields1(y2, y3) ==> (fa.accepts1(y3))))),
        comp::<_, _, (Y2,), (X1,)>(comp::<_, _, (Y3,), (Y2,)>(fa, fd), comp::<_, _, (Y1,), (X1,)>(fb, fc)).yields1(x1, r)
            <==> exists|y1: Y1, y2: Y2, y3: Y3| fc.yields1(x1, y1) && fb.yields1(y1, y2) && fd.yields1(y2, y3) && fa.yields1(y3, r),
{
    let f = comp::<_, _, (Y2,), (X1,)>(comp::<_, _, (Y3,), (Y2,)>(fa, fd), comp::<_, _, (Y1,), (X1,)>(fb, fc));
    assert forall|y1: Y1, y2: Y2| fc.yields1(x1, y1) && fb.yields1(y1, y2) implies f.inner.yields1(x1, y2) by {
        assert(f.inner.inner.yields1(x1, y1));
        assert(f.inner.outer.yields1(y1, y2));
    }
    if f.yields1(x1, r) {
        let y2 = choose|y2: Y2| f.inner.yields1(x1, y2) && f.outer.yields1(y2, r);
        let y1 = choose|y1: Y1| f.inner.inner.yields1(x1, y1) && f.inner.outer.yields1(y1, y2);
        let y3 = choose|y3: Y3| f.outer.inner.yields1(y2, y3) && f.outer.outer.yields1(y3, r);
    }
    if exists|y1: Y1, y2: Y2, y3: Y3| fc.yields1(x1, y1) && fb.yields1(y1, y2) && fd.yields1(y2, y3) && fa.yields1(y3, r) {
        let (y1, y2, y3) = choose|y1: Y1, y2: Y2, y3: Y3| fc.yields1(x1, y1) && fb.yields1(y1, y2) && fd.yields1(y2, y3) && fa.yields1(y3, r);
        assert(f.inner.inner.yields1(x1, y1));
        assert(f.inner.outer.yields1(y1, y2));
        assert(f.inner.yields1(x1, y2));
        assert(f.outer.inner.yields1(y2, y3));
        assert(f.outer.outer.yields1(y3, r));
        assert(f.outer.yields1(y2, r));
        assert(f.yields1(x1, r));
    }
}

/// Hummingbird, called as its lambda form reads, is the nested call `h(a, b, c)(x1, x2, x3) =
/// a(b(x1), c(x2), b(x3))`: it accepts exactly the arguments for which every call in the nesting is
/// allowed, and gives exactly the results that the nesting can give.
pub proof fn law_h<A, B, C, X1, X2, X3, Y1, Y2, Y3, R>(fa: A, fb: B, fc: C, x1: X1, x2: X2, x3: X3, r: R) where
    A: Invocable3<Y3, Y2, Y1, Output = R>,
    B: Invocable1<X1, Output = Y3> + Invocable1<X3, Output = Y1>,
    C: Invocable1<X2, Output = Y2>,
    ensures
        comp::<_, _, (Y1, X1, X2), (X3,)>(comp::<_, _, (Y2, Y1, X1), (X2,)>(comp::<_, _, (Y3, Y2, Y1), (X1,)>(fa, fb), fc), fb).accepts3(x1, x2, x3)
            <==> (fb.accepts1(x3) && forall|y1: Y1| fb.yields1(x3, y1) ==> (fc.accepts1(x2) && forall|y2: Y2| fc.yields1(x2, y2) ==> (fb.accepts1(x1) && forall|y3: Y3| fb.yields1(x1, y3) ==> (fa.accepts3(y3, y2, y1))))),
        comp::<_, _, (Y1, X1, X2), (X3,)>(comp::<_, _, (Y2, Y1, X1), (X2,)>(comp::<_, _, (Y3, Y2, Y1), (X1,)>(fa, fb), fc), fb).yields3(x1, x2, x3, r)
            <==> exists|y1: Y1, y2: Y2, y3: Y3| fb.yields1(x3, y1) && fc.yields1(x2, y2) && fb.yields1(x1, y3) && fa.yields3(y3, y2, y1, r),
{
    let f = comp::<_, _, (Y1, X1, X2), (X3,)>(comp::<_, _, (Y2, Y1, X1), (X2,)>(comp::<_, _, (Y3, Y2, Y1), (X1,)>(fa, fb), fc), fb);
    if f.yields3(x1, x2, x3, r) {
        let y1 = choose|y1: Y1| f.inner.yields1(x3, y1) && f.outer.yields3(y1, x1, x2, r);
        let y2 = choose|y2: Y2| f.outer.inner.yields1(x2, y2) && f.outer.outer.yields3(y2, y1, x1, r);
        let y3 = choose|y3: Y3| f.outer.outer.inner.yields1(x1, y3) && f.outer.outer.outer.yields3(y3, y2, y1, r);
    }
    if exists|y1: Y1, y2: Y2, y3: Y3| fb.yields1(x3, y1) && fc.yields1(x2, y2) && fb.yields1(x1, y3) && fa.yields3(y3, y2, y1, r) {
        let (y1, y2, y3) = choose|y1: Y1, y2: Y2, y3: Y3| fb.yields1(x3, y1) && fc.yields1(x2, y2) && fb.yields1(x1, y3) && fa.yields3(y3, y2, y1, r);
        assert(f.outer.outer.inner.yields1(x1, y3));
        assert(f.outer.outer.outer.yields3(y3, y2, y1, r));
        assert(f.outer.outer.yields3(y2, y1, x1, r));
        assert(f.outer.inner.yields1(x2, y2));
        assert(f.outer.yields3(y1, x1, x2, r));
        assert(f.inner.yields1(x3, y1));
        assert(f.yields3(x1, x2, x3, r));
    }
}

/// Hummingbird with one-argument callables only is the chain `h(a, b, c)(x) = a(b(c(b(x))))`, with
/// the same callability and results.
pub proof fn law_h_chain<A, B, C, X1, Y1, Y2, Y3, R>(fa: A, fb: B, fc: C, x1: X1, r: R) where
    A: Invocable1<Y3, Output = R>,
    B: Invocable1<Y2, Output = Y3> + Invocable1<X1, Output = Y1>,
    C: Invocable1<Y1, Output = Y2>,
    ensures
        comp::<_, _, (Y1,), (X1,)>(comp::<_, _, (Y2,), (Y1,)>(comp::<_, _, (Y3,), (Y2,)>(fa, fb), fc), fb).accepts1(x1)
            <==> (fb.accepts1(x1) && forall|y1: Y1| fb.yields1(x1, y1) ==> (fc.accepts1(y1) && forall|y2: Y2| fc.yields1(y1, y2) ==> (fb.accepts1(y2) && forall|y3: Y3| fb.yields1(y2, y3) ==> (fa.accepts1(y3))))),
        comp::<_, _, (Y1,), (X1,)>(comp::<_, _, (Y2,), (Y1,)>(comp::<_, _, (Y3,), (Y2,)>(fa, fb), fc), fb).yields1(x1, r)
            <==> exists|y1: Y1, y2: Y2, y3: Y3| fb.yields1(x1, y1) && fc.yields1(y1, y2) && fb.yields1(y2, y3) && fa.yields1(y3, r),
{
    let f = comp::<_, _, (Y1,), (X1,)>(comp::<_, _, (Y2,), (Y1,)>(comp::<_, _, (Y3,), (Y2,)>(fa, fb), fc), fb);
    if f.yields1(x1, r) {
        let y1 = choose|y1: Y1| f.inner.yields1(x1, y1) && f.outer.yields1(y1, r);
        let y2 = choose|y2: Y2| f.outer.inner.yields1(y1, y2) && f.outer.outer.yields1(y2, r);
        let y3 = choose|y3: Y3| f.outer.outer.inner.yields1(y2, y3) && f.outer.outer.outer.yields1(y3, r);
    }
    if exists|y1: Y1, y2: Y2, y3: Y3| fb.yields1(x1, y1) && fc.yields1(y1, y2) && fb.yields1(y2, y3) && fa.yields1(y3, r) {
        let (y1, y2, y3) = choose|y1: Y1, y2: Y2, y3: Y3| fb.yields1(x1, y1) && fc.yields1(y1, y2) && fb.yields1(y2, y3) && fa.yields1(y3, r);
        assert(f.outer.outer.inner.yields1(y2, y3));
        assert(f.outer.outer.outer.yields1(y3, r));
        assert(f.outer.outer.yields1(y2, r));
        assert(f.outer.inner.yields1(y1, y2));
        assert(f.outer.yields1(y1, r));
        assert(f.inner.yields1(x1, y1));
        assert(f.yields1(x1, r));
    }
}

/// Jay, called as its lambda form reads, is the nested call `j(a, b, c, d)(x1, x2, x3) = a(b(x1),
/// a(d(x2), c(x3)))`: it accepts exactly the arguments for which every call in the nesting is
/// allowed, and gives exactly the results that the nesting can give.
pub proof fn law_j<A, B, C, D, X1, X2, X3, Y1, Y2, Y3, Y4, R>(fa: A, fb: B, fc: C, fd: D, x1: X1, x2: X2, x3: X3, r: R) where
    A: Invocable2<Y4, Y3, Output = R> + Invocable2<Y2, Y1, Output = Y3>,
    B: Invocable1<X1, Output = Y4>,
    C: Invocable1<X3, Output = Y1>,
    D: Invocable1<X2, Output = Y2>,
    ensures
        comp::<_, _, (Y3, X1), (X2, X3)>(comp::<_, _, (Y4, Y3), (X1,)>(fa, fb), comp::<_, _, (Y1, X2), (X3,)>(comp::<_, _, (Y2, Y1), (X2,)>(fa, fd), fc)).accepts3(x1, x2, x3)
            <==> (fc.accepts1(x3) && forall|y1: Y1| fc.yields1(x3, y1) ==> (fd.accepts1(x2) && forall|y2: Y2| fd.yields1(x2, y2) ==> (fa.accepts2(y2, y1) && forall|y3: Y3| fa.yields2(y2, y1, y3) ==> (fb.accepts1(x1) && forall|y4: Y4| fb.yields1(x1, y4) ==> (fa.accepts2(y4, y3)))))),
        comp::<_, _, (Y3, X1), (X2, X3)>(comp::<_, _, (Y4, Y3), (X1,)>(fa, fb), comp::<_, _, (Y1, X2), (X3,)>(comp::<_, _, (Y2, Y1), (X2,)>(fa, fd), fc)).yields3(x1, x2, x3, r)
            <==> exists|y1: Y1, y2: Y2, y3: Y3, y4: Y4| fc.yields1(x3, y1) && fd.yields1(x2, y2) && fa.yields2(y2, y1, y3) && fb.yields1(x1, y4) && fa.yields2(y4, y3, r),
{
    let f = comp::<_, _, (Y3, X1), (X2, X3)>(comp::<_, _, (Y4, Y3), (X1,)>(fa, fb), comp::<_, _, (Y1, X2), (X3,)>(comp::<_, _, (Y2, Y1), (X2,)>(fa, fd), fc));
    assert forall|y1: Y1, y2: Y2, y3: Y3| fc.yields1(x3, y1) && fd.yields1(x2, y2) && fa.yields2(y2, y1, y3) implies f.inner.yields2(x2, x3, y3) by {
        assert(f.inner.outer.inner.yields1(x2, y2));
        assert(f.inner.outer.outer.yields2(y2, y1, y3));
        assert(f.inner.outer.yields2(y1, x2, y3));
        assert(f.inner.inner.yields1(x3, y1));
    }
    if f.yields3(x1, x2, x3, r) {
        let y3 = choose|y3: Y3| f.inner.yields2(x2, x3, y3) && f.outer.yields2(y3, x1, r);
        let y1 = choose|y1: Y1| f.inner.inner.yields1(x3, y1) && f.inner.outer.yields2(y1, x2, y3);
        let y2 = choose|y2: Y2| f.inner.outer.inner.yields1(x2, y2) && f.inner.outer.outer.yields2(y2, y1, y3);
        let y4 = choose|y4: Y4| f.outer.inner.yields1(x1, y4) && f.outer.outer.yields2(y4, y3, r);
    }
    if exists|y1: Y1, y2: Y2, y3: Y3, y4: Y4| fc.yields1(x3, y1) && fd.yields1(x2, y2) && fa.yields2(y2, y1, y3) && fb.yields1(x1, y4) && fa.yields2(y4, y3, r) {
        let (y1, y2, y3, y4) = choose|y1: Y1, y2: Y2, y3: Y3, y4: Y4| fc.yields1(x3, y1) && fd.yields1(x2, y2) && fa.yields2(y2, y1, y3) && fb.yields1(x1, y4) && fa.yields2(y4, y3, r);
        assert(f.inner.outer.inner.yields1(x2, y2));
        assert(f.inner.outer.outer.yields2(y2, y1, y3));
        assert(f.inner.outer.yields2(y1, x2, y3));
        assert(f.inner.inner.yields1(x3, y1));
        assert(f.inner.yields2(x2, x3, y3));
        assert(f.outer.inner.yields1(x1, y4));
        assert(f.outer.outer.yields2(y4, y3, r));
        assert(f.outer.yields2(y3, x1, r));
        assert(f.yields3(x1, x2, x3, r));
    }
}

/// Jay with one-argument callables only is the chain `j(a, b, c, d)(x) = a(b(a(d(c(x)))))`, with
/// the same callability and results.
pub proof fn law_j_chain<A, B, C, D, X1, Y1, Y2, Y3, Y4, R>(fa: A, fb: B, fc: C, fd: D, x1: X1, r: R) where
    A: Invocable1<Y4, Output = R> + Invocable1<Y2, Output = Y3>,
    B: Invocable1<Y3, Output = Y4>,
    C: Invocable1<X1, Output = Y1>,
    D: Invocable1<Y1, Output = Y2>,
    ensures
        comp::<_, _, (Y3,), (X1,)>(comp::<_, _, (Y4,), (Y3,)>(fa, fb), comp::<_, _, (Y1,), (X1,)>(comp::<_, _, (Y2,), (Y1,)>(fa, fd), fc)).accepts1(x1)
            <==> (fc.accepts1(x1) && forall|y1: Y1| fc.yields1(x1, y1) ==> (fd.accepts1(y1) && forall|y2: Y2| fd.yields1(y1, y2) ==> (fa.accepts1(y2) && forall|y3: Y3| fa.yields1(y2, y3) ==> (fb.accepts1(y3) && forall|y4: Y4| fb.yields1(y3, y4) ==> (fa.accepts1(y4)))))),
        comp::<_, _, (Y3,), (X1,)>(comp::<_, _, (Y4,), (Y3,)>(fa, fb), comp::<_, _, (Y1,), (X1,)>(comp::<_, _, (Y2,), (Y1,)>(fa, fd), fc)).yields1(x1, r)
            <==> exists|y1: Y1, y2: Y2, y3: Y3, y4: Y4| fc.yields1(x1, y1) && fd.yields1(y1, y2) && fa.yields1(y2, y3) && fb.yields1(y3, y4) && fa.yields1(y4, r),
{
    let f = comp::<_, _, (Y3,), (X1,)>(comp::<_, _, (Y4,), (Y3,)>(fa, fb), comp::<_, _, (Y1,), (X1,)>(comp::<_, _, (Y2,), (Y1,)>(fa, fd), fc));
    assert forall|y1: Y1, y2: Y2, y3: Y3| fc.yields1(x1, y1) && fd.yields1(y1, y2) && fa.yields1(y2, y3) implies f.inner.yields1(x1, y3) by {
        assert(f.inner.outer.inner.yields1(y1, y2));
        assert(f.inner.outer.outer.yields1(y2, y3));
        assert(f.inner.outer.yields1(y1, y3));
        assert(f.inner.inner.yields1(x1, y1));
    }
    if f.yields1(x1, r) {
        let y3 = choose|y3: Y3| f.inner.yields1(x1, y3) && f.outer.yields1(y3, r);
        let y1 = choose|y1: Y1| f.inner.inner.yields1(x1, y1) && f.inner.outer.yields1(y1, y3);
        let y2 = choose|y2: Y2| f.inner.outer.inner.yields1(y1, y2) && f.inner.outer.outer.yields1(y2, y3);
        let y4 = choose|y4: Y4| f.outer.inner.yields1(y3, y4) && f.outer.outer.yields1(y4, r);
    }
    if exists|y1: Y1, y2: Y2, y3: Y3, y4: Y4| fc.yields1(x1, y1) && fd.yields1(y1, y2) && fa.yields1(y2, y3) && fb.yields1(y3, y4) && fa.yields1(y4, r) {
        let (y1, y2, y3, y4) = choose|y1: Y1, y2: Y2, y3: Y3, y4: Y4| fc.yields1(x1, y1) && fd.yields1(y1, y2) && fa.yields1(y2, y3) && fb.yields1(y3, y4) && fa.yields1(y4, r);
        assert(f.inner.outer.inner.yields1(y1, y2));
        assert(f.inner.outer.outer.yields1(y2, y3));
        assert(f.inner.outer.yields1(y1, y3));
        assert(f.inner.inner.yields1(x1, y1));
        assert(f.inner.yields1(x1, y3));
        assert(f.outer.inner.yields1(y3, y4));
        assert(f.outer.outer.yields1(y4, r));
        assert(f.outer.yields1(y3, r));
        assert(f.yields1(x1, r));
    }
}

/// Lark, called as its lambda form reads, is the nested call `l(a, b)(x) = a(b(b(x)))`: it accepts
/// exactly the arguments for which every call in the nesting is allowed, and gives exactly the
/// results that the nesting can give.
pub proof fn law_l<A, B, X1, Y1, Y2, R>(fa: A, fb: B, x1: X1, r: R) where
    A: Invocable1<Y2, Output = R>,
    B: Invocable1<Y1, Output = Y2> + Invocable1<X1, Output = Y1>,
    ensures
        comp::<_, _, (Y2,), (X1,)>(fa, comp::<_, _, (Y1,), (X1,)>(fb, fb)).accepts1(x1)
            <==> (fb.accepts1(x1) && forall|y1: Y1| fb.yields1(x1, y1) ==> (fb.accepts1(y1) && forall|y2: Y2| fb.yields1(y1, y2) ==> (fa.accepts1(y2)))),
        comp::<_, _, (Y2,), (X1,)>(fa, comp::<_, _, (Y1,), (X1,)>(fb, fb)).yields1(x1, r)
            <==> exists|y1: Y1, y2: Y2| fb.yields1(x1, y1) && fb.yields1(y1, y2) && fa.yields1(y2, r),
{
    let f = comp::<_, _, (Y2,), (X1,)>(fa, comp::<_, _, (Y1,), (X1,)>(fb, fb));
    assert forall|y1: Y1, y2: Y2| fb.yields1(x1, y1) && fb.yields1(y1, y2) implies f.inner.yields1(x1, y2) by {
        assert(f.inner.inner.yields1(x1, y1));
        assert(f.inner.outer.yields1(y1, y2));
    }
    if f.yields1(x1, r) {
        let y2 = choose|y2: Y2| f.inner.yields1(x1, y2) && f.outer.yields1(y2, r);
        let y1 = choose|y1: Y1| f.inner.inner.yields1(x1, y1) && f.inner.outer.yields1(y1, y2);
    }
    if exists|y1: Y1, y2: Y2| fb.yields1(x1, y1) && fb.yields1(y1, y2) && fa.yields1(y2, r) {
        let (y1, y2) = choose|y1: Y1, y2: Y2| fb.yields1(x1, y1) && fb.yields1(y1, y2) && fa.yields1(y2, r);
        assert(f.inner.inner.yields1(x1, y1));
        assert(f.inner.outer.yields1(y1, y2));
        assert(f.inner.yields1(x1, y2));
        assert(f.outer.yields1(y2, r));
        assert(f.yields1(x1, r));
    }
}

/// Mockingbird, called as its lambda form reads, is the nested call `m(a)(x) = a(a(x))`: it accepts
/// exactly the arguments for which every call in the nesting is allowed, and gives exactly the
/// results that the nesting can give.
pub proof fn law_m<A, X1, Y1, R>(fa: A, x1: X1, r: R) where
    A: Invocable1<Y1, Output = R> + Invocable1<X1, Output = Y1>,
    ensures
        comp::<_, _, (Y1,), (X1,)>(fa, fa).accepts1(x1)
            <==> (fa.accepts1(x1) && forall|y1: Y1| fa.yields1(x1, y1) ==> (fa.accepts1(y1))),
        comp::<_, _, (Y1,), (X1,)>(fa, fa).yields1(x1, r)
            <==> exists|y1: Y1| fa.yields1(x1, y1) && fa.yields1(y1, r),
{
    let f = comp::<_, _, (Y1,), (X1,)>(fa, fa);
    if f.yields1(x1, r) {
        let y1 = choose|y1: Y1| f.inner.yields1(x1, y1) && f.outer.yields1(y1, r);
    }
    if exists|y1: Y1| fa.yields1(x1, y1) && fa.yields1(y1, r) {
        let y1 = choose|y1: Y1| fa.yields1(x1, y1) && fa.yields1(y1, r);
        assert(f.inner.yields1(x1, y1));
        assert(f.outer.yields1(y1, r));
        assert(f.yields1(x1, r));
    }
}

/// Double Mockingbird, called as its lambda form reads, is the nested call `m2(a, b)(x1, x2) =
/// a(b(x1), a(b(x2)))`: it accepts exactly the arguments for which every call in the nesting is
/// allowed, and gives exactly the results that the nesting can give.
pub proof fn law_m2<A, B, X1, X2, Y1, Y2, Y3, R>(fa: A, fb: B, x1: X1, x2: X2, r: R) where
    A: Invocable2<Y3, Y2, Output = R> + Invocable1<Y1, Output = Y2>,
    B: Invocable1<X1, Output = Y3> + Invocable1<X2, Output = Y1>,
    ensures
        comp::<_, _, (Y2, X1), (X2,)>(comp::<_, _, (Y3, Y2), (X1,)>(fa, fb), comp::<_, _, (Y1,), (X2,)>(fa, fb)).accepts2(x1, x2)
            <==> (fb.accepts1(x2) && forall|y1: Y1| fb.yields1(x2, y1) ==> (fa.accepts1(y1) && forall|y2: Y2| fa.yields1(y1, y2) ==> (fb.accepts1(x1) && forall|y3: Y3| fb.yields1(x1, y3) ==> (fa.accepts2(y3, y2))))),
        comp::<_, _, (Y2, X1), (X2,)>(comp::<_, _, (Y3, Y2), (X1,)>(fa, fb), comp::<_, _, (Y1,), (X2,)>(fa, fb)).yields2(x1, x2, r)
            <==> exists|y1: Y1, y2: Y2, y3: Y3| fb.yields1(x2, y1) && fa.yields1(y1, y2) && fb.yields1(x1, y3) && fa.yields2(y3, y2, r),
{
    let f = comp::<_, _, (Y2, X1), (X2,)>(comp::<_, _, (Y3, Y2), (X1,)>(fa, fb), comp::<_, _, (Y1,), (X2,)>(fa, fb));
    assert forall|y1: Y1, y2: Y2| fb.yields1(x2, y1) && fa.yields1(y1, y2) implies f.inner.yields1(x2, y2) by {
        assert(f.inner.inner.yields1(x2, y1));
        assert(f.inner.outer.yields1(y1, y2));
    }
    if f.yields2(x1, x2, r) {
        let y2 = choose|y2: Y2| f.inner.yields1(x2, y2) && f.outer.yields2(y2, x1, r);
        let y1 = choose|y1: Y1| f.inner.inner.yields1(x2, y1) && f.inner.outer.yields1(y1, y2);
        let y3 = choose|y3: Y3| f.outer.inner.yields1(x1, y3) && f.outer.outer.yields2(y3, y2, r);
    }
    if exists|y1: Y1, y2: Y2, y3: Y3| fb.yields1(x2, y1) && fa.yields1(y1, y2) && fb.yields1(x1, y3) && fa.yields2(y3, y2, r) {
        let (y1, y2, y3) = choose|y1: Y1, y2: Y2, y3: Y3| fb.yields1(x2, y1) && fa.yields1(y1, y2) && fb.yields1(x1, y3) && fa.yields2(y3, y2, r);
        assert(f.inner.inner.yields1(x2, y1));
        assert(f.inner.outer.yields1(y1, y2));
        assert(f.inner.yields1(x2, y2));
        assert(f.outer.inner.yields1(x1, y3));
        assert(f.outer.outer.yields2(y3, y2, r));
        assert(f.outer.yields2(y2, x1, r));
        assert(f.yields2(x1, x2, r));
    }
}

/// Double Mockingbird with one-argument callables only is the chain `m2(a, b)(x) = a(b(a(b(x))))`,
/// with the same callability and results.
pub proof fn law_m2_chain<A, B, X1, Y1, Y2, Y3, R>(fa: A, fb: B, x1: X1, r: R) where
    A: Invocable1<Y3, Output = R> + Invocable1<Y1, Output = Y2>,
    B: Invocable1<Y2, Output = Y3> + Invocable1<X1, Output = Y1>,
    ensures
        comp::<_, _, (Y2,), (X1,)>(comp::<_, _, (Y3,), (Y2,)>(fa, fb), comp::<_, _, (Y1,), (X1,)>(fa, fb)).accepts1(x1)
            <==> (fb.accepts1(x1) && forall|y1: Y1| fb.yields1(x1, y1) ==> (fa.accepts1(y1) && forall|y2: Y2| fa.yields1(y1, y2) ==> (fb.accepts1(y2) && forall|y3: Y3| fb.yields1(y2, y3) ==> (fa.accepts1(y3))))),
        comp::<_, _, (Y2,), (X1,)>(comp::<_, _, (Y3,), (Y2,)>(fa, fb), comp::<_, _, (Y1,), (X1,)>(fa, fb)).yields1(x1, r)
            <==> exists|y1: Y1, y2: Y2, y3: Y3| fb.yields1(x1, y1) && fa.yields1(y1, y2) && fb.yields1(y2, y3) && fa.yields1(y3, r),
{
    let f = comp::<_, _, (Y2,), (X1,)>(comp::<_, _, (Y3,), (Y2,)>(fa, fb), comp::<_, _, (Y1,), (X1,)>(fa, fb));
    assert forall|y1: Y1, y2: Y2| fb.yields1(x1, y1) && fa.yields1(y1, y2) implies f.inner.yields1(x1, y2) by {
        assert(f.inner.inner.yields1(x1, y1));
        assert(f.inner.outer.yields1(y1, y2));
    }
    if f.yields1(x1, r) {
        let y2 = choose|y2: Y2| f.inner.yields1(x1, y2) && f.outer.yields1(y2, r);
        let y1 = choose|y1: Y1| f.inner.inner.yields1(x1, y1) && f.inner.outer.yields1(y1, y2);
        let y3 = choose|y3: Y3| f.outer.inner.yields1(y2, y3) && f.outer.outer.yields1(y3, r);
    }
    if exists|y1: Y1, y2: Y2, y3: Y3| fb.yields1(x1, y1) && fa.yields1(y1, y2) && fb.yields1(y2, y3) && fa.yields1(y3, r) {
        let (y1, y2, y3) = choose|y1: Y1, y2: Y2, y3: Y3| fb.yields1(x1, y1) && fa.yields1(y1, y2) && fb.yields1(y2, y3) && fa.yields1(y3, r);
        assert(f.inner.inner.yields1(x1, y1));
        assert(f.inner.outer.yields1(y1, y2));
        assert(f.inner.yields1(x1, y2));
        assert(f.outer.inner.yields1(y2, y3));
        assert(f.outer.outer.yields1(y3, r));
        assert(f.outer.yields1(y2, r));
        assert(f.yields1(x1, r));
    }
}

/// Owl, called as its lambda form reads, is the nested call `o(a, b)(x) = b(a(b(x)))`: it accepts
/// exactly the arguments for which every call in the nesting is allowed, and gives exactly the
/// results that the nesting can give.
pub proof fn law_o<A, B, X1, Y1, Y2, R>(fa: A, fb: B, x1: X1, r: R) where
    A: Invocable1<Y1, Output = Y2>,
    B: Invocable1<Y2, Output = R> + Invocable1<X1, Output = Y1>,
    ensures
        comp::<_, _, (Y2,), (X1,)>(fb, comp::<_, _, (Y1,), (X1,)>(fa, fb)).accepts1(x1)
            <==> (fb.accepts1(x1) && forall|y1: Y1| fb.yields1(x1, y1) ==> (fa.accepts1(y1) && forall|y2: Y2| fa.yields1(y1, y2) ==> (fb.accepts1(y2)))),
        comp::<_, _, (Y2,), (X1,)>(fb, comp::<_, _, (Y1,), (X1,)>(fa, fb)).yields1(x1, r)
            <==> exists|y1: Y1, y2: Y2| fb.yields1(x1, y1) && fa.yields1(y1, y2) && fb.yields1(y2, r),
{
    let f = comp::<_, _, (Y2,), (X1,)>(fb, comp::<_, _, (Y1,), (X1,)>(fa, fb));
    assert forall|y1: Y1, y2: Y2| fb.yields1(x1, y1) && fa.yields1(y1, y2) implies f.inner.yields1(x1, y2) by {
        assert(f.inner.inner.yields1(x1, y1));
        assert(f.inner.outer.yields1(y1, y2));
    }
    if f.yields1(x1, r) {
        let y2 = choose|y2: Y2| f.inner.yields1(x1, y2) && f.outer.yields1(y2, r);
        let y1 = choose|y1: Y1| f.inner.inner.yields1(x1, y1) && f.inner.outer.yields1(y1, y2);
    }
    if exists|y1: Y1, y2: Y2| fb.yields1(x1, y1) && fa.yields1(y1, y2) && fb.yields1(y2, r) {
        let (y1, y2) = choose|y1: Y1, y2: Y2| fb.yields1(x1, y1) && fa.yields1(y1, y2) && fb.yields1(y2, r);
        assert(f.inner.inner.yields1(x1, y1));
        assert(f.inner.outer.yields1(y1, y2));
        assert(f.inner.yields1(x1, y2));
        assert(f.outer.yields1(y2, r));
        assert(f.yields1(x1, r));
    }
}

/// Queer Bird, called as its lambda form reads, is the nested call `q(a, b, c)(x) = b(a(c(x)))`: it
/// accepts exactly the arguments for which every call in the nesting is allowed, and gives exactly
/// the results that the nesting can give.
pub proof fn law_q<A, B, C, X1, Y1, Y2, R>(fa: A, fb: B, fc: C, x1: X1, r: R) where
    A: Invocable1<Y1, Output = Y2>,
    B: Invocable1<Y2, Output = R>,
    C: Invocable1<X1, Output = Y1>,
    ensures
        comp::<_, _, (Y2,), (X1,)>(fb, comp::<_, _, (Y1,), (X1,)>(fa, fc)).accepts1(x1)
            <==> (fc.accepts1(x1) && forall|y1: Y1| fc.yields1(x1, y1) ==> (fa.accepts1(y1) && forall|y2: Y2| fa.yields1(y1, y2) ==> (fb.accepts1(y2)))),
        comp::<_, _, (Y2,), (X1,)>(fb, comp::<_, _, (Y1,), (X1,)>(fa, fc)).yields1(x1, r)
            <==> exists|y1: Y1, y2: Y2| fc.yields1(x1, y1) && fa.yields1(y1, y2) && fb.yields1(y2, r),
{
    let f = comp::<_, _, (Y2,), (X1,)>(fb, comp::<_, _, (Y1,), (X1,)>(fa, fc));
    assert forall|y1: Y1, y2: Y2| fc.yields1(x1, y1) && fa.yields1(y1, y2) implies f.inner.yields1(x1, y2) by {
        assert(f.inner.inner.yields1(x1, y1));
        assert(f.inner.outer.yields1(y1, y2));
    }
    if f.yields1(x1, r) {
        let y2 = choose|y2: Y2| f.inner.yields1(x1, y2) && f.outer.yields1(y2, r);
        let y1 = choose|y1: Y1| f.inner.inner.yields1(x1, y1) && f.inner.outer.yields1(y1, y2);
    }
    if exists|y1: Y1, y2: Y2| fc.yields1(x1, y1) && fa.yields1(y1, y2) && fb.yields1(y2, r) {
        let (y1, y2) = choose|y1: Y1, y2: Y2| fc.yields1(x1, y1) && fa.yields1(y1, y2) && fb.yields1(y2, r);
        assert(f.inner.inner.yields1(x1, y1));
        assert(f.inner.outer.yields1(y1, y2));
        assert(f.inner.yields1(x1, y2));
        assert(f.outer.yields1(y2, r));
        assert(f.yields1(x1, r));
    }
}

/// Quixotic Bird, called as its lambda form reads, is the nested call `q1(a, b, c)(x) =
/// a(c(b(x)))`: it accepts exactly the arguments for which every call in the nesting is allowed,
/// and gives exactly the results that the nesting can give.
pub proof fn law_q1<A, B, C, X1, Y1, Y2, R>(fa: A, fb: B, fc: C, x1: X1, r: R) where
    A: Invocable1<Y2, Output = R>,
    B: Invocable1<X1, Output = Y1>,
    C: Invocable1<Y1, Output = Y2>,
    ensures
        comp::<_, _, (Y2,), (X1,)>(fa, comp::<_, _, (Y1,), (X1,)>(fc, fb)).accepts1(x1)
            <==> (fb.accepts1(x1) && forall|y1: Y1| fb.yields1(x1, y1) ==> (fc.accepts1(y1) && forall|y2: Y2| fc.yields1(y1, y2) ==> (fa.accepts1(y2)))),
        comp::<_, _, (Y2,), (X1,)>(fa, comp::<_, _, (Y1,), (X1,)>(fc, fb)).yields1(x1, r)
            <==> exists|y1: Y1, y2: Y2| fb.yields1(x1, y1) && fc.yields1(y1, y2) && fa.yields1(y2, r),
{
    let f = comp::<_, _, (Y2,), (X1,)>(fa, comp::<_, _, (Y1,), (X1,)>(fc, fb));
    assert forall|y1: Y1, y2: Y2| fb.yields1(x1, y1) && fc.yields1(y1, y2) implies f.inner.yields1(x1, y2) by {
        assert(f.inner.inner.yields1(x1, y1));
        assert(f.inner.outer.yields1(y1, y2));
    }
    if f.yields1(x1, r) {
        let y2 = choose|y2: Y2| f.inner.yields1(x1, y2) && f.outer.yields1(y2, r);
        let y1 = choose|y1: Y1| f.inner.inner.yields1(x1, y1) && f.inner.outer.yields1(y1, y2);
    }
    if exists|y1: Y1, y2: Y2| fb.yields1(x1, y1) && fc.yields1(y1, y2) && fa.yields1(y2, r) {
        let (y1, y2) = choose|y1: Y1, y2: Y2| fb.yields1(x1, y1) && fc.yields1(y1, y2) && fa.yields1(y2, r);
        assert(f.inner.inner.yields1(x1, y1));
        assert(f.inner.outer.yields1(y1, y2));
        assert(f.inner.yields1(x1, y2));
        assert(f.outer.yields1(y2, r));
        assert(f.yields1(x1, r));
    }
}

/// Quizzical Bird, called as its lambda form reads, is the nested call `q2(a, b, c)(x) =
/// b(c(a(x)))`: it accepts exactly the arguments for which every call in the nesting is allowed,
/// and gives exactly the results that the nesting can give.
pub proof fn law_q2<A, B, C, X1, Y1, Y2, R>(fa: A, fb: B, fc: C, x1: X1, r: R) where
    A: Invocable1<X1, Output = Y1>,
    B: Invocable1<Y2, Output = R>,
    C: Invocable1<Y1, Output = Y2>,
    ensures
        comp::<_, _, (Y2,), (X1,)>(fb, comp::<_, _, (Y1,), (X1,)>(fc, fa)).accepts1(x1)
            <==> (fa.accepts1(x1) && forall|y1: Y1| fa.yields1(x1, y1) ==> (fc.accepts1(y1) && forall|y2: Y2| fc.yields1(y1, y2) ==> (fb.accepts1(y2)))),
        comp::<_, _, (Y2,), (X1,)>(fb, comp::<_, _, (Y1,), (X1,)>(fc, fa)).yields1(x1, r)
            <==> exists|y1: Y1, y2: Y2| fa.yields1(x1, y1) && fc.yields1(y1, y2) && fb.yields1(y2, r),
{
    let f = comp::<_, _, (Y2,), (X1,)>(fb, comp::<_, _, (Y1,), (X1,)>(fc, fa));
    assert forall|y1: Y1, y2: Y2| fa.yields1(x1, y1) && fc.yields1(y1, y2) implies f.inner.yields1(x1, y2) by {
        assert(f.inner.inner.yields1(x1, y1));
        assert(f.inner.outer.yields1(y1, y2));
    }
    if f.yields1(x1, r) {
        let y2 = choose|y2: Y2| f.inner.yields1(x1, y2) && f.outer.yields1(y2, r);
        let y1 = choose|y1: Y1| f.inner.inner.yields1(x1, y1) && f.inner.outer.yields1(y1, y2);
    }
    if exists|y1: Y1, y2: Y2| fa.yields1(x1, y1) && fc.yields1(y1, y2) && fb.yields1(y2, r) {
        let (y1, y2) = choose|y1: Y1, y2: Y2| fa.yields1(x1, y1) && fc.yields1(y1, y2) && fb.yields1(y2, r);
        assert(f.inner.inner.yields1(x1, y1));
        assert(f.inner.outer.yields1(y1, y2));
        assert(f.inner.yields1(x1, y2));
        assert(f.outer.yields1(y2, r));
        assert(f.yields1(x1, r));
    }
}

/// Quirky Bird, called as its lambda form reads, is the nested call `q3(a, b, c)(x) = c(a(b(x)))`:
/// it accepts exactly the arguments for which every call in the nesting is allowed, and gives
/// exactly the results that the nesting can give.
pub proof fn law_q3<A, B, C, X1, Y1, Y2, R>(fa: A, fb: B, fc: C, x1: X1, r: R) where
    A: Invocable1<Y1, Output = Y2>,
    B: Invocable1<X1, Output = Y1>,
    C: Invocable1<Y2, Output = R>,
    ensures
        comp::<_, _, (Y2,), (X1,)>(fc, comp::<_, _, (Y1,), (X1,)>(fa, fb)).accepts1(x1)
            <==> (fb.accepts1(x1) && forall|y1: Y1| fb.yields1(x1, y1) ==> (fa.accepts1(y1) && forall|y2: Y2| fa.yields1(y1, y2) ==> (fc.accepts1(y2)))),
        comp::<_, _, (Y2,), (X1,)>(fc, comp::<_, _, (Y1,), (X1,)>(fa, fb)).yields1(x1, r)
            <==> exists|y1: Y1, y2: Y2| fb.yields1(x1, y1) && fa.yields1(y1, y2) && fc.yields1(y2, r),
{
    let f = comp::<_, _, (Y2,), (X1,)>(fc, comp::<_, _, (Y1,), (X1,)>(fa, fb));
    assert forall|y1: Y1, y2: Y2| fb.yields1(x1, y1) && fa.yields1(y1, y2) implies f.inner.yields1(x1, y2) by {
        assert(f.inner.inner.yields1(x1, y1));
        assert(f.inner.outer.yields1(y1, y2));
    }
    if f.yields1(x1, r) {
        let y2 = choose|y2: Y2| f.inner.yields1(x1, y2) && f.outer.yields1(y2, r);
        let y1 = choose|y1: Y1| f.inner.inner.yields1(x1, y1) && f.inner.outer.yields1(y1, y2);
    }
    if exists|y1: Y1, y2: Y2| fb.yields1(x1, y1) && fa.yields1(y1, y2) && fc.yields1(y2, r) {
        let (y1, y2) = choose|y1: Y1, y2: Y2| fb.yields1(x1, y1) && fa.yields1(y1, y2) && fc.yields1(y2, r);
        assert(f.inner.inner.yields1(x1, y1));
        assert(f.inner.outer.yields1(y1, y2));
        assert(f.inner.yields1(x1, y2));
        assert(f.outer.yields1(y2, r));
        assert(f.yields1(x1, r));
    }
}

/// Quacky Bird, called as its lambda form reads, is the nested call `q4(a, b, c)(x) = c(b(a(x)))`:
/// it accepts exactly the arguments for which every call in the nesting is allowed, and gives
/// exactly the results that the nesting can give.
pub proof fn law_q4<A, B, C, X1, Y1, Y2, R>(fa: A, fb: B, fc: C, x1: X1, r: R) where
    A: Invocable1<X1, Output = Y1>,
    B: Invocable1<Y1, Output = Y2>,
    C: Invocable1<Y2, Output = R>,
    ensures
        comp::<_, _, (Y2,), (X1,)>(fc, comp::<_, _, (Y1,), (X1,)>(fb, fa)).accepts1(x1)
            <==> (fa.accepts1(x1) && forall|y1: Y1| fa.yields1(x1, y1) ==> (fb.accepts1(y1) && forall|y2: Y2| fb.yields1(y1, y2) ==> (fc.accepts1(y2)))),
        comp::<_, _, (Y2,), (X1,)>(fc, comp::<_, _, (Y1,), (X1,)>(fb, fa)).yields1(x1, r)
            <==> exists|y1: Y1, y2: Y2| fa.yields1(x1, y1) && fb.yields1(y1, y2) && fc.yields1(y2, r),
{
    let f = comp::<_, _, (Y2,), (X1,)>(fc, comp::<_, _, (Y1,), (X1,)>(fb, fa));
    assert forall|y1: Y1, y2: Y2| fa.yields1(x1, y1) && fb.yields1(y1, y2) implies f.inner.yields1(x1, y2) by {
        assert(f.inner.inner.yields1(x1, y1));
        assert(f.inner.outer.yields1(y1, y2));
    }
    if f.yields1(x1, r) {
        let y2 = choose|y2: Y2| f.inner.yields1(x1, y2) && f.outer.yields1(y2, r);
        let y1 = choose|y1: Y1| f.inner.inner.yields1(x1, y1) && f.inner.outer.yields1(y1, y2);
    }
    if exists|y1: Y1, y2: Y2| fa.yields1(x1, y1) && fb.yields1(y1, y2) && fc.yields1(y2, r) {
        let (y1, y2) = choose|y1: Y1, y2: Y2| fa.yields1(x1, y1) && fb.yields1(y1, y2) && fc.yields1(y2, r);
        assert(f.inner.inner.yields1(x1, y1));
        assert(f.inner.outer.yields1(y1, y2));
        assert(f.inner.yields1(x1, y2));
        assert(f.outer.yields1(y2, r));
        assert(f.yields1(x1, r));
    }
}

/// Robin, called as its lambda form reads, is the nested call `r(a, b, c)(x1, x2) = b(c(x1),
/// a(x2))`: it accepts exactly the arguments for which every call in the nesting is allowed, and
/// gives exactly the results that the nesting can give.
pub proof fn law_r<A, B, C, X1, X2, Y1, Y2, R>(fa: A, fb: B, fc: C, x1: X1, x2: X2, r: R) where
    A: Invocable1<X2, Output = Y1>,
    B: Invocable2<Y2, Y1, Output = R>,
    C: Invocable1<X1, Output = Y2>,
    ensures
        comp::<_, _, (Y1, X1), (X2,)>(comp::<_, _, (Y2, Y1), (X1,)>(fb, fc), fa).accepts2(x1, x2)
            <==> (fa.accepts1(x2) && forall|y1: Y1| fa.yields1(x2, y1) ==> (fc.accepts1(x1) && forall|y2: Y2| fc.yields1(x1, y2) ==> (fb.accepts2(y2, y1)))),
        comp::<_, _, (Y1, X1), (X2,)>(comp::<_, _, (Y2, Y1), (X1,)>(fb, fc), fa).yields2(x1, x2, r)
            <==> exists|y1: Y1, y2: Y2| fa.yields1(x2, y1) && fc.yields1(x1, y2) && fb.yields2(y2, y1, r),
{
    let f = comp::<_, _, (Y1, X1), (X2,)>(comp::<_, _, (Y2, Y1), (X1,)>(fb, fc), fa);
    if f.yields2(x1, x2, r) {
        let y1 = choose|y1: Y1| f.inner.yields1(x2, y1) && f.outer.yields2(y1, x1, r);
        let y2 = choose|y2: Y2| f.outer.inner.yields1(x1, y2) && f.outer.outer.yields2(y2, y1, r);
    }
    if exists|y1: Y1, y2: Y2| fa.yields1(x2, y1) && fc.yields1(x1, y2) && fb.yields2(y2, y1, r) {
        let (y1, y2) = choose|y1: Y1, y2: Y2| fa.yields1(x2, y1) && fc.yields1(x1, y2) && fb.yields2(y2, y1, r);
        assert(f.outer.inner.yields1(x1, y2));
        assert(f.outer.outer.yields2(y2, y1, r));
        assert(f.outer.yields2(y1, x1, r));
        assert(f.inner.yields1(x2, y1));
        assert(f.yields2(x1, x2, r));
    }
}

/// Robin with one-argument callables only is the chain `r(a, b, c)(x) = b(c(a(x)))`, with the same
/// callability and results.
pub proof fn law_r_chain<A, B, C, X1, Y1, Y2, R>(fa: A, fb: B, fc: C, x1: X1, r: R) where
    A: Invocable1<X1, Output = Y1>,
    B: Invocable1<Y2, Output = R>,
    C: Invocable1<Y1, Output = Y2>,
    ensures
        comp::<_, _, (Y1,), (X1,)>(comp::<_, _, (Y2,), (Y1,)>(fb, fc), fa).accepts1(x1)
            <==> (fa.accepts1(x1) && forall|y1: Y1| fa.yields1(x1, y1) ==> (fc.accepts1(y1) && forall|y2: Y2| fc.yields1(y1, y2) ==> (fb.accepts1(y2)))),
        comp::<_, _, (Y1,), (X1,)>(comp::<_, _, (Y2,), (Y1,)>(fb, fc), fa).yields1(x1, r)
            <==> exists|y1: Y1, y2: Y2| fa.yields1(x1, y1) && fc.yields1(y1, y2) && fb.yields1(y2, r),
{
    let f = comp::<_, _, (Y1,), (X1,)>(comp::<_, _, (Y2,), (Y1,)>(fb, fc), fa);
    if f.yields1(x1, r) {
        let y1 = choose|y1: Y1| f.inner.yields1(x1, y1) && f.outer.yields1(y1, r);
        let y2 = choose|y2: Y2| f.outer.inner.yields1(y1, y2) && f.outer.outer.yields1(y2, r);
    }
    if exists|y1: Y1, y2: Y2| fa.yields1(x1, y1) && fc.yields1(y1, y2) && fb.yields1(y2, r) {
        let (y1, y2) = choose|y1: Y1, y2: Y2| fa.yields1(x1, y1) && fc.yields1(y1, y2) && fb.yields1(y2, r);
        assert(f.outer.inner.yields1(y1, y2));
        assert(f.outer.outer.yields1(y2, r));
        assert(f.outer.yields1(y1, r));
        assert(f.inner.yields1(x1, y1));
        assert(f.yields1(x1, r));
    }
}

/// Starling, called as its lambda form reads, is the nested call `s(a, b, c)(x1, x2) = a(c(x1),
/// b(c(x2)))`: it accepts exactly the arguments for which every call in the nesting is allowed, and
/// gives exactly the results that the nesting can give.
pub proof fn law_s<A, B, C, X1, X2, Y1, Y2, Y3, R>(fa: A, fb: B, fc: C, x1: X1, x2: X2, r: R) where
    A: Invocable2<Y3, Y2, Output = R>,
    B: Invocable1<Y1, Output = Y2>,
    C: Invocable1<X1, Output = Y3> + Invocable1<X2, Output = Y1>,
    ensures
        comp::<_, _, (Y2, X1), (X2,)>(comp::<_, _, (Y3, Y2), (X1,)>(fa, fc), comp::<_, _, (Y1,), (X2,)>(fb, fc)).accepts2(x1, x2)
            <==> (fc.accepts1(x2) && forall|y1: Y1| fc.yields1(x2, y1) ==> (fb.accepts1(y1) && forall|y2: Y2| fb.yields1(y1, y2) ==> (fc.accepts1(x1) && forall|y3: Y3| fc.yields1(x1, y3) ==> (fa.accepts2(y3, y2))))),
        comp::<_, _, (Y2, X1), (X2,)>(comp::<_, _, (Y3, Y2), (X1,)>(fa, fc), comp::<_, _, (Y1,), (X2,)>(fb, fc)).yields2(x1, x2, r)
            <==> exists|y1: Y1, y2: Y2, y3: Y3| fc.yields1(x2, y1) && fb.yields1(y1, y2) && fc.yields1(x1, y3) && fa.yields2(y3, y2, r),
{
    let f = comp::<_, _, (Y2, X1), (X2,)>(comp::<_, _, (Y3, Y2), (X1,)>(fa, fc), comp::<_, _, (Y1,), (X2,)>(fb, fc));
    assert forall|y1: Y1, y2: Y2| fc.yields1(x2, y1) && fb.yields1(y1, y2) implies f.inner.yields1(x2, y2) by {
        assert(f.inner.inner.yields1(x2, y1));
        assert(f.inner.outer.yields1(y1, y2));
    }
    if f.yields2(x1, x2, r) {
        let y2 = choose|y2: Y2| f.inner.yields1(x2, y2) && f.outer.yields2(y2, x1, r);
        let y1 = choose|y1: Y1| f.inner.inner.yields1(x2, y1) && f.inner.outer.yields1(y1, y2);
        let y3 = choose|y3: Y3| f.outer.inner.yields1(x1, y3) && f.outer.outer.yields2(y3, y2, r);
    }
    if exists|y1: Y1, y2: Y2, y3: Y3| fc.yields1(x2, y1) && fb.yields1(y1, y2) && fc.yields1(x1, y3) && fa.yields2(y3, y2, r) {
        let (y1, y2, y3) = choose|y1: Y1, y2: Y2, y3: Y3| fc.yields1(x2, y1) && fb.yields1(y1, y2) && fc.yields1(x1, y3) && fa.yields2(y3, y2, r);
        assert(f.inner.inner.yields1(x2, y1));
        assert(f.inner.outer.yields1(y1, y2));
        assert(f.inner.yields1(x2, y2));
        assert(f.outer.inner.yields1(x1, y3));
        assert(f.outer.outer.yields2(y3, y2, r));
        assert(f.outer.yields2(y2, x1, r));
        assert(f.yields2(x1, x2, r));
    }
}

/// Starling with one-argument callables only is the chain `s(a, b, c)(x) = a(c(b(c(x))))`, with the
/// same callability and results.
pub proof fn law_s_chain<A, B, C, X1, Y1, Y2, Y3, R>(fa: A, fb: B, fc: C, x1: X1, r: R) where
    A: Invocable1<Y3, Output = R>,
    B: Invocable1<Y1, Output = Y2>,
    C: Invocable1<Y2, Output = Y3> + Invocable1<X1, Output = Y1>,
    ensures
        comp::<_, _, (Y2,), (X1,)>(comp::<_, _, (Y3,), (Y2,)>(fa, fc), comp::<_, _, (Y1,), (X1,)>(fb, fc)).accepts1(x1)
            <==> (fc.accepts1(x1) && forall|y1: Y1| fc.yields1(x1, y1) ==> (fb.accepts1(y1) && forall|y2: Y2| fb.yields1(y1, y2) ==> (fc.accepts1(y2) && forall|y3: Y3| fc.yields1(y2, y3) ==> (fa.accepts1(y3))))),
        comp::<_, _, (Y2,), (X1,)>(comp::<_, _, (Y3,), (Y2,)>(fa, fc), comp::<_, _, (Y1,), (X1,)>(fb, fc)).yields1(x1, r)
            <==> exists|y1: Y1, y2: Y2, y3: Y3| fc.yields1(x1, y1) && fb.yields1(y1, y2) && fc.yields1(y2, y3) && fa.yields1(y3, r),
{
    let f = comp::<_, _, (Y2,), (X1,)>(comp::<_, _, (Y3,), (Y2,)>(fa, fc), comp::<_, _, (Y1,), (X1,)>(fb, fc));
    assert forall|y1: Y1, y2: Y2| fc.yields1(x1, y1) && fb.yields1(y1, y2) implies f.inner.yields1(x1, y2) by {
        assert(f.inner.inner.yields1(x1, y1));
        assert(f.inner.outer.yields1(y1, y2));
    }
    if f.yields1(x1, r) {
        let y2 = choose|y2: Y2| f.inner.yields1(x1, y2) && f.outer.yields1(y2, r);
        let y1 = choose|y1: Y1| f.inner.inner.yields1(x1, y1) && f.inner.outer.yields1(y1, y2);
        let y3 = choose|y3: Y3| f.outer.inner.yields1(y2, y3) && f.outer.outer.yields1(y3, r);
    }
    if exists|y1: Y1, y2: Y2, y3: Y3| fc.yields1(x1, y1) && fb.yields1(y1, y2) && fc.yields1(y2, y3) && fa.yields1(y3, r) {
        let (y1, y2, y3) = choose|y1: Y1, y2: Y2, y3: Y3| fc.yields1(x1, y1) && fb.yields1(y1, y2) && fc.yields1(y2, y3) && fa.yields1(y3, r);
        assert(f.inner.inner.yields1(x1, y1));
        assert(f.inner.outer.yields1(y1, y2));
        assert(f.inner.yields1(x1, y2));
        assert(f.outer.inner.yields1(y2, y3));
        assert(f.outer.outer.yields1(y3, r));
        assert(f.outer.yields1(y2, r));
        assert(f.yields1(x1, r));
    }
}

/// Thrush, called as its lambda form reads, is the nested call `t(a, b)(x) = b(a(x))`: it accepts
/// exactly the arguments for which every call in the nesting is allowed, and gives exactly the
/// results that the nesting can give.
pub proof fn law_t<A, B, X1, Y1, R>(fa: A, fb: B, x1: X1, r: R) where
    A: Invocable1<X1, Output = Y1>,
    B: Invocable1<Y1, Output = R>,
    ensures
        comp::<_, _, (Y1,), (X1,)>(fb, fa).accepts1(x1)
            <==> (fa.accepts1(x1) && forall|y1: Y1| fa.yields1(x1, y1) ==> (fb.accepts1(y1))),
        comp::<_, _, (Y1,), (X1,)>(fb, fa).yields1(x1, r)
            <==> exists|y1: Y1| fa.yields1(x1, y1) && fb.yields1(y1, r),
{
    let f = comp::<_, _, (Y1,), (X1,)>(fb, fa);
    if f.yields1(x1, r) {
        let y1 = choose|y1: Y1| f.inner.yields1(x1, y1) && f.outer.yields1(y1, r);
    }
    if exists|y1: Y1| fa.yields1(x1, y1) && fb.yields1(y1, r) {
        let y1 = choose|y1: Y1| fa.yields1(x1, y1) && fb.yields1(y1, r);
        assert(f.inner.yields1(x1, y1));
        assert(f.outer.yields1(y1, r));
        assert(f.yields1(x1, r));
    }
}

/// Turing, called as its lambda form reads, is the nested call `u(a, b)(x1, x2) = b(a(a(x1),
/// b(x2)))`: it accepts exactly the arguments for which every call in the nesting is allowed, and
/// gives exactly the results that the nesting can give.
pub proof fn law_u<A, B, X1, X2, Y1, Y2, Y3, R>(fa: A, fb: B, x1: X1, x2: X2, r: R) where
    A: Invocable2<Y2, Y1, Output = Y3> + Invocable1<X1, Output = Y2>,
    B: Invocable1<Y3, Output = R> + Invocable1<X2, Output = Y1>,
    ensures
        comp::<_, _, (Y3,), (X1, X2)>(fb, comp::<_, _, (Y1, X1), (X2,)>(comp::<_, _, (Y2, Y1), (X1,)>(fa, fa), fb)).accepts2(x1, x2)
            <==> (fb.accepts1(x2) && forall|y1: Y1| fb.yields1(x2, y1) ==> (fa.accepts1(x1) && forall|y2: Y2| fa.yields1(x1, y2) ==> (fa.accepts2(y2, y1) && forall|y3: Y3| fa.yields2(y2, y1, y3) ==> (fb.accepts1(y3))))),
        comp::<_, _, (Y3,), (X1, X2)>(fb, comp::<_, _, (Y1, X1), (X2,)>(comp::<_, _, (Y2, Y1), (X1,)>(fa, fa), fb)).yields2(x1, x2, r)
            <==> exists|y1: Y1, y2: Y2, y3: Y3| fb.yields1(x2, y1) && fa.yields1(x1, y2) && fa.yields2(y2, y1, y3) && fb.yields1(y3, r),
{
    let f = comp::<_, _, (Y3,), (X1, X2)>(fb, comp::<_, _, (Y1, X1), (X2,)>(comp::<_, _, (Y2, Y1), (X1,)>(fa, fa), fb));
    assert forall|y1: Y1, y2: Y2, y3: Y3| fb.yields1(x2, y1) && fa.yields1(x1, y2) && fa.yields2(y2, y1, y3) implies f.inner.yields2(x1, x2, y3) by {
        assert(f.inner.outer.inner.yields1(x1, y2));
        assert(f.inner.outer.outer.yields2(y2, y1, y3));
        assert(f.inner.outer.yields2(y1, x1, y3));
        assert(f.inner.inner.yields1(x2, y1));
    }
    if f.yields2(x1, x2, r) {
        let y3 = choose|y3: Y3| f.inner.yields2(x1, x2, y3) && f.outer.yields1(y3, r);
        let y1 = choose|y1: Y1| f.inner.inner.yields1(x2, y1) && f.inner.outer.yields2(y1, x1, y3);
        let y2 = choose|y2: Y2| f.inner.outer.inner.yields1(x1, y2) && f.inner.outer.outer.yields2(y2, y1, y3);
    }
    if exists|y1: Y1, y2: Y2, y3: Y3| fb.yields1(x2, y1) && fa.yields1(x1, y2) && fa.yields2(y2, y1, y3) && fb.yields1(y3, r) {
        let (y1, y2, y3) = choose|y1: Y1, y2: Y2, y3: Y3| fb.yields1(x2, y1) && fa.yields1(x1, y2) && fa.yields2(y2, y1, y3) && fb.yields1(y3, r);
        assert(f.inner.outer.inner.yields1(x1, y2));
        assert(f.inner.outer.outer.yields2(y2, y1, y3));
        assert(f.inner.outer.yields2(y1, x1, y3));
        assert(f.inner.inner.yields1(x2, y1));
        assert(f.inner.yields2(x1, x2, y3));
        assert(f.outer.yields1(y3, r));
        assert(f.yields2(x1, x2, r));
    }
}

/// Turing with one-argument callables only is the chain `u(a, b)(x) = b(a(a(b(x))))`, with the same
/// callability and results.
pub proof fn law_u_chain<A, B, X1, Y1, Y2, Y3, R>(fa: A, fb: B, x1: X1, r: R) where
    A: Invocable1<Y2, Output = Y3> + Invocable1<Y1, Output = Y2>,
    B: Invocable1<Y3, Output = R> + Invocable1<X1, Output = Y1>,
    ensures
        comp::<_, _, (Y3,), (X1,)>(fb, comp::<_, _, (Y1,), (X1,)>(comp::<_, _, (Y2,), (Y1,)>(fa, fa), fb)).accepts1(x1)
            <==> (fb.accepts1(x1) && forall|y1: Y1| fb.yields1(x1, y1) ==> (fa.accepts1(y1) && forall|y2: Y2| fa.yields1(y1, y2) ==> (fa.accepts1(y2) && forall|y3: Y3| fa.yields1(y2, y3) ==> (fb.accepts1(y3))))),
        comp::<_, _, (Y3,), (X1,)>(fb, comp::<_, _, (Y1,), (X1,)>(comp::<_, _, (Y2,), (Y1,)>(fa, fa), fb)).yields1(x1, r)
            <==> exists|y1: Y1, y2: Y2, y3: Y3| fb.yields1(x1, y1) && fa.yields1(y1, y2) && fa.yields1(y2, y3) && fb.yields1(y3, r),
{
    let f = comp::<_, _, (Y3,), (X1,)>(fb, comp::<_, _, (Y1,), (X1,)>(comp::<_, _, (Y2,), (Y1,)>(fa, fa), fb));
    assert forall|y1: Y1, y2: Y2, y3: Y3| fb.yields1(x1, y1) && fa.yields1(y1, y2) && fa.yields1(y2, y3) implies f.inner.yields1(x1, y3) by {
        assert(f.inner.outer.inner.yields1(y1, y2));
        assert(f.inner.outer.outer.yields1(y2, y3));
        assert(f.inner.outer.yields1(y1, y3));
        assert(f.inner.inner.yields1(x1, y1));
    }
    if f.yields1(x1, r) {
        let y3 = choose|y3: Y3| f.inner.yields1(x1, y3) && f.outer.yields1(y3, r);
        let y1 = choose|y1: Y1| f.inner.inner.yields1(x1, y1) && f.inner.outer.yields1(y1, y3);
        let y2 = choose|y2: Y2| f.inner.outer.inner.yields1(y1, y2) && f.inner.outer.outer.yields1(y2, y3);
    }
    if exists|y1: Y1, y2: Y2, y3: Y3| fb.yields1(x1, y1) && fa.yields1(y1, y2) && fa.yields1(y2, y3) && fb.yields1(y3, r) {
        let (y1, y2, y3) = choose|y1: Y1, y2: Y2, y3: Y3| fb.yields1(x1, y1) && fa.yields1(y1, y2) && fa.yields1(y2, y3) && fb.yields1(y3, r);
        assert(f.inner.outer.inner.yields1(y1, y2));
        assert(f.inner.outer.outer.yields1(y2, y3));
        assert(f.inner.outer.yields1(y1, y3));
        assert(f.inner.inner.yields1(x1, y1));
        assert(f.inner.yields1(x1, y3));
        assert(f.outer.yields1(y3, r));
        assert(f.yields1(x1, r));
    }
}

/// Vireo, called as its lambda form reads, is the nested call `v(a, b, c)(x1, x2) = c(a(x1),
/// b(x2))`: it accepts exactly the arguments for which every call in the nesting is allowed, and
/// gives exactly the results that the nesting can give.
pub proof fn law_v<A, B, C, X1, X2, Y1, Y2, R>(fa: A, fb: B, fc: C, x1: X1, x2: X2, r: R) where
    A: Invocable1<X1, Output = Y2>,
    B: Invocable1<X2, Output = Y1>,
    C: Invocable2<Y2, Y1, Output = R>,
    ensures
        comp::<_, _, (Y1, X1), (X2,)>(comp::<_, _, (Y2, Y1), (X1,)>(fc, fa), fb).accepts2(x1, x2)
            <==> (fb.accepts1(x2) && forall|y1: Y1| fb.yields1(x2, y1) ==> (fa.accepts1(x1) && forall|y2: Y2| fa.yields1(x1, y2) ==> (fc.accepts2(y2, y1)))),
        comp::<_, _, (Y1, X1), (X2,)>(comp::<_, _, (Y2, Y1), (X1,)>(fc, fa), fb).yields2(x1, x2, r)
            <==> exists|y1: Y1, y2: Y2| fb.yields1(x2, y1) && fa.yields1(x1, y2) && fc.yields2(y2, y1, r),
{
    let f = comp::<_, _, (Y1, X1), (X2,)>(comp::<_, _, (Y2, Y1), (X1,)>(fc, fa), fb);
    if f.yields2(x1, x2, r) {
        let y1 = choose|y1: Y1| f.inner.yields1(x2, y1) && f.outer.yields2(y1, x1, r);
        let y2 = choose|y2: Y2| f.outer.inner.yields1(x1, y2) && f.outer.outer.yields2(y2, y1, r);
    }
    if exists|y1: Y1, y2: Y2| fb.yields1(x2, y1) && fa.yields1(x1, y2) && fc.yields2(y2, y1, r) {
        let (y1, y2) = choose|y1: Y1, y2: Y2| fb.yields1(x2, y1) && fa.yields1(x1, y2) && fc.yields2(y2, y1, r);
        assert(f.outer.inner.yields1(x1, y2));
        assert(f.outer.outer.yields2(y2, y1, r));
        assert(f.outer.yields2(y1, x1, r));
        assert(f.inner.yields1(x2, y1));
        assert(f.yields2(x1, x2, r));
    }
}

/// Vireo with one-argument callables only is the chain `v(a, b, c)(x) = c(a(b(x)))`, with the same
/// callability and results.
pub proof fn law_v_chain<A, B, C, X1, Y1, Y2, R>(fa: A, fb: B, fc: C, x1: X1, r: R) where
    A: Invocable1<Y1, Output = Y2>,
    B: Invocable1<X1, Output = Y1>,
    C: Invocable1<Y2, Output = R>,
    ensures
        comp::<_, _, (Y1,), (X1,)>(comp::<_, _, (Y2,), (Y1,)>(fc, fa), fb).accepts1(x1)
            <==> (fb.accepts1(x1) && forall|y1: Y1| fb.yields1(x1, y1) ==> (fa.accepts1(y1) && forall|y2: Y2| fa.yields1(y1, y2) ==> (fc.accepts1(y2)))),
        comp::<_, _, (Y1,), (X1,)>(comp::<_, _, (Y2,), (Y1,)>(fc, fa), fb).yields1(x1, r)
            <==> exists|y1: Y1, y2: Y2| fb.yields1(x1, y1) && fa.yields1(y1, y2) && fc.yields1(y2, r),
{
    let f = comp::<_, _, (Y1,), (X1,)>(comp::<_, _, (Y2,), (Y1,)>(fc, fa), fb);
    if f.yields1(x1, r) {
        let y1 = choose|y1: Y1| f.inner.yields1(x1, y1) && f.outer.yields1(y1, r);
        let y2 = choose|y2: Y2| f.outer.inner.yields1(y1, y2) && f.outer.outer.yields1(y2, r);
    }
    if exists|y1: Y1, y2: Y2| fb.yields1(x1, y1) && fa.yields1(y1, y2) && fc.yields1(y2, r) {
        let (y1, y2) = choose|y1: Y1, y2: Y2| fb.yields1(x1, y1) && fa.yields1(y1, y2) && fc.yields1(y2, r);
        assert(f.outer.inner.yields1(y1, y2));
        assert(f.outer.outer.yields1(y2, r));
        assert(f.outer.yields1(y1, r));
        assert(f.inner.yields1(x1, y1));
        assert(f.yields1(x1, r));
    }
}

/// Warbler, called as its lambda form reads, is the nested call `w(a, b)(x1, x2) = a(b(x1),
/// b(x2))`: it accepts exactly the arguments for which every call in the nesting is allowed, and
/// gives exactly the results that the nesting can give.
pub proof fn law_w<A, B, X1, X2, Y1, Y2, R>(fa: A, fb: B, x1: X1, x2: X2, r: R) where
    A: Invocable2<Y2, Y1, Output = R>,
    B: Invocable1<X1, Output = Y2> + Invocable1<X2, Output = Y1>,
    ensures
        comp::<_, _, (Y1, X1), (X2,)>(comp::<_, _, (Y2, Y1), (X1,)>(fa, fb), fb).accepts2(x1, x2)
            <==> (fb.accepts1(x2) && forall|y1: Y1| fb.yields1(x2, y1) ==> (fb.accepts1(x1) && forall|y2: Y2| fb.yields1(x1, y2) ==> (fa.accepts2(y2, y1)))),
        comp::<_, _, (Y1, X1), (X2,)>(comp::<_, _, (Y2, Y1), (X1,)>(fa, fb), fb).yields2(x1, x2, r)
            <==> exists|y1: Y1, y2: Y2| fb.yields1(x2, y1) && fb.yields1(x1, y2) && fa.yields2(y2, y1, r),
{
    let f = comp::<_, _, (Y1, X1), (X2,)>(comp::<_, _, (Y2, Y1), (X1,)>(fa, fb), fb);
    if f.yields2(x1, x2, r) {
        let y1 = choose|y1: Y1| f.inner.yields1(x2, y1) && f.outer.yields2(y1, x1, r);
        let y2 = choose|y2: Y2| f.outer.inner.yields1(x1, y2) && f.outer.outer.yields2(y2, y1, r);
    }
    if exists|y1: Y1, y2: Y2| fb.yields1(x2, y1) && fb.yields1(x1, y2) && fa.yields2(y2, y1, r) {
        let (y1, y2) = choose|y1: Y1, y2: Y2| fb.yields1(x2, y1) && fb.yields1(x1, y2) && fa.yields2(y2, y1, r);
        assert(f.outer.inner.yields1(x1, y2));
        assert(f.outer.outer.yields2(y2, y1, r));
        assert(f.outer.yields2(y1, x1, r));
        assert(f.inner.yields1(x2, y1));
        assert(f.yields2(x1, x2, r));
    }
}

/// Warbler with one-argument callables only is the chain `w(a, b)(x) = a(b(b(x)))`, with the same
/// callability and results.
pub proof fn law_w_chain<A, B, X1, Y1, Y2, R>(fa: A, fb: B, x1: X1, r: R) where
    A: Invocable1<Y2, Output = R>,
    B: Invocable1<Y1, Output = Y2> + Invocable1<X1, Output = Y1>,
    ensures
        comp::<_, _, (Y1,), (X1,)>(comp::<_, _, (Y2,), (Y1,)>(fa, fb), fb).accepts1(x1)
            <==> (fb.accepts1(x1) && forall|y1: Y1| fb.yields1(x1, y1) ==> (fb.accepts1(y1) && forall|y2: Y2| fb.yields1(y1, y2) ==> (fa.accepts1(y2)))),
        comp::<_, _, (Y1,), (X1,)>(comp::<_, _, (Y2,), (Y1,)>(fa, fb), fb).yields1(x1, r)
            <==> exists|y1: Y1, y2: Y2| fb.yields1(x1, y1) && fb.yields1(y1, y2) && fa.yields1(y2, r),
{
    let f = comp::<_, _, (Y1,), (X1,)>(comp::<_, _, (Y2,), (Y1,)>(fa, fb), fb);
    if f.yields1(x1, r) {
        let y1 = choose|y1: Y1| f.inner.yields1(x1, y1) && f.outer.yields1(y1, r);
        let y2 = choose|y2: Y2| f.outer.inner.yields1(y1, y2) && f.outer.outer.yields1(y2, r);
    }
    if exists|y1: Y1, y2: Y2| fb.yields1(x1, y1) && fb.yields1(y1, y2) && fa.yields1(y2, r) {
        let (y1, y2) = choose|y1: Y1, y2: Y2| fb.yields1(x1, y1) && fb.yields1(y1, y2) && fa.yields1(y2, r);
        assert(f.outer.inner.yields1(y1, y2));
        assert(f.outer.outer.yields1(y2, r));
        assert(f.outer.yields1(y1, r));
        assert(f.inner.yields1(x1, y1));
        assert(f.yields1(x1, r));
    }
}

/// Converse Warbler, called as its lambda form reads, is the nested call `w1(a, b)(x1, x2) =
/// b(a(x1), a(x2))`: it accepts exactly the arguments for which every call in the nesting is
/// allowed, and gives exactly the results that the nesting can give.
pub proof fn law_w1<A, B, X1, X2, Y1, Y2, R>(fa: A, fb: B, x1: X1, x2: X2, r: R) where
    A: Invocable1<X1, Output = Y2> + Invocable1<X2, Output = Y1>,
    B: Invocable2<Y2, Y1, Output = R>,
    ensures
        comp::<_, _, (Y1, X1), (X2,)>(comp::<_, _, (Y2, Y1), (X1,)>(fb, fa), fa).accepts2(x1, x2)
            <==> (fa.accepts1(x2) && forall|y1: Y1| fa.yields1(x2, y1) ==> (fa.accepts1(x1) && forall|y2: Y2| fa.yields1(x1, y2) ==> (fb.accepts2(y2, y1)))),
        comp::<_, _, (Y1, X1), (X2,)>(comp::<_, _, (Y2, Y1), (X1,)>(fb, fa), fa).yields2(x1, x2, r)
            <==> exists|y1: Y1, y2: Y2| fa.yields1(x2, y1) && fa.yields1(x1, y2) && fb.yields2(y2, y1, r),
{
    let f = comp::<_, _, (Y1, X1), (X2,)>(comp::<_, _, (Y2, Y1), (X1,)>(fb, fa), fa);
    if f.yields2(x1, x2, r) {
        let y1 = choose|y1: Y1| f.inner.yields1(x2, y1) && f.outer.yields2(y1, x1, r);
        let y2 = choose|y2: Y2| f.outer.inner.yields1(x1, y2) && f.outer.outer.yields2(y2, y1, r);
    }
    if exists|y1: Y1, y2: Y2| fa.yields1(x2, y1) && fa.yields1(x1, y2) && fb.yields2(y2, y1, r) {
        let (y1, y2) = choose|y1: Y1, y2: Y2| fa.yields1(x2, y1) && fa.yields1(x1, y2) && fb.yields2(y2, y1, r);
        assert(f.outer.inner.yields1(x1, y2));
        assert(f.outer.outer.yields2(y2, y1, r));
        assert(f.outer.yields2(y1, x1, r));
        assert(f.inner.yields1(x2, y1));
        assert(f.yields2(x1, x2, r));
    }
}

/// Converse Warbler with one-argument callables only is the chain `w1(a, b)(x) = b(a(a(x)))`, with
/// the same callability and results.
pub proof fn law_w1_chain<A, B, X1, Y1, Y2, R>(fa: A, fb: B, x1: X1, r: R) where
    A: Invocable1<Y1, Output = Y2> + Invocable1<X1, Output = Y1>,
    B: Invocable1<Y2, Output = R>,
    ensures
        comp::<_, _, (Y1,), (X1,)>(comp::<_, _, (Y2,), (Y1,)>(fb, fa), fa).accepts1(x1)
            <==> (fa.accepts1(x1) && forall|y1: Y1| fa.yields1(x1, y1) ==> (fa.accepts1(y1) && forall|y2: Y2| fa.yields1(y1, y2) ==> (fb.accepts1(y2)))),
        comp::<_, _, (Y1,), (X1,)>(comp::<_, _, (Y2,), (Y1,)>(fb, fa), fa).yields1(x1, r)
            <==> exists|y1: Y1, y2: Y2| fa.yields1(x1, y1) && fa.yields1(y1, y2) && fb.yields1(y2, r),
{
    let f = comp::<_, _, (Y1,), (X1,)>(comp::<_, _, (Y2,), (Y1,)>(fb, fa), fa);
    if f.yields1(x1, r) {
        let y1 = choose|y1: Y1| f.inner.yields1(x1, y1) && f.outer.yields1(y1, r);
        let y2 = choose|y2: Y2| f.outer.inner.yields1(y1, y2) && f.outer.outer.yields1(y2, r);
    }
    if exists|y1: Y1, y2: Y2| fa.yields1(x1, y1) && fa.yields1(y1, y2) && fb.yields1(y2, r) {
        let (y1, y2) = choose|y1: Y1, y2: Y2| fa.yields1(x1, y1) && fa.yields1(y1, y2) && fb.yields1(y2, r);
        assert(f.outer.inner.yields1(y1, y2));
        assert(f.outer.outer.yields1(y2, r));
        assert(f.outer.yields1(y1, r));
        assert(f.inner.yields1(x1, y1));
        assert(f.yields1(x1, r));
    }
}

/// Identity Bird Once Removed, called as its lambda form reads, is the nested call `i_star(a, b)(x)
/// = a(b(x))`: it accepts exactly the arguments for which every call in the nesting is allowed, and
/// gives exactly the results that the nesting can give.
pub proof fn law_i_star<A, B, X1, Y1, R>(fa: A, fb: B, x1: X1, r: R) where
    A: Invocable1<Y1, Output = R>,
    B: Invocable1<X1, Output = Y1>,
    ensures
        comp::<_, _, (Y1,), (X1,)>(fa, fb).accepts1(x1)
            <==> (fb.accepts1(x1) && forall|y1: Y1| fb.yields1(x1, y1) ==> (fa.accepts1(y1))),
        comp::<_, _, (Y1,), (X1,)>(fa, fb).yields1(x1, r)
            <==> exists|y1: Y1| fb.yields1(x1, y1) && fa.yields1(y1, r),
{
    let f = comp::<_, _, (Y1,), (X1,)>(fa, fb);
    if f.yields1(x1, r) {
        let y1 = choose|y1: Y1| f.inner.yields1(x1, y1) && f.outer.yields1(y1, r);
    }
    if exists|y1: Y1| fb.yields1(x1, y1) && fa.yields1(y1, r) {
        let y1 = choose|y1: Y1| fb.yields1(x1, y1) && fa.yields1(y1, r);
        assert(f.inner.yields1(x1, y1));
        assert(f.outer.yields1(y1, r));
        assert(f.yields1(x1, r));
    }
}

/// Warbled Once Removed, called as its lambda form reads, is the nested call `w_star(a, b, c)(x1,
/// x2, x3) = a(b(x1), c(x2), c(x3))`: it accepts exactly the arguments for which every call in the
/// nesting is allowed, and gives exactly the results that the nesting can give.
pub proof fn law_w_star<A, B, C, X1, X2, X3, Y1, Y2, Y3, R>(fa: A, fb: B, fc: C, x1: X1, x2: X2, x3: X3, r: R) where
    A: Invocable3<Y3, Y2, Y1, Output = R>,
    B: Invocable1<X1, Output = Y3>,
    C: Invocable1<X2, Output = Y2> + Invocable1<X3, Output = Y1>,
    ensures
        comp::<_, _, (Y1, X1, X2), (X3,)>(comp::<_, _, (Y2, Y1, X1), (X2,)>(comp::<_, _, (Y3, Y2, Y1), (X1,)>(fa, fb), fc), fc).accepts3(x1, x2, x3)
            <==> (fc.accepts1(x3) && forall|y1: Y1| fc.yields1(x3, y1) ==> (fc.accepts1(x2) && forall|y2: Y2| fc.yields1(x2, y2) ==> (fb.accepts1(x1) && forall|y3: Y3| fb.yields1(x1, y3) ==> (fa.accepts3(y3, y2, y1))))),
        comp::<_, _, (Y1, X1, X2), (X3,)>(comp::<_, _, (Y2, Y1, X1), (X2,)>(comp::<_, _, (Y3, Y2, Y1), (X1,)>(fa, fb), fc), fc).yields3(x1, x2, x3, r)
            <==> exists|y1: Y1, y2: Y2, y3: Y3| fc.yields1(x3, y1) && fc.yields1(x2, y2) && fb.yields1(x1, y3) && fa.yields3(y3, y2, y1, r),
{
    let f = comp::<_, _, (Y1, X1, X2), (X3,)>(comp::<_, _, (Y2, Y1, X1), (X2,)>(comp::<_, _, (Y3, Y2, Y1), (X1,)>(fa, fb), fc), fc);
    if f.yields3(x1, x2, x3, r) {
        let y1 = choose|y1: Y1| f.inner.yields1(x3, y1) && f.outer.yields3(y1, x1, x2, r);
        let y2 = choose|y2: Y2| f.outer.inner.yields1(x2, y2) && f.outer.outer.yields3(y2, y1, x1, r);
        let y3 = choose|y3: Y3| f.outer.outer.inner.yields1(x1, y3) && f.outer.outer.outer.yields3(y3, y2, y1, r);
    }
    if exists|y1: Y1, y2: Y2, y3: Y3| fc.yields1(x3, y1) && fc.yields1(x2, y2) && fb.yields1(x1, y3) && fa.yields3(y3, y2, y1, r) {
        let (y1, y2, y3) = choose|y1: Y1, y2: Y2, y3: Y3| fc.yields1(x3, y1) && fc.yields1(x2, y2) && fb.yields1(x1, y3) && fa.yields3(y3, y2, y1, r);
        assert(f.outer.outer.inner.yields1(x1, y3));
        assert(f.outer.outer.outer.yields3(y3, y2, y1, r));
        assert(f.outer.outer.yields3(y2, y1, x1, r));
        assert(f.outer.inner.yields1(x2, y2));
        assert(f.outer.yields3(y1, x1, x2, r));
        assert(f.inner.yields1(x3, y1));
        assert(f.yields3(x1, x2, x3, r));
    }
}

/// Warbled Once Removed with one-argument callables only is the chain `w_star(a, b, c)(x) =
/// a(b(c(c(x))))`, with the same callability and results.
pub proof fn law_w_star_chain<A, B, C, X1, Y1, Y2, Y3, R>(fa: A, fb: B, fc: C, x1: X1, r: R) where
    A: Invocable1<Y3, Output = R>,
    B: Invocable1<Y2, Output = Y3>,
    C: Invocable1<Y1, Output = Y2> + Invocable1<X1, Output = Y1>,
    ensures
        comp::<_, _, (Y1,), (X1,)>(comp::<_, _, (Y2,), (Y1,)>(comp::<_, _, (Y3,), (Y2,)>(fa, fb), fc), fc).accepts1(x1)
            <==> (fc.accepts1(x1) && forall|y1: Y1| fc.yields1(x1, y1) ==> (fc.accepts1(y1) && forall|y2: Y2| fc.yields1(y1, y2) ==> (fb.accepts1(y2) && forall|y3: Y3| fb.yields1(y2, y3) ==> (fa.accepts1(y3))))),
        comp::<_, _, (Y1,), (X1,)>(comp::<_, _, (Y2,), (Y1,)>(comp::<_, _, (Y3,), (Y2,)>(fa, fb), fc), fc).yields1(x1, r)
            <==> exists|y1: Y1, y2: Y2, y3: Y3| fc.yields1(x1, y1) && fc.yields1(y1, y2) && fb.yields1(y2, y3) && fa.yields1(y3, r),
{
    let f = comp::<_, _, (Y1,), (X1,)>(comp::<_, _, (Y2,), (Y1,)>(comp::<_, _, (Y3,), (Y2,)>(fa, fb), fc), fc);
    if f.yields1(x1, r) {
        let y1 = choose|y1: Y1| f.inner.yields1(x1, y1) && f.outer.yields1(y1, r);
        let y2 = choose|y2: Y2| f.outer.inner.yields1(y1, y2) && f.outer.outer.yields1(y2, r);
        let y3 = choose|y3: Y3| f.outer.outer.inner.yields1(y2, y3) && f.outer.outer.outer.yields1(y3, r);
    }
    if exists|y1: Y1, y2: Y2, y3: Y3| fc.yields1(x1, y1) && fc.yields1(y1, y2) && fb.yields1(y2, y3) && fa.yields1(y3, r) {
        let (y1, y2, y3) = choose|y1: Y1, y2: Y2, y3: Y3| fc.yields1(x1, y1) && fc.yields1(y1, y2) && fb.yields1(y2, y3) && fa.yields1(y3, r);
        assert(f.outer.outer.inner.yields1(y2, y3));
        assert(f.outer.outer.outer.yields1(y3, r));
        assert(f.outer.outer.yields1(y2, r));
        assert(f.outer.inner.yields1(y1, y2));
        assert(f.outer.yields1(y1, r));
        assert(f.inner.yields1(x1, y1));
        assert(f.yields1(x1, r));
    }
}

/// Cardinal Once Removed, called as its lambda form reads, is the nested call `c_star(a, b, c,
/// d)(x1, x2, x3) = a(b(x1), d(x2), c(x3))`: it accepts exactly the arguments for which every call
/// in the nesting is allowed, and gives exactly the results that the nesting can give.
pub proof fn law_c_star<A, B, C, D, X1, X2, X3, Y1, Y2, Y3, R>(fa: A, fb: B, fc: C, fd: D, x1: X1, x2: X2, x3: X3, r: R) where
    A: Invocable3<Y3, Y2, Y1, Output = R>,
    B: Invocable1<X1, Output = Y3>,
    C: Invocable1<X3, Output = Y1>,
    D: Invocable1<X2, Output = Y2>,
    ensures
        comp::<_, _, (Y1, X1, X2), (X3,)>(comp::<_, _, (Y2, Y1, X1), (X2,)>(comp::<_, _, (Y3, Y2, Y1), (X1,)>(fa, fb), fd), fc).accepts3(x1, x2, x3)
            <==> (fc.accepts1(x3) && forall|y1: Y1| fc.yields1(x3, y1) ==> (fd.accepts1(x2) && forall|y2: Y2| fd.yields1(x2, y2) ==> (fb.accepts1(x1) && forall|y3: Y3| fb.yields1(x1, y3) ==> (fa.accepts3(y3, y2, y1))))),
        comp::<_, _, (Y1, X1, X2), (X3,)>(comp::<_, _, (Y2, Y1, X1), (X2,)>(comp::<_, _, (Y3, Y2, Y1), (X1,)>(fa, fb), fd), fc).yields3(x1, x2, x3, r)
            <==> exists|y1: Y1, y2: Y2, y3: Y3| fc.yields1(x3, y1) && fd.yields1(x2, y2) && fb.yields1(x1, y3) && fa.yields3(y3, y2, y1, r),
{
    let f = comp::<_, _, (Y1, X1, X2), (X3,)>(comp::<_, _, (Y2, Y1, X1), (X2,)>(comp::<_, _, (Y3, Y2, Y1), (X1,)>(fa, fb), fd), fc);
    if f.yields3(x1, x2, x3, r) {
        let y1 = choose|y1: Y1| f.inner.yields1(x3, y1) && f.outer.yields3(y1, x1, x2, r);
        let y2 = choose|y2: Y2| f.outer.inner.yields1(x2, y2) && f.outer.outer.yields3(y2, y1, x1, r);
        let y3 = choose|y3: Y3| f.outer.outer.inner.yields1(x1, y3) && f.outer.outer.outer.yields3(y3, y2, y1, r);
    }
    if exists|y1: Y1, y2: Y2, y3: Y3| fc.yields1(x3, y1) && fd.yields1(x2, y2) && fb.yields1(x1, y3) && fa.yields3(y3, y2, y1, r) {
        let (y1, y2, y3) = choose|y1: Y1, y2: Y2, y3: Y3| fc.yields1(x3, y1) && fd.yields1(x2, y2) && fb.yields1(x1, y3) && fa.yields3(y3, y2, y1, r);
        assert(f.outer.outer.inner.yields1(x1, y3));
        assert(f.outer.outer.outer.yields3(y3, y2, y1, r));
        assert(f.outer.outer.yields3(y2, y1, x1, r));
        assert(f.outer.inner.yields1(x2, y2));
        assert(f.outer.yields3(y1, x1, x2, r));
        assert(f.inner.yields1(x3, y1));
        assert(f.yields3(x1, x2, x3, r));
    }
}

/// Cardinal Once Removed with one-argument callables only is the chain `c_star(a, b, c, d)(x) =
/// a(b(d(c(x))))`, with the same callability and results.
pub proof fn law_c_star_chain<A, B, C, D, X1, Y1, Y2, Y3, R>(fa: A, fb: B, fc: C, fd: D, x1: X1, r: R) where
    A: Invocable1<Y3, Output = R>,
    B: Invocable1<Y2, Output = Y3>,
    C: Invocable1<X1, Output = Y1>,
    D: Invocable1<Y1, Output = Y2>,
    ensures
        comp::<_, _, (Y1,), (X1,)>(comp::<_, _, (Y2,), (Y1,)>(comp::<_, _, (Y3,), (Y2,)>(fa, fb), fd), fc).accepts1(x1)
            <==> (fc.accepts1(x1) && forall|y1: Y1| fc.yields1(x1, y1) ==> (fd.accepts1(y1) && forall|y2: Y2| fd.yields1(y1, y2) ==> (fb.accepts1(y2) && forall|y3: Y3| fb.yields1(y2, y3) ==> (fa.accepts1(y3))))),
        comp::<_, _, (Y1,), (X1,)>(comp::<_, _, (Y2,), (Y1,)>(comp::<_, _, (Y3,), (Y2,)>(fa, fb), fd), fc).yields1(x1, r)
            <==> exists|y1: Y1, y2: Y2, y3: Y3| fc.yields1(x1, y1) && fd.yields1(y1, y2) && fb.yields1(y2, y3) && fa.yields1(y3, r),
{
    let f = comp::<_, _, (Y1,), (X1,)>(comp::<_, _, (Y2,), (Y1,)>(comp::<_, _, (Y3,), (Y2,)>(fa, fb), fd), fc);
    if f.yields1(x1, r) {
        let y1 = choose|y1: Y1| f.inner.yields1(x1, y1) && f.outer.yields1(y1, r);
        let y2 = choose|y2: Y2| f.outer.inner.yields1(y1, y2) && f.outer.outer.yields1(y2, r);
        let y3 = choose|y3: Y3| f.outer.outer.inner.yields1(y2, y3) && f.outer.outer.outer.yields1(y3, r);
    }
    if exists|y1: Y1, y2: Y2, y3: Y3| fc.yields1(x1, y1) && fd.yields1(y1, y2) && fb.yields1(y2, y3) && fa.yields1(y3, r) {
        let (y1, y2, y3) = choose|y1: Y1, y2: Y2, y3: Y3| fc.yields1(x1, y1) && fd.yields1(y1, y2) && fb.yields1(y2, y3) && fa.yields1(y3, r);
        assert(f.outer.outer.inner.yields1(y2, y3));
        assert(f.outer.outer.outer.yields1(y3, r));
        assert(f.outer.outer.yields1(y2, r));
        assert(f.outer.inner.yields1(y1, y2));
        assert(f.outer.yields1(y1, r));
        assert(f.inner.yields1(x1, y1));
        assert(f.yields1(x1, r));
    }
}

/// Robin Once Removed, called as its lambda form reads, is the nested call `r_star(a, b, c, d)(x1,
/// x2, x3) = a(c(x1), d(x2), b(x3))`: it accepts exactly the arguments for which every call in the
/// nesting is allowed, and gives exactly the results that the nesting can give.
pub proof fn law_r_star<A, B, C, D, X1, X2, X3, Y1, Y2, Y3, R>(fa: A, fb: B, fc: C, fd: D, x1: X1, x2: X2, x3: X3, r: R) where
    A: Invocable3<Y3, Y2, Y1, Output = R>,
    B: Invocable1<X3, Output = Y1>,
    C: Invocable1<X1, Output = Y3>,
    D: Invocable1<X2, Output = Y2>,
    ensures
        comp::<_, _, (Y1, X1, X2), (X3,)>(comp::<_, _, (Y2, Y1, X1), (X2,)>(comp::<_, _, (Y3, Y2, Y1), (X1,)>(fa, fc), fd), fb).accepts3(x1, x2, x3)
            <==> (fb.accepts1(x3) && forall|y1: Y1| fb.yields1(x3, y1) ==> (fd.accepts1(x2) && forall|y2: Y2| fd.yields1(x2, y2) ==> (fc.accepts1(x1) && forall|y3: Y3| fc.yields1(x1, y3) ==> (fa.accepts3(y3, y2, y1))))),
        comp::<_, _, (Y1, X1, X2), (X3,)>(comp::<_, _, (Y2, Y1, X1), (X2,)>(comp::<_, _, (Y3, Y2, Y1), (X1,)>(fa, fc), fd), fb).yields3(x1, x2, x3, r)
            <==> exists|y1: Y1, y2: Y2, y3: Y3| fb.yields1(x3, y1) && fd.yields1(x2, y2) && fc.yields1(x1, y3) && fa.yields3(y3, y2, y1, r),
{
    let f = comp::<_, _, (Y1, X1, X2), (X3,)>(comp::<_, _, (Y2, Y1, X1), (X2,)>(comp::<_, _, (Y3, Y2, Y1), (X1,)>(fa, fc), fd), fb);
    if f.yields3(x1, x2, x3, r) {
        let y1 = choose|y1: Y1| f.inner.yields1(x3, y1) && f.outer.yields3(y1, x1, x2, r);
        let y2 = choose|y2: Y2| f.outer.inner.yields1(x2, y2) && f.outer.outer.yields3(y2, y1, x1, r);
        let y3 = choose|y3: Y3| f.outer.outer.inner.yields1(x1, y3) && f.outer.outer.outer.yields3(y3, y2, y1, r);
    }
    if exists|y1: Y1, y2: Y2, y3: Y3| fb.yields1(x3, y1) && fd.yields1(x2, y2) && fc.yields1(x1, y3) && fa.yields3(y3, y2, y1, r) {
        let (y1, y2, y3) = choose|y1: Y1, y2: Y2, y3: Y3| fb.yields1(x3, y1) && fd.yields1(x2, y2) && fc.yields1(x1, y3) && fa.yields3(y3, y2, y1, r);
        assert(f.outer.outer.inner.yields1(x1, y3));
        assert(f.outer.outer.outer.yields3(y3, y2, y1, r));
        assert(f.outer.outer.yields3(y2, y1, x1, r));
        assert(f.outer.inner.yields1(x2, y2));
        assert(f.outer.yields3(y1, x1, x2, r));
        assert(f.inner.yields1(x3, y1));
        assert(f.yields3(x1, x2, x3, r));
    }
}

/// Robin Once Removed with one-argument callables only is the chain `r_star(a, b, c, d)(x) =
/// a(c(d(b(x))))`, with the same callability and results.
pub proof fn law_r_star_chain<A, B, C, D, X1, Y1, Y2, Y3, R>(fa: A, fb: B, fc: C, fd: D, x1: X1, r: R) where
    A: Invocable1<Y3, Output = R>,
    B: Invocable1<X1, Output = Y1>,
    C: Invocable1<Y2, Output = Y3>,
    D: Invocable1<Y1, Output = Y2>,
    ensures
        comp::<_, _, (Y1,), (X1,)>(comp::<_, _, (Y2,), (Y1,)>(comp::<_, _, (Y3,), (Y2,)>(fa, fc), fd), fb).accepts1(x1)
            <==> (fb.accepts1(x1) && forall|y1: Y1| fb.yields1(x1, y1) ==> (fd.accepts1(y1) && forall|y2: Y2| fd.yields1(y1, y2) ==> (fc.accepts1(y2) && forall|y3: Y3| fc.yields1(y2, y3) ==> (fa.accepts1(y3))))),
        comp::<_, _, (Y1,), (X1,)>(comp::<_, _, (Y2,), (Y1,)>(comp::<_, _, (Y3,), (Y2,)>(fa, fc), fd), fb).yields1(x1, r)
            <==> exists|y1: Y1, y2: Y2, y3: Y3| fb.yields1(x1, y1) && fd.yields1(y1, y2) && fc.yields1(y2, y3) && fa.yields1(y3, r),
{
    let f = comp::<_, _, (Y1,), (X1,)>(comp::<_, _, (Y2,), (Y1,)>(comp::<_, _, (Y3,), (Y2,)>(fa, fc), fd), fb);
    if f.yields1(x1, r) {
        let y1 = choose|y1: Y1| f.inner.yields1(x1, y1) && f.outer.yields1(y1, r);
        let y2 = choose|y2: Y2| f.outer.inner.yields1(y1, y2) && f.outer.outer.yields1(y2, r);
        let y3 = choose|y3: Y3| f.outer.outer.inner.yields1(y2, y3) && f.outer.outer.outer.yields1(y3, r);
    }
    if exists|y1: Y1, y2: Y2, y3: Y3| fb.yields1(x1, y1) && fd.yields1(y1, y2) && fc.yields1(y2, y3) && fa.yields1(y3, r) {
        let (y1, y2, y3) = choose|y1: Y1, y2: Y2, y3: Y3| fb.yields1(x1, y1) && fd.yields1(y1, y2) && fc.yields1(y2, y3) && fa.yields1(y3, r);
        assert(f.outer.outer.inner.yields1(y2, y3));
        assert(f.outer.outer.outer.yields1(y3, r));
        assert(f.outer.outer.yields1(y2, r));
        assert(f.outer.inner.yields1(y1, y2));
        assert(f.outer.yields1(y1, r));
        assert(f.inner.yields1(x1, y1));
        assert(f.yields1(x1, r));
    }
}

/// Finch Once Removed, called as its lambda form reads, is the nested call `f_star(a, b, c, d)(x1,
/// x2, x3) = a(d(x1), c(x2), b(x3))`: it accepts exactly the arguments for which every call in the
/// nesting is allowed, and gives exactly the results that the nesting can give.
pub proof fn law_f_star<A, B, C, D, X1, X2, X3, Y1, Y2, Y3, R>(fa: A, fb: B, fc: C, fd: D, x1: X1, x2: X2, x3: X3, r: R) where
    A: Invocable3<Y3, Y2, Y1, Output = R>,
    B: Invocable1<X3, Output = Y1>,
    C: Invocable1<X2, Output = Y2>,
    D: Invocable1<X1, Output = Y3>,
    ensures
        comp::<_, _, (Y1, X1, X2), (X3,)>(comp::<_, _, (Y2, Y1, X1), (X2,)>(comp::<_, _, (Y3, Y2, Y1), (X1,)>(fa, fd), fc), fb).accepts3(x1, x2, x3)
            <==> (fb.accepts1(x3) && forall|y1: Y1| fb.yields1(x3, y1) ==> (fc.accepts1(x2) && forall|y2: Y2| fc.yields1(x2, y2) ==> (fd.accepts1(x1) && forall|y3: Y3| fd.yields1(x1, y3) ==> (fa.accepts3(y3, y2, y1))))),
        comp::<_, _, (Y1, X1, X2), (X3,)>(comp::<_, _, (Y2, Y1, X1), (X2,)>(comp::<_, _, (Y3, Y2, Y1), (X1,)>(fa, fd), fc), fb).yields3(x1, x2, x3, r)
            <==> exists|y1: Y1, y2: Y2, y3: Y3| fb.yields1(x3, y1) && fc.yields1(x2, y2) && fd.yields1(x1, y3) && fa.yields3(y3, y2, y1, r),
{
    let f = comp::<_, _, (Y1, X1, X2), (X3,)>(comp::<_, _, (Y2, Y1, X1), (X2,)>(comp::<_, _, (Y3, Y2, Y1), (X1,)>(fa, fd), fc), fb);
    if f.yields3(x1, x2, x3, r) {
        let y1 = choose|y1: Y1| f.inner.yields1(x3, y1) && f.outer.yields3(y1, x1, x2, r);
        let y2 = choose|y2: Y2| f.outer.inner.yields1(x2, y2) && f.outer.outer.yields3(y2, y1, x1, r);
        let y3 = choose|y3: Y3| f.outer.outer.inner.yields1(x1, y3) && f.outer.outer.outer.yields3(y3, y2, y1, r);
    }
    if exists|y1: Y1, y2: Y2, y3: Y3| fb.yields1(x3, y1) && fc.yields1(x2, y2) && fd.yields1(x1, y3) && fa.yields3(y3, y2, y1, r) {
        let (y1, y2, y3) = choose|y1: Y1, y2: Y2, y3: Y3| fb.yields1(x3, y1) && fc.yields1(x2, y2) && fd.yields1(x1, y3) && fa.yields3(y3, y2, y1, r);
        assert(f.outer.outer.inner.yields1(x1, y3));
        assert(f.outer.outer.outer.yields3(y3, y2, y1, r));
        assert(f.outer.outer.yields3(y2, y1, x1, r));
        assert(f.outer.inner.yields1(x2, y2));
        assert(f.outer.yields3(y1, x1, x2, r));
        assert(f.inner.yields1(x3, y1));
        assert(f.yields3(x1, x2, x3, r));
    }
}

/// Finch Once Removed with one-argument callables only is the chain `f_star(a, b, c, d)(x) =
/// a(d(c(b(x))))`, with the same callability and results.
pub proof fn law_f_star_chain<A, B, C, D, X1, Y1, Y2, Y3, R>(fa: A, fb: B, fc: C, fd: D, x1: X1, r: R) where
    A: Invocable1<Y3, Output = R>,
    B: Invocable1<X1, Output = Y1>,
    C: Invocable1<Y1, Output = Y2>,
    D: Invocable1<Y2, Output = Y3>,
    ensures
        comp::<_, _, (Y1,), (X1,)>(comp::<_, _, (Y2,), (Y1,)>(comp::<_, _, (Y3,), (Y2,)>(fa, fd), fc), fb).accepts1(x1)
            <==> (fb.accepts1(x1) && forall|y1: Y1| fb.yields1(x1, y1) ==> (fc.accepts1(y1) && forall|y2: Y2| fc.yields1(y1, y2) ==> (fd.accepts1(y2) && forall|y3: Y3| fd.yields1(y2, y3) ==> (fa.accepts1(y3))))),
        comp::<_, _, (Y1,), (X1,)>(comp::<_, _, (Y2,), (Y1,)>(comp::<_, _, (Y3,), (Y2,)>(fa, fd), fc), fb).yields1(x1, r)
            <==> exists|y1: Y1, y2: Y2, y3: Y3| fb.yields1(x1, y1) && fc.yields1(y1, y2) && fd.yields1(y2, y3) && fa.yields1(y3, r),
{
    let f = comp::<_, _, (Y1,), (X1,)>(comp::<_, _, (Y2,), (Y1,)>(comp::<_, _, (Y3,), (Y2,)>(fa, fd), fc), fb);
    if f.yields1(x1, r) {
        let y1 = choose|y1: Y1| f.inner.yields1(x1, y1) && f.outer.yields1(y1, r);
        let y2 = choose|y2: Y2| f.outer.inner.yields1(y1, y2) && f.outer.outer.yields1(y2, r);
        let y3 = choose|y3: Y3| f.outer.outer.inner.yields1(y2, y3) && f.outer.outer.outer.yields1(y3, r);
    }
    if exists|y1: Y1, y2: Y2, y3: Y3| fb.yields1(x1, y1) && fc.yields1(y1, y2) && fd.yields1(y2, y3) && fa.yields1(y3, r) {
        let (y1, y2, y3) = choose|y1: Y1, y2: Y2, y3: Y3| fb.yields1(x1, y1) && fc.yields1(y1, y2) && fd.yields1(y2, y3) && fa.yields1(y3, r);
        assert(f.outer.outer.inner.yields1(y2, y3));
        assert(f.outer.outer.outer.yields1(y3, r));
        assert(f.outer.outer.yields1(y2, r));
        assert(f.outer.inner.yields1(y1, y2));
        assert(f.outer.yields1(y1, r));
        assert(f.inner.yields1(x1, y1));
        assert(f.yields1(x1, r));
    }
}

/// Vireo Once Removed, called as its lambda form reads, is the nested call `v_star(a, b, c, d)(x1,
/// x2, x3) = a(c(x1), b(x2), d(x3))`: it accepts exactly the arguments for which every call in the
/// nesting is allowed, and gives exactly the results that the nesting can give.
pub proof fn law_v_star<A, B, C, D, X1, X2, X3, Y1, Y2, Y3, R>(fa: A, fb: B, fc: C, fd: D, x1: X1, x2: X2, x3: X3, r: R) where
    A: Invocable3<Y3, Y2, Y1, Output = R>,
    B: Invocable1<X2, Output = Y2>,
    C: Invocable1<X1, Output = Y3>,
    D: Invocable1<X3, Output = Y1>,
    ensures
        comp::<_, _, (Y1, X1, X2), (X3,)>(comp::<_, _, (Y2, Y1, X1), (X2,)>(comp::<_, _, (Y3, Y2, Y1), (X1,)>(fa, fc), fb), fd).accepts3(x1, x2, x3)
            <==> (fd.accepts1(x3) && forall|y1: Y1| fd.yields1(x3, y1) ==> (fb.accepts1(x2) && forall|y2: Y2| fb.yields1(x2, y2) ==> (fc.accepts1(x1) && forall|y3: Y3| fc.yields1(x1, y3) ==> (fa.accepts3(y3, y2, y1))))),
        comp::<_, _, (Y1, X1, X2), (X3,)>(comp::<_, _, (Y2, Y1, X1), (X2,)>(comp::<_, _, (Y3, Y2, Y1), (X1,)>(fa, fc), fb), fd).yields3(x1, x2, x3, r)
            <==> exists|y1: Y1, y2: Y2, y3: Y3| fd.yields1(x3, y1) && fb.yields1(x2, y2) && fc.yields1(x1, y3) && fa.yields3(y3, y2, y1, r),
{
    let f = comp::<_, _, (Y1, X1, X2), (X3,)>(comp::<_, _, (Y2, Y1, X1), (X2,)>(comp::<_, _, (Y3, Y2, Y1), (X1,)>(fa, fc), fb), fd);
    if f.yields3(x1, x2, x3, r) {
        let y1 = choose|y1: Y1| f.inner.yields1(x3, y1) && f.outer.yields3(y1, x1, x2, r);
        let y2 = choose|y2: Y2| f.outer.inner.yields1(x2, y2) && f.outer.outer.yields3(y2, y1, x1, r);
        let y3 = choose|y3: Y3| f.outer.outer.inner.yields1(x1, y3) && f.outer.outer.outer.yields3(y3, y2, y1, r);
    }
    if exists|y1: Y1, y2: Y2, y3: Y3| fd.yields1(x3, y1) && fb.yields1(x2, y2) && fc.yields1(x1, y3) && fa.yields3(y3, y2, y1, r) {
        let (y1, y2, y3) = choose|y1: Y1, y2: Y2, y3: Y3| fd.yields1(x3, y1) && fb.yields1(x2, y2) && fc.yields1(x1, y3) && fa.yields3(y3, y2, y1, r);
        assert(f.outer.outer.inner.yields1(x1, y3));
        assert(f.outer.outer.outer.yields3(y3, y2, y1, r));
        assert(f.outer.outer.yields3(y2, y1, x1, r));
        assert(f.outer.inner.yields1(x2, y2));
        assert(f.outer.yields3(y1, x1, x2, r));
        assert(f.inner.yields1(x3, y1));
        assert(f.yields3(x1, x2, x3, r));
    }
}

/// Vireo Once Removed with one-argument callables only is the chain `v_star(a, b, c, d)(x) =
/// a(c(b(d(x))))`, with the same callability and results.
pub proof fn law_v_star_chain<A, B, C, D, X1, Y1, Y2, Y3, R>(fa: A, fb: B, fc: C, fd: D, x1: X1, r: R) where
    A: Invocable1<Y3, Output = R>,
    B: Invocable1<Y1, Output = Y2>,
    C: Invocable1<Y2, Output = Y3>,
    D: Invocable1<X1, Output = Y1>,
    ensures
        comp::<_, _, (Y1,), (X1,)>(comp::<_, _, (Y2,), (Y1,)>(comp::<_, _, (Y3,), (Y2,)>(fa, fc), fb), fd).accepts1(x1)
            <==> (fd.accepts1(x1) && forall|y1: Y1| fd.yields1(x1, y1) ==> (fb.accepts1(y1) && forall|y2: Y2| fb.yields1(y1, y2) ==> (fc.accepts1(y2) && forall|y3: Y3| fc.yields1(y2, y3) ==> (fa.accepts1(y3))))),
        comp::<_, _, (Y1,), (X1,)>(comp::<_, _, (Y2,), (Y1,)>(comp::<_, _, (Y3,), (Y2,)>(fa, fc), fb), fd).yields1(x1, r)
            <==> exists|y1: Y1, y2: Y2, y3: Y3| fd.yields1(x1, y1) && fb.yields1(y1, y2) && fc.yields1(y2, y3) && fa.yields1(y3, r),
{
    let f = comp::<_, _, (Y1,), (X1,)>(comp::<_, _, (Y2,), (Y1,)>(comp::<_, _, (Y3,), (Y2,)>(fa, fc), fb), fd);
    if f.yields1(x1, r) {
        let y1 = choose|y1: Y1| f.inner.yields1(x1, y1) && f.outer.yields1(y1, r);
        let y2 = choose|y2: Y2| f.outer.inner.yields1(y1, y2) && f.outer.outer.yields1(y2, r);
        let y3 = choose|y3: Y3| f.outer.outer.inner.yields1(y2, y3) && f.outer.outer.outer.yields1(y3, r);
    }
    if exists|y1: Y1, y2: Y2, y3: Y3| fd.yields1(x1, y1) && fb.yields1(y1, y2) && fc.yields1(y2, y3) && fa.yields1(y3, r) {
        let (y1, y2, y3) = choose|y1: Y1, y2: Y2, y3: Y3| fd.yields1(x1, y1) && fb.yields1(y1, y2) && fc.yields1(y2, y3) && fa.yields1(y3, r);
        assert(f.outer.outer.inner.yields1(y2, y3));
        assert(f.outer.outer.outer.yields1(y3, r));
        assert(f.outer.outer.yields1(y2, r));
        assert(f.outer.inner.yields1(y1, y2));
        assert(f.outer.yields1(y1, r));
        assert(f.inner.yields1(x1, y1));
        assert(f.yields1(x1, r));
    }
}

/// Identity Bird Twice Removed, called as its lambda form reads, is the nested call `i_star_star(a,
/// b, c)(x1, x2) = a(b(x1), c(x2))`: it accepts exactly the arguments for which every call in the
/// nesting is allowed, and gives exactly the results that the nesting can give.
pub proof fn law_i_star_star<A, B, C, X1, X2, Y1, Y2, R>(fa: A, fb: B, fc: C, x1: X1, x2: X2, r: R) where
    A: Invocable2<Y2, Y1, Output = R>,
    B: Invocable1<X1, Output = Y2>,
    C: Invocable1<X2, Output = Y1>,
    ensures
        comp::<_, _, (Y1, X1), (X2,)>(comp::<_, _, (Y2, Y1), (X1,)>(fa, fb), fc).accepts2(x1, x2)
            <==> (fc.accepts1(x2) && forall|y1: Y1| fc.yields1(x2, y1) ==> (fb.accepts1(x1) && forall|y2: Y2| fb.yields1(x1, y2) ==> (fa.accepts2(y2, y1)))),
        comp::<_, _, (Y1, X1), (X2,)>(comp::<_, _, (Y2, Y1), (X1,)>(fa, fb), fc).yields2(x1, x2, r)
            <==> exists|y1: Y1, y2: Y2| fc.yields1(x2, y1) && fb.yields1(x1, y2) && fa.yields2(y2, y1, r),
{
    let f = comp::<_, _, (Y1, X1), (X2,)>(comp::<_, _, (Y2, Y1), (X1,)>(fa, fb), fc);
    if f.yields2(x1, x2, r) {
        let y1 = choose|y1: Y1| f.inner.yields1(x2, y1) && f.outer.yields2(y1, x1, r);
        let y2 = choose|y2: Y2| f.outer.inner.yields1(x1, y2) && f.outer.outer.yields2(y2, y1, r);
    }
    if exists|y1: Y1, y2: Y2| fc.yields1(x2, y1) && fb.yields1(x1, y2) && fa.yields2(y2, y1, r) {
        let (y1, y2) = choose|y1: Y1, y2: Y2| fc.yields1(x2, y1) && fb.yields1(x1, y2) && fa.yields2(y2, y1, r);
        assert(f.outer.inner.yields1(x1, y2));
        assert(f.outer.outer.yields2(y2, y1, r));
        assert(f.outer.yields2(y1, x1, r));
        assert(f.inner.yields1(x2, y1));
        assert(f.yields2(x1, x2, r));
    }
}

/// Identity Bird Twice Removed with one-argument callables only is the chain `i_star_star(a, b,
/// c)(x) = a(b(c(x)))`, with the same callability and results.
pub proof fn law_i_star_star_chain<A, B, C, X1, Y1, Y2, R>(fa: A, fb: B, fc: C, x1: X1, r: R) where
    A: Invocable1<Y2, Output = R>,
    B: Invocable1<Y1, Output = Y2>,
    C: Invocable1<X1, Output = Y1>,
    ensures
        comp::<_, _, (Y1,), (X1,)>(comp::<_, _, (Y2,), (Y1,)>(fa, fb), fc).accepts1(x1)
            <==> (fc.accepts1(x1) && forall|y1: Y1| fc.yields1(x1, y1) ==> (fb.accepts1(y1) && forall|y2: Y2| fb.yields1(y1, y2) ==> (fa.accepts1(y2)))),
        comp::<_, _, (Y1,), (X1,)>(comp::<_, _, (Y2,), (Y1,)>(fa, fb), fc).yields1(x1, r)
            <==> exists|y1: Y1, y2: Y2| fc.yields1(x1, y1) && fb.yields1(y1, y2) && fa.yields1(y2, r),
{
    let f = comp::<_, _, (Y1,), (X1,)>(comp::<_, _, (Y2,), (Y1,)>(fa, fb), fc);
    if f.yields1(x1, r) {
        let y1 = choose|y1: Y1| f.inner.yields1(x1, y1) && f.outer.yields1(y1, r);
        let y2 = choose|y2: Y2| f.outer.inner.yields1(y1, y2) && f.outer.outer.yields1(y2, r);
    }
    if exists|y1: Y1, y2: Y2| fc.yields1(x1, y1) && fb.yields1(y1, y2) && fa.yields1(y2, r) {
        let (y1, y2) = choose|y1: Y1, y2: Y2| fc.yields1(x1, y1) && fb.yields1(y1, y2) && fa.yields1(y2, r);
        assert(f.outer.inner.yields1(y1, y2));
        assert(f.outer.outer.yields1(y2, r));
        assert(f.outer.yields1(y1, r));
        assert(f.inner.yields1(x1, y1));
        assert(f.yields1(x1, r));
    }
}

/// Warbler Twice Removed, called as its lambda form reads, is the nested call `w_star_star(a, b, c,
/// d)(x1, x2, x3, x4) = a(b(x1), c(x2), d(x3), d(x4))`: it accepts exactly the arguments for which
/// every call in the nesting is allowed, and gives exactly the results that the nesting can give.
pub proof fn law_w_star_star<A, B, C, D, X1, X2, X3, X4, Y1, Y2, Y3, Y4, R>(fa: A, fb: B, fc: C, fd: D, x1: X1, x2: X2, x3: X3, x4: X4, r: R) where
    A: Invocable4<Y4, Y3, Y2, Y1, Output = R>,
    B: Invocable1<X1, Output = Y4>,
    C: Invocable1<X2, Output = Y3>,
    D: Invocable1<X3, Output = Y2> + Invocable1<X4, Output = Y1>,
    ensures
        comp::<_, _, (Y1, X1, X2, X3), (X4,)>(comp::<_, _, (Y2, Y1, X1, X2), (X3,)>(comp::<_, _, (Y3, Y2, Y1, X1), (X2,)>(comp::<_, _, (Y4, Y3, Y2, Y1), (X1,)>(fa, fb), fc), fd), fd).accepts4(x1, x2, x3, x4)
            <==> (fd.accepts1(x4) && forall|y1: Y1| fd.yields1(x4, y1) ==> (fd.accepts1(x3) && forall|y2: Y2| fd.yields1(x3, y2) ==> (fc.accepts1(x2) && forall|y3: Y3| fc.yields1(x2, y3) ==> (fb.accepts1(x1) && forall|y4: Y4| fb.yields1(x1, y4) ==> (fa.accepts4(y4, y3, y2, y1)))))),
        comp::<_, _, (Y1, X1, X2, X3), (X4,)>(comp::<_, _, (Y2, Y1, X1, X2), (X3,)>(comp::<_, _, (Y3, Y2, Y1, X1), (X2,)>(comp::<_, _, (Y4, Y3, Y2, Y1), (X1,)>(fa, fb), fc), fd), fd).yields4(x1, x2, x3, x4, r)
            <==> exists|y1: Y1, y2: Y2, y3: Y3, y4: Y4| fd.yields1(x4, y1) && fd.yields1(x3, y2) && fc.yields1(x2, y3) && fb.yields1(x1, y4) && fa.yields4(y4, y3, y2, y1, r),
{
    let f = comp::<_, _, (Y1, X1, X2, X3), (X4,)>(comp::<_, _, (Y2, Y1, X1, X2), (X3,)>(comp::<_, _, (Y3, Y2, Y1, X1), (X2,)>(comp::<_, _, (Y4, Y3, Y2, Y1), (X1,)>(fa, fb), fc), fd), fd);
    if f.yields4(x1, x2, x3, x4, r) {
        let y1 = choose|y1: Y1| f.inner.yields1(x4, y1) && f.outer.yields4(y1, x1, x2, x3, r);
        let y2 = choose|y2: Y2| f.outer.inner.yields1(x3, y2) && f.outer.outer.yields4(y2, y1, x1, x2, r);
        let y3 = choose|y3: Y3| f.outer.outer.inner.yields1(x2, y3) && f.outer.outer.outer.yields4(y3, y2, y1, x1, r);
        let y4 = choose|y4: Y4| f.outer.outer.outer.inner.yields1(x1, y4) && f.outer.outer.outer.outer.yields4(y4, y3, y2, y1, r);
    }
    if exists|y1: Y1, y2: Y2, y3: Y3, y4: Y4| fd.yields1(x4, y1) && fd.yields1(x3, y2) && fc.yields1(x2, y3) && fb.yields1(x1, y4) && fa.yields4(y4, y3, y2, y1, r) {
        let (y1, y2, y3, y4) = choose|y1: Y1, y2: Y2, y3: Y3, y4: Y4| fd.yields1(x4, y1) && fd.yields1(x3, y2) && fc.yields1(x2, y3) && fb.yields1(x1, y4) && fa.yields4(y4, y3, y2, y1, r);
        assert(f.outer.outer.outer.inner.yields1(x1, y4));
        assert(f.outer.outer.outer.outer.yields4(y4, y3, y2, y1, r));
        assert(f.outer.outer.outer.yields4(y3, y2, y1, x1, r));
        assert(f.outer.outer.inner.yields1(x2, y3));
        assert(f.outer.outer.yields4(y2, y1, x1, x2, r));
        assert(f.outer.inner.yields1(x3, y2));
        assert(f.outer.yields4(y1, x1, x2, x3, r));
        assert(f.inner.yields1(x4, y1));
        assert(f.yields4(x1, x2, x3, x4, r));
    }
}

/// Warbler Twice Removed with one-argument callables only is the chain `w_star_star(a, b, c, d)(x)
/// = a(b(c(d(d(x)))))`, with the same callability and results.
pub proof fn law_w_star_star_chain<A, B, C, D, X1, Y1, Y2, Y3, Y4, R>(fa: A, fb: B, fc: C, fd: D, x1: X1, r: R) where
    A: Invocable1<Y4, Output = R>,
    B: Invocable1<Y3, Output = Y4>,
    C: Invocable1<Y2, Output = Y3>,
    D: Invocable1<Y1, Output = Y2> + Invocable1<X1, Output = Y1>,
    ensures
        comp::<_, _, (Y1,), (X1,)>(comp::<_, _, (Y2,), (Y1,)>(comp::<_, _, (Y3,), (Y2,)>(comp::<_, _, (Y4,), (Y3,)>(fa, fb), fc), fd), fd).accepts1(x1)
            <==> (fd.accepts1(x1) && forall|y1: Y1| fd.yields1(x1, y1) ==> (fd.accepts1(y1) && forall|y2: Y2| fd.yields1(y1, y2) ==> (fc.accepts1(y2) && forall|y3: Y3| fc.yields1(y2, y3) ==> (fb.accepts1(y3) && forall|y4: Y4| fb.yields1(y3, y4) ==> (fa.accepts1(y4)))))),
        comp::<_, _, (Y1,), (X1,)>(comp::<_, _, (Y2,), (Y1,)>(comp::<_, _, (Y3,), (Y2,)>(comp::<_, _, (Y4,), (Y3,)>(fa, fb), fc), fd), fd).yields1(x1, r)
            <==> exists|y1: Y1, y2: Y2, y3: Y3, y4: Y4| fd.yields1(x1, y1) && fd.yields1(y1, y2) && fc.yields1(y2, y3) && fb.yields1(y3, y4) && fa.yields1(y4, r),
{
    let f = comp::<_, _, (Y1,), (X1,)>(comp::<_, _, (Y2,), (Y1,)>(comp::<_, _, (Y3,), (Y2,)>(comp::<_, _, (Y4,), (Y3,)>(fa, fb), fc), fd), fd);
    if f.yields1(x1, r) {
        let y1 = choose|y1: Y1| f.inner.yields1(x1, y1) && f.outer.yields1(y1, r);
        let y2 = choose|y2: Y2| f.outer.inner.yields1(y1, y2) && f.outer.outer.yields1(y2, r);
        let y3 = choose|y3: Y3| f.outer.outer.inner.yields1(y2, y3) && f.outer.outer.outer.yields1(y3, r);
        let y4 = choose|y4: Y4| f.outer.outer.outer.inner.yields1(y3, y4) && f.outer.outer.outer.outer.yields1(y4, r);
    }
    if exists|y1: Y1, y2: Y2, y3: Y3, y4: Y4| fd.yields1(x1, y1) && fd.yields1(y1, y2) && fc.yields1(y2, y3) && fb.yields1(y3, y4) && fa.yields1(y4, r) {
        let (y1, y2, y3, y4) = choose|y1: Y1, y2: Y2, y3: Y3, y4: Y4| fd.yields1(x1, y1) && fd.yields1(y1, y2) && fc.yields1(y2, y3) && fb.yields1(y3, y4) && fa.yields1(y4, r);
        assert(f.outer.outer.outer.inner.yields1(y3, y4));
        assert(f.outer.outer.outer.outer.yields1(y4, r));
        assert(f.outer.outer.outer.yields1(y3, r));
        assert(f.outer.outer.inner.yields1(y2, y3));
        assert(f.outer.outer.yields1(y2, r));
        assert(f.outer.inner.yields1(y1, y2));
        assert(f.outer.yields1(y1, r));
        assert(f.inner.yields1(x1, y1));
        assert(f.yields1(x1, r));
    }
}

/// Cardinal Twice Removed, called as its lambda form reads, is the nested call `c_star_star(a, b,
/// c, d, e)(x1, x2, x3, x4) = a(b(x1), c(x2), e(x3), d(x4))`: it accepts exactly the arguments for
/// which every call in the nesting is allowed, and gives exactly the results that the nesting can
/// give.
pub proof fn law_c_star_star<A, B, C, D, E, X1, X2, X3, X4, Y1, Y2, Y3, Y4, R>(fa: A, fb: B, fc: C, fd: D, fe: E, x1: X1, x2: X2, x3: X3, x4: X4, r: R) where
    A: Invocable4<Y4, Y3, Y2, Y1, Output = R>,
    B: Invocable1<X1, Output = Y4>,
    C: Invocable1<X2, Output = Y3>,
    D: Invocable1<X4, Output = Y1>,
    E: Invocable1<X3, Output = Y2>,
    ensures
        comp::<_, _, (Y1, X1, X2, X3), (X4,)>(comp::<_, _, (Y2, Y1, X1, X2), (X3,)>(comp::<_, _, (Y3, Y2, Y1, X1), (X2,)>(comp::<_, _, (Y4, Y3, Y2, Y1), (X1,)>(fa, fb), fc), fe), fd).accepts4(x1, x2, x3, x4)
            <==> (fd.accepts1(x4) && forall|y1: Y1| fd.yields1(x4, y1) ==> (fe.accepts1(x3) && forall|y2: Y2| fe.yields1(x3, y2) ==> (fc.accepts1(x2) && forall|y3: Y3| fc.yields1(x2, y3) ==> (fb.accepts1(x1) && forall|y4: Y4| fb.yields1(x1, y4) ==> (fa.accepts4(y4, y3, y2, y1)))))),
        comp::<_, _, (Y1, X1, X2, X3), (X4,)>(comp::<_, _, (Y2, Y1, X1, X2), (X3,)>(comp::<_, _, (Y3, Y2, Y1, X1), (X2,)>(comp::<_, _, (Y4, Y3, Y2, Y1), (X1,)>(fa, fb), fc), fe), fd).yields4(x1, x2, x3, x4, r)
            <==> exists|y1: Y1, y2: Y2, y3: Y3, y4: Y4| fd.yields1(x4, y1) && fe.yields1(x3, y2) && fc.yields1(x2, y3) && fb.yields1(x1, y4) && fa.yields4(y4, y3, y2, y1, r),
{
    let f = comp::<_, _, (Y1, X1, X2, X3), (X4,)>(comp::<_, _, (Y2, Y1, X1, X2), (X3,)>(comp::<_, _, (Y3, Y2, Y1, X1), (X2,)>(comp::<_, _, (Y4, Y3, Y2, Y1), (X1,)>(fa, fb), fc), fe), fd);
    if f.yields4(x1, x2, x3, x4, r) {
        let y1 = choose|y1: Y1| f.inner.yields1(x4, y1) && f.outer.yields4(y1, x1, x2, x3, r);
        let y2 = choose|y2: Y2| f.outer.inner.yields1(x3, y2) && f.outer.outer.yields4(y2, y1, x1, x2, r);
        let y3 = choose|y3: Y3| f.outer.outer.inner.yields1(x2, y3) && f.outer.outer.outer.yields4(y3, y2, y1, x1, r);
        let y4 = choose|y4: Y4| f.outer.outer.outer.inner.yields1(x1, y4) && f.outer.outer.outer.outer.yields4(y4, y3, y2, y1, r);
    }
    if exists|y1: Y1, y2: Y2, y3: Y3, y4: Y4| fd.yields1(x4, y1) && fe.yields1(x3, y2) && fc.yields1(x2, y3) && fb.yields1(x1, y4) && fa.yields4(y4, y3, y2, y1, r) {
        let (y1, y2, y3, y4) = choose|y1: Y1, y2: Y2, y3: Y3, y4: Y4| fd.yields1(x4, y1) && fe.yields1(x3, y2) && fc.yields1(x2, y3) && fb.yields1(x1, y4) && fa.yields4(y4, y3, y2, y1, r);
        assert(f.outer.outer.outer.inner.yields1(x1, y4));
        assert(f.outer.outer.outer.outer.yields4(y4, y3, y2, y1, r));
        assert(f.outer.outer.outer.yields4(y3, y2, y1, x1, r));
        assert(f.outer.outer.inner.yields1(x2, y3));
        assert(f.outer.outer.yields4(y2, y1, x1, x2, r));
        assert(f.outer.inner.yields1(x3, y2));
        assert(f.outer.yields4(y1, x1, x2, x3, r));
        assert(f.inner.yields1(x4, y1));
        assert(f.yields4(x1, x2, x3, x4, r));
    }
}

/// Cardinal Twice Removed with one-argument callables only is the chain `c_star_star(a, b, c, d,
/// e)(x) = a(b(c(e(d(x)))))`, with the same callability and results.
pub proof fn law_c_star_star_chain<A, B, C, D, E, X1, Y1, Y2, Y3, Y4, R>(fa: A, fb: B, fc: C, fd: D, fe: E, x1: X1, r: R) where
    A: Invocable1<Y4, Output = R>,
    B: Invocable1<Y3, Output = Y4>,
    C: Invocable1<Y2, Output = Y3>,
    D: Invocable1<X1, Output = Y1>,
    E: Invocable1<Y1, Output = Y2>,
    ensures
        comp::<_, _, (Y1,), (X1,)>(comp::<_, _, (Y2,), (Y1,)>(comp::<_, _, (Y3,), (Y2,)>(comp::<_, _, (Y4,), (Y3,)>(fa, fb), fc), fe), fd).accepts1(x1)
            <==> (fd.accepts1(x1) && forall|y1: Y1| fd.yields1(x1, y1) ==> (fe.accepts1(y1) && forall|y2: Y2| fe.yields1(y1, y2) ==> (fc.accepts1(y2) && forall|y3: Y3| fc.yields1(y2, y3) ==> (fb.accepts1(y3) && forall|y4: Y4| fb.yields1(y3, y4) ==> (fa.accepts1(y4)))))),
        comp::<_, _, (Y1,), (X1,)>(comp::<_, _, (Y2,), (Y1,)>(comp::<_, _, (Y3,), (Y2,)>(comp::<_, _, (Y4,), (Y3,)>(fa, fb), fc), fe), fd).yields1(x1, r)
            <==> exists|y1: Y1, y2: Y2, y3: Y3, y4: Y4| fd.yields1(x1, y1) && fe.yields1(y1, y2) && fc.yields1(y2, y3) && fb.yields1(y3, y4) && fa.yields1(y4, r),
{
    let f = comp::<_, _, (Y1,), (X1,)>(comp::<_, _, (Y2,), (Y1,)>(comp::<_, _, (Y3,), (Y2,)>(comp::<_, _, (Y4,), (Y3,)>(fa, fb), fc), fe), fd);
    if f.yields1(x1, r) {
        let y1 = choose|y1: Y1| f.inner.yields1(x1, y1) && f.outer.yields1(y1, r);
        let y2 = choose|y2: Y2| f.outer.inner.yields1(y1, y2) && f.outer.outer.yields1(y2, r);
        let y3 = choose|y3: Y3| f.outer.outer.inner.yields1(y2, y3) && f.outer.outer.outer.yields1(y3, r);
        let y4 = choose|y4: Y4| f.outer.outer.outer.inner.yields1(y3, y4) && f.outer.outer.outer.outer.yields1(y4, r);
    }
    if exists|y1: Y1, y2: Y2, y3: Y3, y4: Y4| fd.yields1(x1, y1) && fe.yields1(y1, y2) && fc.yields1(y2, y3) && fb.yields1(y3, y4) && fa.yields1(y4, r) {
        let (y1, y2, y3, y4) = choose|y1: Y1, y2: Y2, y3: Y3, y4: Y4| fd.yields1(x1, y1) && fe.yields1(y1, y2) && fc.yields1(y2, y3) && fb.yields1(y3, y4) && fa.yields1(y4, r);
        assert(f.outer.outer.outer.inner.yields1(y3, y4));
        assert(f.outer.outer.outer.outer.yields1(y4, r));
        assert(f.outer.outer.outer.yields1(y3, r));
        assert(f.outer.outer.inner.yields1(y2, y3));
        assert(f.outer.outer.yields1(y2, r));
        assert(f.outer.inner.yields1(y1, y2));
        assert(f.outer.yields1(y1, r));
        assert(f.inner.yields1(x1, y1));
        assert(f.yields1(x1, r));
    }
}

/// Robin Twice Removed, called as its lambda form reads, is the nested call `r_star_star(a, b, c,
/// d, e)(x1, x2, x3, x4) = a(b(x1), d(x2), e(x3), c(x4))`: it accepts exactly the arguments for
/// which every call in the nesting is allowed, and gives exactly the results that the nesting can
/// give.
pub proof fn law_r_star_star<A, B, C, D, E, X1, X2, X3, X4, Y1, Y2, Y3, Y4, R>(fa: A, fb: B, fc: C, fd: D, fe: E, x1: X1, x2: X2, x3: X3, x4: X4, r: R) where
    A: Invocable4<Y4, Y3, Y2, Y1, Output = R>,
    B: Invocable1<X1, Output = Y4>,
    C: Invocable1<X4, Output = Y1>,
    D: Invocable1<X2, Output = Y3>,
    E: Invocable1<X3, Output = Y2>,
    ensures
        comp::<_, _, (Y1, X1, X2, X3), (X4,)>(comp::<_, _, (Y2, Y1, X1, X2), (X3,)>(comp::<_, _, (Y3, Y2, Y1, X1), (X2,)>(comp::<_, _, (Y4, Y3, Y2, Y1), (X1,)>(fa, fb), fd), fe), fc).accepts4(x1, x2, x3, x4)
            <==> (fc.accepts1(x4) && forall|y1: Y1| fc.yields1(x4, y1) ==> (fe.accepts1(x3) && forall|y2: Y2| fe.yields1(x3, y2) ==> (fd.accepts1(x2) && forall|y3: Y3| fd.yields1(x2, y3) ==> (fb.accepts1(x1) && forall|y4: Y4| fb.yields1(x1, y4) ==> (fa.accepts4(y4, y3, y2, y1)))))),
        comp::<_, _, (Y1, X1, X2, X3), (X4,)>(comp::<_, _, (Y2, Y1, X1, X2), (X3,)>(comp::<_, _, (Y3, Y2, Y1, X1), (X2,)>(comp::<_, _, (Y4, Y3, Y2, Y1), (X1,)>(fa, fb), fd), fe), fc).yields4(x1, x2, x3, x4, r)
            <==> exists|y1: Y1, y2: Y2, y3: Y3, y4: Y4| fc.yields1(x4, y1) && fe.yields1(x3, y2) && fd.yields1(x2, y3) && fb.yields1(x1, y4) && fa.yields4(y4, y3, y2, y1, r),
{
    let f = comp::<_, _, (Y1, X1, X2, X3), (X4,)>(comp::<_, _, (Y2, Y1, X1, X2), (X3,)>(comp::<_, _, (Y3, Y2, Y1, X1), (X2,)>(comp::<_, _, (Y4, Y3, Y2, Y1), (X1,)>(fa, fb), fd), fe), fc);
    if f.yields4(x1, x2, x3, x4, r) {
        let y1 = choose|y1: Y1| f.inner.yields1(x4, y1) && f.outer.yields4(y1, x1, x2, x3, r);
        let y2 = choose|y2: Y2| f.outer.inner.yields1(x3, y2) && f.outer.outer.yields4(y2, y1, x1, x2, r);
        let y3 = choose|y3: Y3| f.outer.outer.inner.yields1(x2, y3) && f.outer.outer.outer.yields4(y3, y2, y1, x1, r);
        let y4 = choose|y4: Y4| f.outer.outer.outer.inner.yields1(x1, y4) && f.outer.outer.outer.outer.yields4(y4, y3, y2, y1, r);
    }
    if exists|y1: Y1, y2: Y2, y3: Y3, y4: Y4| fc.yields1(x4, y1) && fe.yields1(x3, y2) && fd.yields1(x2, y3) && fb.yields1(x1, y4) && fa.yields4(y4, y3, y2, y1, r) {
        let (y1, y2, y3, y4) = choose|y1: Y1, y2: Y2, y3: Y3, y4: Y4| fc.yields1(x4, y1) && fe.yields1(x3, y2) && fd.yields1(x2, y3) && fb.yields1(x1, y4) && fa.yields4(y4, y3, y2, y1, r);
        assert(f.outer.outer.outer.inner.yields1(x1, y4));
        assert(f.outer.outer.outer.outer.yields4(y4, y3, y2, y1, r));
        assert(f.outer.outer.outer.yields4(y3, y2, y1, x1, r));
        assert(f.outer.outer.inner.yields1(x2, y3));
        assert(f.outer.outer.yields4(y2, y1, x1, x2, r));
        assert(f.outer.inner.yields1(x3, y2));
        assert(f.outer.yields4(y1, x1, x2, x3, r));
        assert(f.inner.yields1(x4, y1));
        assert(f.yields4(x1, x2, x3, x4, r));
    }
}

/// Robin Twice Removed with one-argument callables only is the chain `r_star_star(a, b, c, d, e)(x)
/// = a(b(d(e(c(x)))))`, with the same callability and results.
pub proof fn law_r_star_star_chain<A, B, C, D, E, X1, Y1, Y2, Y3, Y4, R>(fa: A, fb: B, fc: C, fd: D, fe: E, x1: X1, r: R) where
    A: Invocable1<Y4, Output = R>,
    B: Invocable1<Y3, Output = Y4>,
    C: Invocable1<X1, Output = Y1>,
    D: Invocable1<Y2, Output = Y3>,
    E: Invocable1<Y1, Output = Y2>,
    ensures
        comp::<_, _, (Y1,), (X1,)>(comp::<_, _, (Y2,), (Y1,)>(comp::<_, _, (Y3,), (Y2,)>(comp::<_, _, (Y4,), (Y3,)>(fa, fb), fd), fe), fc).accepts1(x1)
            <==> (fc.accepts1(x1) && forall|y1: Y1| fc.yields1(x1, y1) ==> (fe.accepts1(y1) && forall|y2: Y2| fe.yields1(y1, y2) ==> (fd.accepts1(y2) && forall|y3: Y3| fd.yields1(y2, y3) ==> (fb.accepts1(y3) && forall|y4: Y4| fb.yields1(y3, y4) ==> (fa.accepts1(y4)))))),
        comp::<_, _, (Y1,), (X1,)>(comp::<_, _, (Y2,), (Y1,)>(comp::<_, _, (Y3,), (Y2,)>(comp::<_, _, (Y4,), (Y3,)>(fa, fb), fd), fe), fc).yields1(x1, r)
            <==> exists|y1: Y1, y2: Y2, y3: Y3, y4: Y4| fc.yields1(x1, y1) && fe.yields1(y1, y2) && fd.yields1(y2, y3) && fb.yields1(y3, y4) && fa.yields1(y4, r),
{
    let f = comp::<_, _, (Y1,), (X1,)>(comp::<_, _, (Y2,), (Y1,)>(comp::<_, _, (Y3,), (Y2,)>(comp::<_, _, (Y4,), (Y3,)>(fa, fb), fd), fe), fc);
    if f.yields1(x1, r) {
        let y1 = choose|y1: Y1| f.inner.yields1(x1, y1) && f.outer.yields1(y1, r);
        let y2 = choose|y2: Y2| f.outer.inner.yields1(y1, y2) && f.outer.outer.yields1(y2, r);
        let y3 = choose|y3: Y3| f.outer.outer.inner.yields1(y2, y3) && f.outer.outer.outer.yields1(y3, r);
        let y4 = choose|y4: Y4| f.outer.outer.outer.inner.yields1(y3, y4) && f.outer.outer.outer.outer.yields1(y4, r);
    }
    if exists|y1: Y1, y2: Y2, y3: Y3, y4: Y4| fc.yields1(x1, y1) && fe.yields1(y1, y2) && fd.yields1(y2, y3) && fb.yields1(y3, y4) && fa.yields1(y4, r) {
        let (y1, y2, y3, y4) = choose|y1: Y1, y2: Y2, y3: Y3, y4: Y4| fc.yields1(x1, y1) && fe.yields1(y1, y2) && fd.yields1(y2, y3) && fb.yields1(y3, y4) && fa.yields1(y4, r);
        assert(f.outer.outer.outer.inner.yields1(y3, y4));
        assert(f.outer.outer.outer.outer.yields1(y4, r));
        assert(f.outer.outer.outer.yields1(y3, r));
        assert(f.outer.outer.inner.yields1(y2, y3));
        assert(f.outer.outer.yields1(y2, r));
        assert(f.outer.inner.yields1(y1, y2));
        assert(f.outer.yields1(y1, r));
        assert(f.inner.yields1(x1, y1));
        assert(f.yields1(x1, r));
    }
}

/// Finch Twice Removed, called as its lambda form reads, is the nested call `f_star_star(a, b, c,
/// d, e)(x1, x2, x3, x4) = a(b(x1), e(x2), d(x3), c(x4))`: it accepts exactly the arguments for
/// which every call in the nesting is allowed, and gives exactly the results that the nesting can
/// give.
pub proof fn law_f_star_star<A, B, C, D, E, X1, X2, X3, X4, Y1, Y2, Y3, Y4, R>(fa: A, fb: B, fc: C, fd: D, fe: E, x1: X1, x2: X2, x3: X3, x4: X4, r: R) where
    A: Invocable4<Y4, Y3, Y2, Y1, Output = R>,
    B: Invocable1<X1, Output = Y4>,
    C: Invocable1<X4, Output = Y1>,
    D: Invocable1<X3, Output = Y2>,
    E: Invocable1<X2, Output = Y3>,
    ensures
        comp::<_, _, (Y1, X1, X2, X3), (X4,)>(comp::<_, _, (Y2, Y1, X1, X2), (X3,)>(comp::<_, _, (Y3, Y2, Y1, X1), (X2,)>(comp::<_, _, (Y4, Y3, Y2, Y1), (X1,)>(fa, fb), fe), fd), fc).accepts4(x1, x2, x3, x4)
            <==> (fc.accepts1(x4) && forall|y1: Y1| fc.yields1(x4, y1) ==> (fd.accepts1(x3) && forall|y2: Y2| fd.yields1(x3, y2) ==> (fe.accepts1(x2) && forall|y3: Y3| fe.yields1(x2, y3) ==> (fb.accepts1(x1) && forall|y4: Y4| fb.yields1(x1, y4) ==> (fa.accepts4(y4, y3, y2, y1)))))),
        comp::<_, _, (Y1, X1, X2, X3), (X4,)>(comp::<_, _, (Y2, Y1, X1, X2), (X3,)>(comp::<_, _, (Y3, Y2, Y1, X1), (X2,)>(comp::<_, _, (Y4, Y3, Y2, Y1), (X1,)>(fa, fb), fe), fd), fc).yields4(x1, x2, x3, x4, r)
            <==> exists|y1: Y1, y2: Y2, y3: Y3, y4: Y4| fc.yields1(x4, y1) && fd.yields1(x3, y2) && fe.yields1(x2, y3) && fb.yields1(x1, y4) && fa.yields4(y4, y3, y2, y1, r),
{
    let f = comp::<_, _, (Y1, X1, X2, X3), (X4,)>(comp::<_, _, (Y2, Y1, X1, X2), (X3,)>(comp::<_, _, (Y3, Y2, Y1, X1), (X2,)>(comp::<_, _, (Y4, Y3, Y2, Y1), (X1,)>(fa, fb), fe), fd), fc);
    if f.yields4(x1, x2, x3, x4, r) {
        let y1 = choose|y1: Y1| f.inner.yields1(x4, y1) && f.outer.yields4(y1, x1, x2, x3, r);
        let y2 = choose|y2: Y2| f.outer.inner.yields1(x3, y2) && f.outer.outer.yields4(y2, y1, x1, x2, r);
        let y3 = choose|y3: Y3| f.outer.outer.inner.yields1(x2, y3) && f.outer.outer.outer.yields4(y3, y2, y1, x1, r);
        let y4 = choose|y4: Y4| f.outer.outer.outer.inner.yields1(x1, y4) && f.outer.outer.outer.outer.yields4(y4, y3, y2, y1, r);
    }
    if exists|y1: Y1, y2: Y2, y3: Y3, y4: Y4| fc.yields1(x4, y1) && fd.yields1(x3, y2) && fe.yields1(x2, y3) && fb.yields1(x1, y4) && fa.yields4(y4, y3, y2, y1, r) {
        let (y1, y2, y3, y4) = choose|y1: Y1, y2: Y2, y3: Y3, y4: Y4| fc.yields1(x4, y1) && fd.yields1(x3, y2) && fe.yields1(x2, y3) && fb.yields1(x1, y4) && fa.yields4(y4, y3, y2, y1, r);
        assert(f.outer.outer.outer.inner.yields1(x1, y4));
        assert(f.outer.outer.outer.outer.yields4(y4, y3, y2, y1, r));
        assert(f.outer.outer.outer.yields4(y3, y2, y1, x1, r));
        assert(f.outer.outer.inner.yields1(x2, y3));
        assert(f.outer.outer.yields4(y2, y1, x1, x2, r));
        assert(f.outer.inner.yields1(x3, y2));
        assert(f.outer.yields4(y1, x1, x2, x3, r));
        assert(f.inner.yields1(x4, y1));
        assert(f.yields4(x1, x2, x3, x4, r));
    }
}

/// Finch Twice Removed with one-argument callables only is the chain `f_star_star(a, b, c, d, e)(x)
/// = a(b(e(d(c(x)))))`, with the same callability and results.
pub proof fn law_f_star_star_chain<A, B, C, D, E, X1, Y1, Y2, Y3, Y4, R>(fa: A, fb: B, fc: C, fd: D, fe: E, x1: X1, r: R) where
    A: Invocable1<Y4, Output = R>,
    B: Invocable1<Y3, Output = Y4>,
    C: Invocable1<X1, Output = Y1>,
    D: Invocable1<Y1, Output = Y2>,
    E: Invocable1<Y2, Output = Y3>,
    ensures
        comp::<_, _, (Y1,), (X1,)>(comp::<_, _, (Y2,), (Y1,)>(comp::<_, _, (Y3,), (Y2,)>(comp::<_, _, (Y4,), (Y3,)>(fa, fb), fe), fd), fc).accepts1(x1)
            <==> (fc.accepts1(x1) && forall|y1: Y1| fc.yields1(x1, y1) ==> (fd.accepts1(y1) && forall|y2: Y2| fd.yields1(y1, y2) ==> (fe.accepts1(y2) && forall|y3: Y3| fe.yields1(y2, y3) ==> (fb.accepts1(y3) && forall|y4: Y4| fb.yields1(y3, y4) ==> (fa.accepts1(y4)))))),
        comp::<_, _, (Y1,), (X1,)>(comp::<_, _, (Y2,), (Y1,)>(comp::<_, _, (Y3,), (Y2,)>(comp::<_, _, (Y4,), (Y3,)>(fa, fb), fe), fd), fc).yields1(x1, r)
            <==> exists|y1: Y1, y2: Y2, y3: Y3, y4: Y4| fc.yields1(x1, y1) && fd.yields1(y1, y2) && fe.yields1(y2, y3) && fb.yields1(y3, y4) && fa.yields1(y4, r),
{
    let f = comp::<_, _, (Y1,), (X1,)>(comp::<_, _, (Y2,), (Y1,)>(comp::<_, _, (Y3,), (Y2,)>(comp::<_, _, (Y4,), (Y3,)>(fa, fb), fe), fd), fc);
    if f.yields1(x1, r) {
        let y1 = choose|y1: Y1| f.inner.yields1(x1, y1) && f.outer.yields1(y1, r);
        let y2 = choose|y2: Y2| f.outer.inner.yields1(y1, y2) && f.outer.outer.yields1(y2, r);
        let y3 = choose|y3: Y3| f.outer.outer.inner.yields1(y2, y3) && f.outer.outer.outer.yields1(y3, r);
        let y4 = choose|y4: Y4| f.outer.outer.outer.inner.yields1(y3, y4) && f.outer.outer.outer.outer.yields1(y4, r);
    }
    if exists|y1: Y1, y2: Y2, y3: Y3, y4: Y4| fc.yields1(x1, y1) && fd.yields1(y1, y2) && fe.yields1(y2, y3) && fb.yields1(y3, y4) && fa.yields1(y4, r) {
        let (y1, y2, y3, y4) = choose|y1: Y1, y2: Y2, y3: Y3, y4: Y4| fc.yields1(x1, y1) && fd.yields1(y1, y2) && fe.yields1(y2, y3) && fb.yields1(y3, y4) && fa.yields1(y4, r);
        assert(f.outer.outer.outer.inner.yields1(y3, y4));
        assert(f.outer.outer.outer.outer.yields1(y4, r));
        assert(f.outer.outer.outer.yields1(y3, r));
        assert(f.outer.outer.inner.yields1(y2, y3));
        assert(f.outer.outer.yields1(y2, r));
        assert(f.outer.inner.yields1(y1, y2));
        assert(f.outer.yields1(y1, r));
        assert(f.inner.yields1(x1, y1));
        assert(f.yields1(x1, r));
    }
}

/// Vireo Twice Removed, called as its lambda form reads, is the nested call `v_star_star(a, b, c,
/// d, e)(x1, x2, x3, x4) = a(b(x1), e(x2), c(x3), d(x4))`: it accepts exactly the arguments for
/// which every call in the nesting is allowed, and gives exactly the results that the nesting can
/// give.
pub proof fn law_v_star_star<A, B, C, D, E, X1, X2, X3, X4, Y1, Y2, Y3, Y4, R>(fa: A, fb: B, fc: C, fd: D, fe: E, x1: X1, x2: X2, x3: X3, x4: X4, r: R) where
    A: Invocable4<Y4, Y3, Y2, Y1, Output = R>,
    B: Invocable1<X1, Output = Y4>,
    C: Invocable1<X3, Output = Y2>,
    D: Invocable1<X4, Output = Y1>,
    E: Invocable1<X2, Output = Y3>,
    ensures
        comp::<_, _, (Y1, X1, X2, X3), (X4,)>(comp::<_, _, (Y2, Y1, X1, X2), (X3,)>(comp::<_, _, (Y3, Y2, Y1, X1), (X2,)>(comp::<_, _, (Y4, Y3, Y2, Y1), (X1,)>(fa, fb), fe), fc), fd).accepts4(x1, x2, x3, x4)
            <==> (fd.accepts1(x4) && forall|y1: Y1| fd.yields1(x4, y1) ==> (fc.accepts1(x3) && forall|y2: Y2| fc.yields1(x3, y2) ==> (fe.accepts1(x2) && forall|y3: Y3| fe.yields1(x2, y3) ==> (fb.accepts1(x1) && forall|y4: Y4| fb.yields1(x1, y4) ==> (fa.accepts4(y4, y3, y2, y1)))))),
        comp::<_, _, (Y1, X1, X2, X3), (X4,)>(comp::<_, _, (Y2, Y1, X1, X2), (X3,)>(comp::<_, _, (Y3, Y2, Y1, X1), (X2,)>(comp::<_, _, (Y4, Y3, Y2, Y1), (X1,)>(fa, fb), fe), fc), fd).yields4(x1, x2, x3, x4, r)
            <==> exists|y1: Y1, y2: Y2, y3: Y3, y4: Y4| fd.yields1(x4, y1) && fc.yields1(x3, y2) && fe.yields1(x2, y3) && fb.yields1(x1, y4) && fa.yields4(y4, y3, y2, y1, r),
{
    let f = comp::<_, _, (Y1, X1, X2, X3), (X4,)>(comp::<_, _, (Y2, Y1, X1, X2), (X3,)>(comp::<_, _, (Y3, Y2, Y1, X1), (X2,)>(comp::<_, _, (Y4, Y3, Y2, Y1), (X1,)>(fa, fb), fe), fc), fd);
    if f.yields4(x1, x2, x3, x4, r) {
        let y1 = choose|y1: Y1| f.inner.yields1(x4, y1) && f.outer.yields4(y1, x1, x2, x3, r);
        let y2 = choose|y2: Y2| f.outer.inner.yields1(x3, y2) && f.outer.outer.yields4(y2, y1, x1, x2, r);
        let y3 = choose|y3: Y3| f.outer.outer.inner.yields1(x2, y3) && f.outer.outer.outer.yields4(y3, y2, y1, x1, r);
        let y4 = choose|y4: Y4| f.outer.outer.outer.inner.yields1(x1, y4) && f.outer.outer.outer.outer.yields4(y4, y3, y2, y1, r);
    }
    if exists|y1: Y1, y2: Y2, y3: Y3, y4: Y4| fd.yields1(x4, y1) && fc.yields1(x3, y2) && fe.yields1(x2, y3) && fb.yields1(x1, y4) && fa.yields4(y4, y3, y2, y1, r) {
        let (y1, y2, y3, y4) = choose|y1: Y1, y2: Y2, y3: Y3, y4: Y4| fd.yields1(x4, y1) && fc.yields1(x3, y2) && fe.yields1(x2, y3) && fb.yields1(x1, y4) && fa.yields4(y4, y3, y2, y1, r);
        assert(f.outer.outer.outer.inner.yields1(x1, y4));
        assert(f.outer.outer.outer.outer.yields4(y4, y3, y2, y1, r));
        assert(f.outer.outer.outer.yields4(y3, y2, y1, x1, r));
        assert(f.outer.outer.inner.yields1(x2, y3));
        assert(f.outer.outer.yields4(y2, y1, x1, x2, r));
        assert(f.outer.inner.yields1(x3, y2));
        assert(f.outer.yields4(y1, x1, x2, x3, r));
        assert(f.inner.yields1(x4, y1));
        assert(f.yields4(x1, x2, x3, x4, r));
    }
}

/// Vireo Twice Removed with one-argument callables only is the chain `v_star_star(a, b, c, d, e)(x)
/// = a(b(e(c(d(x)))))`, with the same callability and results.
pub proof fn law_v_star_star_chain<A, B, C, D, E, X1, Y1, Y2, Y3, Y4, R>(fa: A, fb: B, fc: C, fd: D, fe: E, x1: X1, r: R) where
    A: Invocable1<Y4, Output = R>,
    B: Invocable1<Y3, Output = Y4>,
    C: Invocable1<Y1, Output = Y2>,
    D: Invocable1<X1, Output = Y1>,
    E: Invocable1<Y2, Output = Y3>,
    ensures
        comp::<_, _, (Y1,), (X1,)>(comp::<_, _, (Y2,), (Y1,)>(comp::<_, _, (Y3,), (Y2,)>(comp::<_, _, (Y4,), (Y3,)>(fa, fb), fe), fc), fd).accepts1(x1)
            <==> (fd.accepts1(x1) && forall|y1: Y1| fd.yields1(x1, y1) ==> (fc.accepts1(y1) && forall|y2: Y2| fc.yields1(y1, y2) ==> (fe.accepts1(y2) && forall|y3: Y3| fe.yields1(y2, y3) ==> (fb.accepts1(y3) && forall|y4: Y4| fb.yields1(y3, y4) ==> (fa.accepts1(y4)))))),
        comp::<_, _, (Y1,), (X1,)>(comp::<_, _, (Y2,), (Y1,)>(comp::<_, _, (Y3,), (Y2,)>(comp::<_, _, (Y4,), (Y3,)>(fa, fb), fe), fc), fd).yields1(x1, r)
            <==> exists|y1: Y1, y2: Y2, y3: Y3, y4: Y4| fd.yields1(x1, y1) && fc.yields1(y1, y2) && fe.yields1(y2, y3) && fb.yields1(y3, y4) && fa.yields1(y4, r),
{
    let f = comp::<_, _, (Y1,), (X1,)>(comp::<_, _, (Y2,), (Y1,)>(comp::<_, _, (Y3,), (Y2,)>(comp::<_, _, (Y4,), (Y3,)>(fa, fb), fe), fc), fd);
    if f.yields1(x1, r) {
        let y1 = choose|y1: Y1| f.inner.yields1(x1, y1) && f.outer.yields1(y1, r);
        let y2 = choose|y2: Y2| f.outer.inner.yields1(y1, y2) && f.outer.outer.yields1(y2, r);
        let y3 = choose|y3: Y3| f.outer.outer.inner.yields1(y2, y3) && f.outer.outer.outer.yields1(y3, r);
        let y4 = choose|y4: Y4| f.outer.outer.outer.inner.yields1(y3, y4) && f.outer.outer.outer.outer.yields1(y4, r);
    }
    if exists|y1: Y1, y2: Y2, y3: Y3, y4: Y4| fd.yields1(x1, y1) && fc.yields1(y1, y2) && fe.yields1(y2, y3) && fb.yields1(y3, y4) && fa.yields1(y4, r) {
        let (y1, y2, y3, y4) = choose|y1: Y1, y2: Y2, y3: Y3, y4: Y4| fd.yields1(x1, y1) && fc.yields1(y1, y2) && fe.yields1(y2, y3) && fb.yields1(y3, y4) && fa.yields1(y4, r);
        assert(f.outer.outer.outer.inner.yields1(y3, y4));
        assert(f.outer.outer.outer.outer.yields1(y4, r));
        assert(f.outer.outer.outer.yields1(y3, r));
        assert(f.outer.outer.inner.yields1(y2, y3));
        assert(f.outer.outer.yields1(y2, r));
        assert(f.outer.inner.yields1(y1, y2));
        assert(f.outer.yields1(y1, r));
        assert(f.inner.yields1(x1, y1));
        assert(f.yields1(x1, r));
    }
}

/// Constant Mocker, called as its lambda form reads, is the nested call `km(a, b)(x) = b(b(x))`: it
/// accepts exactly the arguments for which every call in the nesting is allowed, and gives exactly
/// the results that the nesting can give.
pub proof fn law_km<B, X1, Y1, R>(fb: B, x1: X1, r: R) where
    B: Invocable1<Y1, Output = R> + Invocable1<X1, Output = Y1>,
    ensures
        comp::<_, _, (Y1,), (X1,)>(fb, fb).accepts1(x1)
            <==> (fb.accepts1(x1) && forall|y1: Y1| fb.yields1(x1, y1) ==> (fb.accepts1(y1))),
        comp::<_, _, (Y1,), (X1,)>(fb, fb).yields1(x1, r)
            <==> exists|y1: Y1| fb.yields1(x1, y1) && fb.yields1(y1, r),
{
    let f = comp::<_, _, (Y1,), (X1,)>(fb, fb);
    if f.yields1(x1, r) {
        let y1 = choose|y1: Y1| f.inner.yields1(x1, y1) && f.outer.yields1(y1, r);
    }
    if exists|y1: Y1| fb.yields1(x1, y1) && fb.yields1(y1, r) {
        let y1 = choose|y1: Y1| fb.yields1(x1, y1) && fb.yields1(y1, r);
        assert(f.inner.yields1(x1, y1));
        assert(f.outer.yields1(y1, r));
        assert(f.yields1(x1, r));
    }
}

/// Crossed Constant Mocker, called as its lambda form reads, is the nested call `ckm(a)(x) =
/// a(a(x))`: it accepts exactly the arguments for which every call in the nesting is allowed, and
/// gives exactly the results that the nesting can give.
pub proof fn law_ckm<A, X1, Y1, R>(fa: A, x1: X1, r: R) where
    A: Invocable1<Y1, Output = R> + Invocable1<X1, Output = Y1>,
    ensures
        comp::<_, _, (Y1,), (X1,)>(fa, fa).accepts1(x1)
            <==> (fa.accepts1(x1) && forall|y1: Y1| fa.yields1(x1, y1) ==> (fa.accepts1(y1))),
        comp::<_, _, (Y1,), (X1,)>(fa, fa).yields1(x1, r)
            <==> exists|y1: Y1| fa.yields1(x1, y1) && fa.yields1(y1, r),
{
    let f = comp::<_, _, (Y1,), (X1,)>(fa, fa);
    if f.yields1(x1, r) {
        let y1 = choose|y1: Y1| f.inner.yields1(x1, y1) && f.outer.yields1(y1, r);
    }
    if exists|y1: Y1| fa.yields1(x1, y1) && fa.yields1(y1, r) {
        let y1 = choose|y1: Y1| fa.yields1(x1, y1) && fa.yields1(y1, r);
        assert(f.inner.yields1(x1, y1));
        assert(f.outer.yields1(y1, r));
        assert(f.yields1(x1, r));
    }
}

/// Warbler Once Removed with a two-argument `a` gives `c` to itself: `w_star(a, b, c)(x1, x2) =
/// a(b(x1), c(c(x2)))`, with the same callability and results.
pub proof fn law_w_star_binary<A, B, C, X1, X2, Y1, Y2, Y3, R>(fa: A, fb: B, fc: C, x1: X1, x2: X2, r: R) where
    A: Invocable2<Y3, Y2, Output = R>,
    B: Invocable1<X1, Output = Y3>,
    C: Invocable1<Y1, Output = Y2> + Invocable1<X2, Output = Y1>,
    ensures
        comp::<_, _, Last<(X1, Y1)>, (X2,)>(comp::<_, _, (Y2, X1), (Y1,)>(comp::<_, _, (Y3, Y2), (X1,)>(fa, fb), fc), fc).accepts2(x1, x2)
            <==> (fc.accepts1(x2) && forall|y1: Y1| fc.yields1(x2, y1) ==> (fc.accepts1(y1) && forall|y2: Y2| fc.yields1(y1, y2) ==> (fb.accepts1(x1) && forall|y3: Y3| fb.yields1(x1, y3) ==> (fa.accepts2(y3, y2))))),
        comp::<_, _, Last<(X1, Y1)>, (X2,)>(comp::<_, _, (Y2, X1), (Y1,)>(comp::<_, _, (Y3, Y2), (X1,)>(fa, fb), fc), fc).yields2(x1, x2, r)
            <==> exists|y1: Y1, y2: Y2, y3: Y3| fc.yields1(x2, y1) && fc.yields1(y1, y2) && fb.yields1(x1, y3) && fa.yields2(y3, y2, r),
{
    let f = comp::<_, _, Last<(X1, Y1)>, (X2,)>(comp::<_, _, (Y2, X1), (Y1,)>(comp::<_, _, (Y3, Y2), (X1,)>(fa, fb), fc), fc);
    if f.yields2(x1, x2, r) {
        let y1 = choose|y1: Y1| f.inner.yields1(x2, y1) && f.outer.yields2(x1, y1, r);
        let y2 = choose|y2: Y2| f.outer.inner.yields1(y1, y2) && f.outer.outer.yields2(y2, x1, r);
        let y3 = choose|y3: Y3| f.outer.outer.inner.yields1(x1, y3) && f.outer.outer.outer.yields2(y3, y2, r);
    }
    if exists|y1: Y1, y2: Y2, y3: Y3| fc.yields1(x2, y1) && fc.yields1(y1, y2) && fb.yields1(x1, y3) && fa.yields2(y3, y2, r) {
        let (y1, y2, y3) = choose|y1: Y1, y2: Y2, y3: Y3| fc.yields1(x2, y1) && fc.yields1(y1, y2) && fb.yields1(x1, y3) && fa.yields2(y3, y2, r);
        assert(f.outer.outer.inner.yields1(x1, y3));
        assert(f.outer.outer.outer.yields2(y3, y2, r));
        assert(f.outer.outer.yields2(y2, x1, r));
        assert(f.outer.inner.yields1(y1, y2));
        assert(f.outer.yields2(x1, y1, r));
        assert(f.inner.yields1(x2, y1));
        assert(f.yields2(x1, x2, r));
    }
}

/// Warbler Once Removed with a two-argument `b` gives it both `c`: `w_star(a, b, c)(x1, x2) =
/// a(b(c(x1), c(x2)))`, with the same callability and results.
pub proof fn law_w_star_inner_binary<A, B, C, X1, X2, Y1, Y2, Y3, R>(fa: A, fb: B, fc: C, x1: X1, x2: X2, r: R) where
    A: Invocable1<Y3, Output = R>,
    B: Invocable2<Y2, Y1, Output = Y3>,
    C: Invocable1<X1, Output = Y2> + Invocable1<X2, Output = Y1>,
    ensures
        comp::<_, _, (Y1, X1), (X2,)>(comp::<_, _, (Y2, Y1), (X1,)>(comp::<_, _, (Y3,), (Y2, Y1)>(fa, fb), fc), fc).accepts2(x1, x2)
            <==> (fc.accepts1(x2) && forall|y1: Y1| fc.yields1(x2, y1) ==> (fc.accepts1(x1) && forall|y2: Y2| fc.yields1(x1, y2) ==> (fb.accepts2(y2, y1) && forall|y3: Y3| fb.yields2(y2, y1, y3) ==> (fa.accepts1(y3))))),
        comp::<_, _, (Y1, X1), (X2,)>(comp::<_, _, (Y2, Y1), (X1,)>(comp::<_, _, (Y3,), (Y2, Y1)>(fa, fb), fc), fc).yields2(x1, x2, r)
            <==> exists|y1: Y1, y2: Y2, y3: Y3| fc.yields1(x2, y1) && fc.yields1(x1, y2) && fb.yields2(y2, y1, y3) && fa.yields1(y3, r),
{
    let f = comp::<_, _, (Y1, X1), (X2,)>(comp::<_, _, (Y2, Y1), (X1,)>(comp::<_, _, (Y3,), (Y2, Y1)>(fa, fb), fc), fc);
    if f.yields2(x1, x2, r) {
        let y1 = choose|y1: Y1| f.inner.yields1(x2, y1) && f.outer.yields2(y1, x1, r);
        let y2 = choose|y2: Y2| f.outer.inner.yields1(x1, y2) && f.outer.outer.yields2(y2, y1, r);
        let y3 = choose|y3: Y3| f.outer.outer.inner.yields2(y2, y1, y3) && f.outer.outer.outer.yields1(y3, r);
    }
    if exists|y1: Y1, y2: Y2, y3: Y3| fc.yields1(x2, y1) && fc.yields1(x1, y2) && fb.yields2(y2, y1, y3) && fa.yields1(y3, r) {
        let (y1, y2, y3) = choose|y1: Y1, y2: Y2, y3: Y3| fc.yields1(x2, y1) && fc.yields1(x1, y2) && fb.yields2(y2, y1, y3) && fa.yields1(y3, r);
        assert(f.outer.outer.inner.yields2(y2, y1, y3));
        assert(f.outer.outer.outer.yields1(y3, r));
        assert(f.outer.outer.yields2(y2, y1, r));
        assert(f.outer.inner.yields1(x1, y2));
        assert(f.outer.yields2(y1, x1, r));
        assert(f.inner.yields1(x2, y1));
        assert(f.yields2(x1, x2, r));
    }
}

/// Warbler Twice Removed with a two-argument `a` gives `d` to `c` and then to itself:
/// `w_star_star(a, b, c, d)(x1, x2) = a(b(x1), c(d(d(x2))))`, with the same callability and
/// results.
pub proof fn law_w_star_star_binary<A, B, C, D, X1, X2, Y1, Y2, Y3, Y4, R>(fa: A, fb: B, fc: C, fd: D, x1: X1, x2: X2, r: R) where
    A: Invocable2<Y4, Y3, Output = R>,
    B: Invocable1<X1, Output = Y4>,
    C: Invocable1<Y2, Output = Y3>,
    D: Invocable1<Y1, Output = Y2> + Invocable1<X2, Output = Y1>,
    ensures
        comp::<_, _, Last<(X1, Y1)>, (X2,)>(comp::<_, _, Last<(X1, Y2)>, (Y1,)>(comp::<_, _, (Y3, X1), (Y2,)>(comp::<_, _, (Y4, Y3), (X1,)>(fa, fb), fc), fd), fd).accepts2(x1, x2)
            <==> (fd.accepts1(x2) && forall|y1: Y1| fd.yields1(x2, y1) ==> (fd.accepts1(y1) && forall|y2: Y2| fd.yields1(y1, y2) ==> (fc.accepts1(y2) && forall|y3: Y3| fc.yields1(y2, y3) ==> (fb.accepts1(x1) && forall|y4: Y4| fb.yields1(x1, y4) ==> (fa.accepts2(y4, y3)))))),
        comp::<_, _, Last<(X1, Y1)>, (X2,)>(comp::<_, _, Last<(X1, Y2)>, (Y1,)>(comp::<_, _, (Y3, X1), (Y2,)>(comp::<_, _, (Y4, Y3), (X1,)>(fa, fb), fc), fd), fd).yields2(x1, x2, r)
            <==> exists|y1: Y1, y2: Y2, y3: Y3, y4: Y4| fd.yields1(x2, y1) && fd.yields1(y1, y2) && fc.yields1(y2, y3) && fb.yields1(x1, y4) && fa.yields2(y4, y3, r),
{
    let f = comp::<_, _, Last<(X1, Y1)>, (X2,)>(comp::<_, _, Last<(X1, Y2)>, (Y1,)>(comp::<_, _, (Y3, X1), (Y2,)>(comp::<_, _, (Y4, Y3), (X1,)>(fa, fb), fc), fd), fd);
    if f.yields2(x1, x2, r) {
        let y1 = choose|y1: Y1| f.inner.yields1(x2, y1) && f.outer.yields2(x1, y1, r);
        let y2 = choose|y2: Y2| f.outer.inner.yields1(y1, y2) && f.outer.outer.yields2(x1, y2, r);
        let y3 = choose|y3: Y3| f.outer.outer.inner.yields1(y2, y3) && f.outer.outer.outer.yields2(y3, x1, r);
        let y4 = choose|y4: Y4| f.outer.outer.outer.inner.yields1(x1, y4) && f.outer.outer.outer.outer.yields2(y4, y3, r);
    }
    if exists|y1: Y1, y2: Y2, y3: Y3, y4: Y4| fd.yields1(x2, y1) && fd.yields1(y1, y2) && fc.yields1(y2, y3) && fb.yields1(x1, y4) && fa.yields2(y4, y3, r) {
        let (y1, y2, y3, y4) = choose|y1: Y1, y2: Y2, y3: Y3, y4: Y4| fd.yields1(x2, y1) && fd.yields1(y1, y2) && fc.yields1(y2, y3) && fb.yields1(x1, y4) && fa.yields2(y4, y3, r);
        assert(f.outer.outer.outer.inner.yields1(x1, y4));
        assert(f.outer.outer.outer.outer.yields2(y4, y3, r));
        assert(f.outer.outer.outer.yields2(y3, x1, r));
        assert(f.outer.outer.inner.yields1(y2, y3));
        assert(f.outer.outer.yields2(x1, y2, r));
        assert(f.outer.inner.yields1(y1, y2));
        assert(f.outer.yields2(x1, y1, r));
        assert(f.inner.yields1(x2, y1));
        assert(f.yields2(x1, x2, r));
    }
}

/// Warbler Twice Removed with a three-argument `a` gives the last `d` to the first: `w_star_star(a,
/// b, c, d)(x1, x2, x3) = a(b(x1), c(x2), d(d(x3)))`, with the same callability and results.
pub proof fn law_w_star_star_ternary<A, B, C, D, X1, X2, X3, Y1, Y2, Y3, Y4, R>(fa: A, fb: B, fc: C, fd: D, x1: X1, x2: X2, x3: X3, r: R) where
    A: Invocable3<Y4, Y3, Y2, Output = R>,
    B: Invocable1<X1, Output = Y4>,
    C: Invocable1<X2, Output = Y3>,
    D: Invocable1<Y1, Output = Y2> + Invocable1<X3, Output = Y1>,
    ensures
        comp::<_, _, Last<(X1, X2, Y1)>, (X3,)>(comp::<_, _, (Y2, X1, X2), (Y1,)>(comp::<_, _, (Y3, Y2, X1), (X2,)>(comp::<_, _, (Y4, Y3, Y2), (X1,)>(fa, fb), fc), fd), fd).accepts3(x1, x2, x3)
            <==> (fd.accepts1(x3) && forall|y1: Y1| fd.yields1(x3, y1) ==> (fd.accepts1(y1) && forall|y2: Y2| fd.yields1(y1, y2) ==> (fc.accepts1(x2) && forall|y3: Y3| fc.yields1(x2, y3) ==> (fb.accepts1(x1) && forall|y4: Y4| fb.yields1(x1, y4) ==> (fa.accepts3(y4, y3, y2)))))),
        comp::<_, _, Last<(X1, X2, Y1)>, (X3,)>(comp::<_, _, (Y2, X1, X2), (Y1,)>(comp::<_, _, (Y3, Y2, X1), (X2,)>(comp::<_, _, (Y4, Y3, Y2), (X1,)>(fa, fb), fc), fd), fd).yields3(x1, x2, x3, r)
            <==> exists|y1: Y1, y2: Y2, y3: Y3, y4: Y4| fd.yields1(x3, y1) && fd.yields1(y1, y2) && fc.yields1(x2, y3) && fb.yields1(x1, y4) && fa.yields3(y4, y3, y2, r),
{
    let f = comp::<_, _, Last<(X1, X2, Y1)>, (X3,)>(comp::<_, _, (Y2, X1, X2), (Y1,)>(comp::<_, _, (Y3, Y2, X1), (X2,)>(comp::<_, _, (Y4, Y3, Y2), (X1,)>(fa, fb), fc), fd), fd);
    if f.yields3(x1, x2, x3, r) {
        let y1 = choose|y1: Y1| f.inner.yields1(x3, y1) && f.outer.yields3(x1, x2, y1, r);
        let y2 = choose|y2: Y2| f.outer.inner.yields1(y1, y2) && f.outer.outer.yields3(y2, x1, x2, r);
        let y3 = choose|y3: Y3| f.outer.outer.inner.yields1(x2, y3) && f.outer.outer.outer.yields3(y3, y2, x1, r);
        let y4 = choose|y4: Y4| f.outer.outer.outer.inner.yields1(x1, y4) && f.outer.outer.outer.outer.yields3(y4, y3, y2, r);
    }
    if exists|y1: Y1, y2: Y2, y3: Y3, y4: Y4| fd.yields1(x3, y1) && fd.yields1(y1, y2) && fc.yields1(x2, y3) && fb.yields1(x1, y4) && fa.yields3(y4, y3, y2, r) {
        let (y1, y2, y3, y4) = choose|y1: Y1, y2: Y2, y3: Y3, y4: Y4| fd.yields1(x3, y1) && fd.yields1(y1, y2) && fc.yields1(x2, y3) && fb.yields1(x1, y4) && fa.yields3(y4, y3, y2, r);
        assert(f.outer.outer.outer.inner.yields1(x1, y4));
        assert(f.outer.outer.outer.outer.yields3(y4, y3, y2, r));
        assert(f.outer.outer.outer.yields3(y3, y2, x1, r));
        assert(f.outer.outer.inner.yields1(x2, y3));
        assert(f.outer.outer.yields3(y2, x1, x2, r));
        assert(f.outer.inner.yields1(y1, y2));
        assert(f.outer.yields3(x1, x2, y1, r));
        assert(f.inner.yields1(x3, y1));
        assert(f.yields3(x1, x2, x3, r));
    }
}

/// Warbler Twice Removed with a two-argument `b` gives the last `d` to the first: `w_star_star(a,
/// b, c, d)(x1, x2) = a(b(c(x1), d(d(x2))))`, with the same callability and results.
pub proof fn law_w_star_star_inner_binary<A, B, C, D, X1, X2, Y1, Y2, Y3, Y4, R>(fa: A, fb: B, fc: C, fd: D, x1: X1, x2: X2, r: R) where
    A: Invocable1<Y4, Output = R>,
    B: Invocable2<Y3, Y2, Output = Y4>,
    C: Invocable1<X1, Output = Y3>,
    D: Invocable1<Y1, Output = Y2> + Invocable1<X2, Output = Y1>,
    ensures
        comp::<_, _, Last<(X1, Y1)>, (X2,)>(comp::<_, _, (Y2, X1), (Y1,)>(comp::<_, _, (Y3, Y2), (X1,)>(comp::<_, _, (Y4,), (Y3, Y2)>(fa, fb), fc), fd), fd).accepts2(x1, x2)
            <==> (fd.accepts1(x2) && forall|y1: Y1| fd.yields1(x2, y1) ==> (fd.accepts1(y1) && forall|y2: Y2| fd.yields1(y1, y2) ==> (fc.accepts1(x1) && forall|y3: Y3| fc.yields1(x1, y3) ==> (fb.accepts2(y3, y2) && forall|y4: Y4| fb.yields2(y3, y2, y4) ==> (fa.accepts1(y4)))))),
        comp::<_, _, Last<(X1, Y1)>, (X2,)>(comp::<_, _, (Y2, X1), (Y1,)>(comp::<_, _, (Y3, Y2), (X1,)>(comp::<_, _, (Y4,), (Y3, Y2)>(fa, fb), fc), fd), fd).yields2(x1, x2, r)
            <==> exists|y1: Y1, y2: Y2, y3: Y3, y4: Y4| fd.yields1(x2, y1) && fd.yields1(y1, y2) && fc.yields1(x1, y3) && fb.yields2(y3, y2, y4) && fa.yields1(y4, r),
{
    let f = comp::<_, _, Last<(X1, Y1)>, (X2,)>(comp::<_, _, (Y2, X1), (Y1,)>(comp::<_, _, (Y3, Y2), (X1,)>(comp::<_, _, (Y4,), (Y3, Y2)>(fa, fb), fc), fd), fd);
    if f.yields2(x1, x2, r) {
        let y1 = choose|y1: Y1| f.inner.yields1(x2, y1) && f.outer.yields2(x1, y1, r);
        let y2 = choose|y2: Y2| f.outer.inner.yields1(y1, y2) && f.outer.outer.yields2(y2, x1, r);
        let y3 = choose|y3: Y3| f.outer.outer.inner.yields1(x1, y3) && f.outer.outer.outer.yields2(y3, y2, r);
        let y4 = choose|y4: Y4| f.outer.outer.outer.inner.yields2(y3, y2, y4) && f.outer.outer.outer.outer.yields1(y4, r);
    }
    if exists|y1: Y1, y2: Y2, y3: Y3, y4: Y4| fd.yields1(x2, y1) && fd.yields1(y1, y2) && fc.yields1(x1, y3) && fb.yields2(y3, y2, y4) && fa.yields1(y4, r) {
        let (y1, y2, y3, y4) = choose|y1: Y1, y2: Y2, y3: Y3, y4: Y4| fd.yields1(x2, y1) && fd.yields1(y1, y2) && fc.yields1(x1, y3) && fb.yields2(y3, y2, y4) && fa.yields1(y4, r);
        assert(f.outer.outer.outer.inner.yields2(y3, y2, y4));
        assert(f.outer.outer.outer.outer.yields1(y4, r));
        assert(f.outer.outer.outer.yields2(y3, y2, r));
        assert(f.outer.outer.inner.yields1(x1, y3));
        assert(f.outer.outer.yields2(y2, x1, r));
        assert(f.outer.inner.yields1(y1, y2));
        assert(f.outer.yields2(x1, y1, r));
        assert(f.inner.yields1(x2, y1));
        assert(f.yields2(x1, x2, r));
    }
}

/// Warbler Twice Removed with a three-argument `b` gives it `c` and both `d`: `w_star_star(a, b, c,
/// d)(x1, x2, x3) = a(b(c(x1), d(x2), d(x3)))`, with the same callability and results.
pub proof fn law_w_star_star_inner_ternary<A, B, C, D, X1, X2, X3, Y1, Y2, Y3, Y4, R>(fa: A, fb: B, fc: C, fd: D, x1: X1, x2: X2, x3: X3, r: R) where
    A: Invocable1<Y4, Output = R>,
    B: Invocable3<Y3, Y2, Y1, Output = Y4>,
    C: Invocable1<X1, Output = Y3>,
    D: Invocable1<X2, Output = Y2> + Invocable1<X3, Output = Y1>,
    ensures
        comp::<_, _, (Y1, X1, X2), (X3,)>(comp::<_, _, (Y2, Y1, X1), (X2,)>(comp::<_, _, (Y3, Y2, Y1), (X1,)>(comp::<_, _, (Y4,), (Y3, Y2, Y1)>(fa, fb), fc), fd), fd).accepts3(x1, x2, x3)
            <==> (fd.accepts1(x3) && forall|y1: Y1| fd.yields1(x3, y1) ==> (fd.accepts1(x2) && forall|y2: Y2| fd.yields1(x2, y2) ==> (fc.accepts1(x1) && forall|y3: Y3| fc.yields1(x1, y3) ==> (fb.accepts3(y3, y2, y1) && forall|y4: Y4| fb.yields3(y3, y2, y1, y4) ==> (fa.accepts1(y4)))))),
        comp::<_, _, (Y1, X1, X2), (X3,)>(comp::<_, _, (Y2, Y1, X1), (X2,)>(comp::<_, _, (Y3, Y2, Y1), (X1,)>(comp::<_, _, (Y4,), (Y3, Y2, Y1)>(fa, fb), fc), fd), fd).yields3(x1, x2, x3, r)
            <==> exists|y1: Y1, y2: Y2, y3: Y3, y4: Y4| fd.yields1(x3, y1) && fd.yields1(x2, y2) && fc.yields1(x1, y3) && fb.yields3(y3, y2, y1, y4) && fa.yields1(y4, r),
{
    let f = comp::<_, _, (Y1, X1, X2), (X3,)>(comp::<_, _, (Y2, Y1, X1), (X2,)>(comp::<_, _, (Y3, Y2, Y1), (X1,)>(comp::<_, _, (Y4,), (Y3, Y2, Y1)>(fa, fb), fc), fd), fd);
    if f.yields3(x1, x2, x3, r) {
        let y1 = choose|y1: Y1| f.inner.yields1(x3, y1) && f.outer.yields3(y1, x1, x2, r);
        let y2 = choose|y2: Y2| f.outer.inner.yields1(x2, y2) && f.outer.outer.yields3(y2, y1, x1, r);
        let y3 = choose|y3: Y3| f.outer.outer.inner.yields1(x1, y3) && f.outer.outer.outer.yields3(y3, y2, y1, r);
        let y4 = choose|y4: Y4| f.outer.outer.outer.inner.yields3(y3, y2, y1, y4) && f.outer.outer.outer.outer.yields1(y4, r);
    }
    if exists|y1: Y1, y2: Y2, y3: Y3, y4: Y4| fd.yields1(x3, y1) && fd.yields1(x2, y2) && fc.yields1(x1, y3) && fb.yields3(y3, y2, y1, y4) && fa.yields1(y4, r) {
        let (y1, y2, y3, y4) = choose|y1: Y1, y2: Y2, y3: Y3, y4: Y4| fd.yields1(x3, y1) && fd.yields1(x2, y2) && fc.yields1(x1, y3) && fb.yields3(y3, y2, y1, y4) && fa.yields1(y4, r);
        assert(f.outer.outer.outer.inner.yields3(y3, y2, y1, y4));
        assert(f.outer.outer.outer.outer.yields1(y4, r));
        assert(f.outer.outer.outer.yields3(y3, y2, y1, r));
        assert(f.outer.outer.inner.yields1(x1, y3));
        assert(f.outer.outer.yields3(y2, y1, x1, r));
        assert(f.outer.inner.yields1(x2, y2));
        assert(f.outer.yields3(y1, x1, x2, r));
        assert(f.inner.yields1(x3, y1));
        assert(f.yields3(x1, x2, x3, r));
    }
}

/// Bluebird whose `c` takes no argument: `b(a, b, c)() = a(b(c()))`, with the same callability and
/// results.
pub proof fn law_b_arity_0<A, B, C, Y1, Y2, R>(fa: A, fb: B, fc: C, r: R) where
    A: Invocable1<Y2, Output = R>,
    B: Invocable1<Y1, Output = Y2>,
    C: Invocable0<Output = Y1>,
    ensures
        comp::<_, _, (Y2,), ()>(fa, comp::<_, _, (Y1,), ()>(fb, fc)).accepts0()
            <==> (fc.accepts0() && forall|y1: Y1| fc.yields0(y1) ==> (fb.accepts1(y1) && forall|y2: Y2| fb.yields1(y1, y2) ==> (fa.accepts1(y2)))),
        comp::<_, _, (Y2,), ()>(fa, comp::<_, _, (Y1,), ()>(fb, fc)).yields0(r)
            <==> exists|y1: Y1, y2: Y2| fc.yields0(y1) && fb.yields1(y1, y2) && fa.yields1(y2, r),
{
    let f = comp::<_, _, (Y2,), ()>(fa, comp::<_, _, (Y1,), ()>(fb, fc));
    assert forall|y1: Y1, y2: Y2| fc.yields0(y1) && fb.yields1(y1, y2) implies f.inner.yields0(y2) by {
        assert(f.inner.inner.yields0(y1));
        assert(f.inner.outer.yields1(y1, y2));
    }
    if f.yields0(r) {
        let y2 = choose|y2: Y2| f.inner.yields0(y2) && f.outer.yields1(y2, r);
        let y1 = choose|y1: Y1| f.inner.inner.yields0(y1) && f.inner.outer.yields1(y1, y2);
    }
    if exists|y1: Y1, y2: Y2| fc.yields0(y1) && fb.yields1(y1, y2) && fa.yields1(y2, r) {
        let (y1, y2) = choose|y1: Y1, y2: Y2| fc.yields0(y1) && fb.yields1(y1, y2) && fa.yields1(y2, r);
        assert(f.inner.inner.yields0(y1));
        assert(f.inner.outer.yields1(y1, y2));
        assert(f.inner.yields0(y2));
        assert(f.outer.yields1(y2, r));
        assert(f.yields0(r));
    }
}

/// Thrush whose `a` takes no argument: `t(a, b)() = b(a())`, with the same callability and results.
pub proof fn law_t_arity_0<A, B, Y1, R>(fa: A, fb: B, r: R) where
    A: Invocable0<Output = Y1>,
    B: Invocable1<Y1, Output = R>,
    ensures
        comp::<_, _, (Y1,), ()>(fb, fa).accepts0()
            <==> (fa.accepts0() && forall|y1: Y1| fa.yields0(y1) ==> (fb.accepts1(y1))),
        comp::<_, _, (Y1,), ()>(fb, fa).yields0(r)
            <==> exists|y1: Y1| fa.yields0(y1) && fb.yields1(y1, r),
{
    let f = comp::<_, _, (Y1,), ()>(fb, fa);
    if f.yields0(r) {
        let y1 = choose|y1: Y1| f.inner.yields0(y1) && f.outer.yields1(y1, r);
    }
    if exists|y1: Y1| fa.yields0(y1) && fb.yields1(y1, r) {
        let y1 = choose|y1: Y1| fa.yields0(y1) && fb.yields1(y1, r);
        assert(f.inner.yields0(y1));
        assert(f.outer.yields1(y1, r));
        assert(f.yields0(r));
    }
}

/// Identity Bird Once Removed whose `b` takes no argument: `i_star(a, b)() = a(b())`, with the same
/// callability and results.
pub proof fn law_i_star_arity_0<A, B, Y1, R>(fa: A, fb: B, r: R) where
    A: Invocable1<Y1, Output = R>,
    B: Invocable0<Output = Y1>,
    ensures
        comp::<_, _, (Y1,), ()>(fa, fb).accepts0()
            <==> (fb.accepts0() && forall|y1: Y1| fb.yields0(y1) ==> (fa.accepts1(y1))),
        comp::<_, _, (Y1,), ()>(fa, fb).yields0(r)
            <==> exists|y1: Y1| fb.yields0(y1) && fa.yields1(y1, r),
{
    let f = comp::<_, _, (Y1,), ()>(fa, fb);
    if f.yields0(r) {
        let y1 = choose|y1: Y1| f.inner.yields0(y1) && f.outer.yields1(y1, r);
    }
    if exists|y1: Y1| fb.yields0(y1) && fa.yields1(y1, r) {
        let y1 = choose|y1: Y1| fb.yields0(y1) && fa.yields1(y1, r);
        assert(f.inner.yields0(y1));
        assert(f.outer.yields1(y1, r));
        assert(f.yields0(r));
    }
}

/// Bluebird whose `c` takes two arguments: `b(a, b, c)(x1, x2) = a(b(c(x1, x2)))`, with the same
/// callability and results.
pub proof fn law_b_arity_2<A, B, C, X1, X2, Y1, Y2, R>(fa: A, fb: B, fc: C, x1: X1, x2: X2, r: R) where
    A: Invocable1<Y2, Output = R>,
    B: Invocable1<Y1, Output = Y2>,
    C: Invocable2<X1, X2, Output = Y1>,
    ensures
        comp::<_, _, (Y2,), (X1, X2)>(fa, comp::<_, _, (Y1,), (X1, X2)>(fb, fc)).accepts2(x1, x2)
            <==> (fc.accepts2(x1, x2) && forall|y1: Y1| fc.yields2(x1, x2, y1) ==> (fb.accepts1(y1) && forall|y2: Y2| fb.yields1(y1, y2) ==> (fa.accepts1(y2)))),
        comp::<_, _, (Y2,), (X1, X2)>(fa, comp::<_, _, (Y1,), (X1, X2)>(fb, fc)).yields2(x1, x2, r)
            <==> exists|y1: Y1, y2: Y2| fc.yields2(x1, x2, y1) && fb.yields1(y1, y2) && fa.yields1(y2, r),
{
    let f = comp::<_, _, (Y2,), (X1, X2)>(fa, comp::<_, _, (Y1,), (X1, X2)>(fb, fc));
    assert forall|y1: Y1, y2: Y2| fc.yields2(x1, x2, y1) && fb.yields1(y1, y2) implies f.inner.yields2(x1, x2, y2) by {
        assert(f.inner.inner.yields2(x1, x2, y1));
        assert(f.inner.outer.yields1(y1, y2));
    }
    if f.yields2(x1, x2, r) {
        let y2 = choose|y2: Y2| f.inner.yields2(x1, x2, y2) && f.outer.yields1(y2, r);
        let y1 = choose|y1: Y1| f.inner.inner.yields2(x1, x2, y1) && f.inner.outer.yields1(y1, y2);
    }
    if exists|y1: Y1, y2: Y2| fc.yields2(x1, x2, y1) && fb.yields1(y1, y2) && fa.yields1(y2, r) {
        let (y1, y2) = choose|y1: Y1, y2: Y2| fc.yields2(x1, x2, y1) && fb.yields1(y1, y2) && fa.yields1(y2, r);
        assert(f.inner.inner.yields2(x1, x2, y1));
        assert(f.inner.outer.yields1(y1, y2));
        assert(f.inner.yields2(x1, x2, y2));
        assert(f.outer.yields1(y2, r));
        assert(f.yields2(x1, x2, r));
    }
}

/// Thrush whose `a` takes two arguments: `t(a, b)(x1, x2) = b(a(x1, x2))`, with the same
/// callability and results.
pub proof fn law_t_arity_2<A, B, X1, X2, Y1, R>(fa: A, fb: B, x1: X1, x2: X2, r: R) where
    A: Invocable2<X1, X2, Output = Y1>,
    B: Invocable1<Y1, Output = R>,
    ensures
        comp::<_, _, (Y1,), (X1, X2)>(fb, fa).accepts2(x1, x2)
            <==> (fa.accepts2(x1, x2) && forall|y1: Y1| fa.yields2(x1, x2, y1) ==> (fb.accepts1(y1))),
        comp::<_, _, (Y1,), (X1, X2)>(fb, fa).yields2(x1, x2, r)
            <==> exists|y1: Y1| fa.yields2(x1, x2, y1) && fb.yields1(y1, r),
{
    let f = comp::<_, _, (Y1,), (X1, X2)>(fb, fa);
    if f.yields2(x1, x2, r) {
        let y1 = choose|y1: Y1| f.inner.yields2(x1, x2, y1) && f.outer.yields1(y1, r);
    }
    if exists|y1: Y1| fa.yields2(x1, x2, y1) && fb.yields1(y1, r) {
        let y1 = choose|y1: Y1| fa.yields2(x1, x2, y1) && fb.yields1(y1, r);
        assert(f.inner.yields2(x1, x2, y1));
        assert(f.outer.yields1(y1, r));
        assert(f.yields2(x1, x2, r));
    }
}

/// Identity Bird Once Removed whose `b` takes two arguments: `i_star(a, b)(x1, x2) = a(b(x1, x2))`,
/// with the same callability and results.
pub proof fn law_i_star_arity_2<A, B, X1, X2, Y1, R>(fa: A, fb: B, x1: X1, x2: X2, r: R) where
    A: Invocable1<Y1, Output = R>,
    B: Invocable2<X1, X2, Output = Y1>,
    ensures
        comp::<_, _, (Y1,), (X1, X2)>(fa, fb).accepts2(x1, x2)
            <==> (fb.accepts2(x1, x2) && forall|y1: Y1| fb.yields2(x1, x2, y1) ==> (fa.accepts1(y1))),
        comp::<_, _, (Y1,), (X1, X2)>(fa, fb).yields2(x1, x2, r)
            <==> exists|y1: Y1| fb.yields2(x1, x2, y1) && fa.yields1(y1, r),
{
    let f = comp::<_, _, (Y1,), (X1, X2)>(fa, fb);
    if f.yields2(x1, x2, r) {
        let y1 = choose|y1: Y1| f.inner.yields2(x1, x2, y1) && f.outer.yields1(y1, r);
    }
    if exists|y1: Y1| fb.yields2(x1, x2, y1) && fa.yields1(y1, r) {
        let y1 = choose|y1: Y1| fb.yields2(x1, x2, y1) && fa.yields1(y1, r);
        assert(f.inner.yields2(x1, x2, y1));
        assert(f.outer.yields1(y1, r));
        assert(f.yields2(x1, x2, r));
    }
}

/// Bluebird whose `c` takes three arguments: `b(a, b, c)(x1, x2, x3) = a(b(c(x1, x2, x3)))`, with
/// the same callability and results.
pub proof fn law_b_arity_3<A, B, C, X1, X2, X3, Y1, Y2, R>(fa: A, fb: B, fc: C, x1: X1, x2: X2, x3: X3, r: R) where
    A: Invocable1<Y2, Output = R>,
    B: Invocable1<Y1, Output = Y2>,
    C: Invocable3<X1, X2, X3, Output = Y1>,
    ensures
        comp::<_, _, (Y2,), (X1, X2, X3)>(fa, comp::<_, _, (Y1,), (X1, X2, X3)>(fb, fc)).accepts3(x1, x2, x3)
            <==> (fc.accepts3(x1, x2, x3) && forall|y1: Y1| fc.yields3(x1, x2, x3, y1) ==> (fb.accepts1(y1) && forall|y2: Y2| fb.yields1(y1, y2) ==> (fa.accepts1(y2)))),
        comp::<_, _, (Y2,), (X1, X2, X3)>(fa, comp::<_, _, (Y1,), (X1, X2, X3)>(fb, fc)).yields3(x1, x2, x3, r)
            <==> exists|y1: Y1, y2: Y2| fc.yields3(x1, x2, x3, y1) && fb.yields1(y1, y2) && fa.yields1(y2, r),
{
    let f = comp::<_, _, (Y2,), (X1, X2, X3)>(fa, comp::<_, _, (Y1,), (X1, X2, X3)>(fb, fc));
    assert forall|y1: Y1, y2: Y2| fc.yields3(x1, x2, x3, y1) && fb.yields1(y1, y2) implies f.inner.yields3(x1, x2, x3, y2) by {
        assert(f.inner.inner.yields3(x1, x2, x3, y1));
        assert(f.inner.outer.yields1(y1, y2));
    }
    if f.yields3(x1, x2, x3, r) {
        let y2 = choose|y2: Y2| f.inner.yields3(x1, x2, x3, y2) && f.outer.yields1(y2, r);
        let y1 = choose|y1: Y1| f.inner.inner.yields3(x1, x2, x3, y1) && f.inner.outer.yields1(y1, y2);
    }
    if exists|y1: Y1, y2: Y2| fc.yields3(x1, x2, x3, y1) && fb.yields1(y1, y2) && fa.yields1(y2, r) {
        let (y1, y2) = choose|y1: Y1, y2: Y2| fc.yields3(x1, x2, x3, y1) && fb.yields1(y1, y2) && fa.yields1(y2, r);
        assert(f.inner.inner.yields3(x1, x2, x3, y1));
        assert(f.inner.outer.yields1(y1, y2));
        assert(f.inner.yields3(x1, x2, x3, y2));
        assert(f.outer.yields1(y2, r));
        assert(f.yields3(x1, x2, x3, r));
    }
}

/// Thrush whose `a` takes three arguments: `t(a, b)(x1, x2, x3) = b(a(x1, x2, x3))`, with the same
/// callability and results.
pub proof fn law_t_arity_3<A, B, X1, X2, X3, Y1, R>(fa: A, fb: B, x1: X1, x2: X2, x3: X3, r: R) where
    A: Invocable3<X1, X2, X3, Output = Y1>,
    B: Invocable1<Y1, Output = R>,
    ensures
        comp::<_, _, (Y1,), (X1, X2, X3)>(fb, fa).accepts3(x1, x2, x3)
            <==> (fa.accepts3(x1, x2, x3) && forall|y1: Y1| fa.yields3(x1, x2, x3, y1) ==> (fb.accepts1(y1))),
        comp::<_, _, (Y1,), (X1, X2, X3)>(fb, fa).yields3(x1, x2, x3, r)
            <==> exists|y1: Y1| fa.yields3(x1, x2, x3, y1) && fb.yields1(y1, r),
{
    let f = comp::<_, _, (Y1,), (X1, X2, X3)>(fb, fa);
    if f.yields3(x1, x2, x3, r) {
        let y1 = choose|y1: Y1| f.inner.yields3(x1, x2, x3, y1) && f.outer.yields1(y1, r);
    }
    if exists|y1: Y1| fa.yields3(x1, x2, x3, y1) && fb.yields1(y1, r) {
        let y1 = choose|y1: Y1| fa.yields3(x1, x2, x3, y1) && fb.yields1(y1, r);
        assert(f.inner.yields3(x1, x2, x3, y1));
        assert(f.outer.yields1(y1, r));
        assert(f.yields3(x1, x2, x3, r));
    }
}

/// Identity Bird Once Removed whose `b` takes three arguments: `i_star(a, b)(x1, x2, x3) = a(b(x1,
/// x2, x3))`, with the same callability and results.
pub proof fn law_i_star_arity_3<A, B, X1, X2, X3, Y1, R>(fa: A, fb: B, x1: X1, x2: X2, x3: X3, r: R) where
    A: Invocable1<Y1, Output = R>,
    B: Invocable3<X1, X2, X3, Output = Y1>,
    ensures
        comp::<_, _, (Y1,), (X1, X2, X3)>(fa, fb).accepts3(x1, x2, x3)
            <==> (fb.accepts3(x1, x2, x3) && forall|y1: Y1| fb.yields3(x1, x2, x3, y1) ==> (fa.accepts1(y1))),
        comp::<_, _, (Y1,), (X1, X2, X3)>(fa, fb).yields3(x1, x2, x3, r)
            <==> exists|y1: Y1| fb.yields3(x1, x2, x3, y1) && fa.yields1(y1, r),
{
    let f = comp::<_, _, (Y1,), (X1, X2, X3)>(fa, fb);
    if f.yields3(x1, x2, x3, r) {
        let y1 = choose|y1: Y1| f.inner.yields3(x1, x2, x3, y1) && f.outer.yields1(y1, r);
    }
    if exists|y1: Y1| fb.yields3(x1, x2, x3, y1) && fa.yields1(y1, r) {
        let y1 = choose|y1: Y1| fb.yields3(x1, x2, x3, y1) && fa.yields1(y1, r);
        assert(f.inner.yields3(x1, x2, x3, y1));
        assert(f.outer.yields1(y1, r));
        assert(f.yields3(x1, x2, x3, r));
    }
}

/// Bluebird whose `c` takes four arguments: `b(a, b, c)(x1, x2, x3, x4) = a(b(c(x1, x2, x3, x4)))`,
/// with the same callability and results.
pub proof fn law_b_arity_4<A, B, C, X1, X2, X3, X4, Y1, Y2, R>(fa: A, fb: B, fc: C, x1: X1, x2: X2, x3: X3, x4: X4, r: R) where
    A: Invocable1<Y2, Output = R>,
    B: Invocable1<Y1, Output = Y2>,
    C: Invocable4<X1, X2, X3, X4, Output = Y1>,
    ensures
        comp::<_, _, (Y2,), (X1, X2, X3, X4)>(fa, comp::<_, _, (Y1,), (X1, X2, X3, X4)>(fb, fc)).accepts4(x1, x2, x3, x4)
            <==> (fc.accepts4(x1, x2, x3, x4) && forall|y1: Y1| fc.yields4(x1, x2, x3, x4, y1) ==> (fb.accepts1(y1) && forall|y2: Y2| fb.yields1(y1, y2) ==> (fa.accepts1(y2)))),
        comp::<_, _, (Y2,), (X1, X2, X3, X4)>(fa, comp::<_, _, (Y1,), (X1, X2, X3, X4)>(fb, fc)).yields4(x1, x2, x3, x4, r)
            <==> exists|y1: Y1, y2: Y2| fc.yields4(x1, x2, x3, x4, y1) && fb.yields1(y1, y2) && fa.yields1(y2, r),
{
    let f = comp::<_, _, (Y2,), (X1, X2, X3, X4)>(fa, comp::<_, _, (Y1,), (X1, X2, X3, X4)>(fb, fc));
    assert forall|y1: Y1, y2: Y2| fc.yields4(x1, x2, x3, x4, y1) && fb.yields1(y1, y2) implies f.inner.yields4(x1, x2, x3, x4, y2) by {
        assert(f.inner.inner.yields4(x1, x2, x3, x4, y1));
        assert(f.inner.outer.yields1(y1, y2));
    }
    if f.yields4(x1, x2, x3, x4, r) {
        let y2 = choose|y2: Y2| f.inner.yields4(x1, x2, x3, x4, y2) && f.outer.yields1(y2, r);
        let y1 = choose|y1: Y1| f.inner.inner.yields4(x1, x2, x3, x4, y1) && f.inner.outer.yields1(y1, y2);
    }
    if exists|y1: Y1, y2: Y2| fc.yields4(x1, x2, x3, x4, y1) && fb.yields1(y1, y2) && fa.yields1(y2, r) {
        let (y1, y2) = choose|y1: Y1, y2: Y2| fc.yields4(x1, x2, x3, x4, y1) && fb.yields1(y1, y2) && fa.yields1(y2, r);
        assert(f.inner.inner.yields4(x1, x2, x3, x4, y1));
        assert(f.inner.outer.yields1(y1, y2));
        assert(f.inner.yields4(x1, x2, x3, x4, y2));
        assert(f.outer.yields1(y2, r));
        assert(f.yields4(x1, x2, x3, x4, r));
    }
}

/// Thrush whose `a` takes four arguments: `t(a, b)(x1, x2, x3, x4) = b(a(x1, x2, x3, x4))`, with
/// the same callability and results.
pub proof fn law_t_arity_4<A, B, X1, X2, X3, X4, Y1, R>(fa: A, fb: B, x1: X1, x2: X2, x3: X3, x4: X4, r: R) where
    A: Invocable4<X1, X2, X3, X4, Output = Y1>,
    B: Invocable1<Y1, Output = R>,
    ensures
        comp::<_, _, (Y1,), (X1, X2, X3, X4)>(fb, fa).accepts4(x1, x2, x3, x4)
            <==> (fa.accepts4(x1, x2, x3, x4) && forall|y1: Y1| fa.yields4(x1, x2, x3, x4, y1) ==> (fb.accepts1(y1))),
        comp::<_, _, (Y1,), (X1, X2, X3, X4)>(fb, fa).yields4(x1, x2, x3, x4, r)
            <==> exists|y1: Y1| fa.yields4(x1, x2, x3, x4, y1) && fb.yields1(y1, r),
{
    let f = comp::<_, _, (Y1,), (X1, X2, X3, X4)>(fb, fa);
    if f.yields4(x1, x2, x3, x4, r) {
        let y1 = choose|y1: Y1| f.inner.yields4(x1, x2, x3, x4, y1) && f.outer.yields1(y1, r);
    }
    if exists|y1: Y1| fa.yields4(x1, x2, x3, x4, y1) && fb.yields1(y1, r) {
        let y1 = choose|y1: Y1| fa.yields4(x1, x2, x3, x4, y1) && fb.yields1(y1, r);
        assert(f.inner.yields4(x1, x2, x3, x4, y1));
        assert(f.outer.yields1(y1, r));
        assert(f.yields4(x1, x2, x3, x4, r));
    }
}

/// Identity Bird Once Removed whose `b` takes four arguments: `i_star(a, b)(x1, x2, x3, x4) =
/// a(b(x1, x2, x3, x4))`, with the same callability and results.
pub proof fn law_i_star_arity_4<A, B, X1, X2, X3, X4, Y1, R>(fa: A, fb: B, x1: X1, x2: X2, x3: X3, x4: X4, r: R) where
    A: Invocable1<Y1, Output = R>,
    B: Invocable4<X1, X2, X3, X4, Output = Y1>,
    ensures
        comp::<_, _, (Y1,), (X1, X2, X3, X4)>(fa, fb).accepts4(x1, x2, x3, x4)
            <==> (fb.accepts4(x1, x2, x3, x4) && forall|y1: Y1| fb.yields4(x1, x2, x3, x4, y1) ==> (fa.accepts1(y1))),
        comp::<_, _, (Y1,), (X1, X2, X3, X4)>(fa, fb).yields4(x1, x2, x3, x4, r)
            <==> exists|y1: Y1| fb.yields4(x1, x2, x3, x4, y1) && fa.yields1(y1, r),
{
    let f = comp::<_, _, (Y1,), (X1, X2, X3, X4)>(fa, fb);
    if f.yields4(x1, x2, x3, x4, r) {
        let y1 = choose|y1: Y1| f.inner.yields4(x1, x2, x3, x4, y1) && f.outer.yields1(y1, r);
    }
    if exists|y1: Y1| fb.yields4(x1, x2, x3, x4, y1) && fa.yields1(y1, r) {
        let y1 = choose|y1: Y1| fb.yields4(x1, x2, x3, x4, y1) && fa.yields1(y1, r);
        assert(f.inner.yields4(x1, x2, x3, x4, y1));
        assert(f.outer.yields1(y1, r));
        assert(f.yields4(x1, x2, x3, x4, r));
    }
}

} // verus!
