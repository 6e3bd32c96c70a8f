use core::marker::PhantomData;
use core::ops::ControlFlow;
use vstd::prelude::*;
use crate::curry::{Curried, Curry};
use crate::invoke::{Invocable0, Invocable1};

verus! {

/// Unbounded self-application of a step function: `x1 = a(x0)`, `x2 = a(x1)`, ...
///
/// The step signals its own end: it returns `ControlFlow::Continue(next)` to go
/// on and `ControlFlow::Break(e)` to escape with `e`. There is no other way out,
/// no timeout and no cancellation: a caller that wants the run bounded puts the
/// stopping condition into the step. `E` is the type of the escape value.
///
/// The run is a loop, not a recursion, so it does not grow the call stack. A
/// call is allowed where the step is known to escape within some number of
/// applications ([`escapes_within`]); a run that never escapes, such as that
/// of [`omega`], never returns and so is never an allowed call.
pub struct Fixed<A, E> {
    pub step: A,
    pub escape: PhantomData<E>,
}

/// The fixed point of the step `a`.
pub open spec fn fixed<A, E>(a: A) -> Fixed<A, E> {
    Fixed { step: a, escape: PhantomData }
}

/// Every run of `a` from `x` escapes after at most `n` applications, and each
/// of those applications is allowed.
pub open spec fn escapes_within<A, X, E>(a: A, x: X, n: nat) -> bool where
    A: Invocable1<X, Output = ControlFlow<E, X>>,
    decreases n,
{
    &&& n > 0
    &&& a.accepts1(x)
    &&& forall|c: ControlFlow<E, X>| #[trigger] a.yields1(x, c) ==> match c {
        ControlFlow::Break(_) => true,
        ControlFlow::Continue(next) => escapes_within(a, next, (n - 1) as nat),
    }
}

/// `s` lists the values that a run of `a` passes through: each one is continued
/// by `a` into the next.
pub open spec fn is_orbit<A, X, E>(a: A, s: Seq<X>) -> bool where
    A: Invocable1<X, Output = ControlFlow<E, X>>,
{
    forall|i: int| 0 <= i < s.len() - 1 ==> a.yields1(#[trigger] s[i], ControlFlow::Continue(s[i + 1]))
}

/// A run of `a` from `x0` that applies `a` exactly `s.len()` times, to the
/// values of `s` in order, and escapes with `e` at the last of them.
pub open spec fn escapes_along<A, X, E>(a: A, x0: X, s: Seq<X>, e: E) -> bool where
    A: Invocable1<X, Output = ControlFlow<E, X>>,
{
    &&& s.len() >= 1
    &&& s[0] == x0
    &&& is_orbit(a, s)
    &&& a.yields1(s.last(), ControlFlow::Break(e))
}

impl<A, X, E> Invocable1<X> for Fixed<A, E> where A: Invocable1<X, Output = ControlFlow<E, X>> {
    type Output = E;

    open spec fn accepts1(&self, x: X) -> bool {
        exists|n: nat| escapes_within(self.step, x, n)
    }

    open spec fn yields1(&self, x: X, e: E) -> bool {
        exists|s: Seq<X>| escapes_along(self.step, x, s, e)
    }

    /// Applies the step again and again, in a loop rather than by recursion,
    /// until it escapes.
    fn invoke1(&self, x0: X) -> (e: E) {
        let ghost mut n: nat = choose|n: nat| escapes_within(self.step, x0, n);
        let ghost mut s: Seq<X> = seq![x0];
        let mut x = x0;
        loop
            invariant
                escapes_within(self.step, x, n),
                s.len() >= 1,
                s[0] == x0,
                s.last() == x,
                is_orbit(self.step, s),
            decreases n,
        {
            let c = self.step.invoke1(x);
            match c {
                ControlFlow::Continue(next) => {
                    proof {
                        n = (n - 1) as nat;
                        s = s.push(next);
                    }
                    x = next;
                },
                ControlFlow::Break(e) => {
                    assert(escapes_along(self.step, x0, s, e));
                    return e;
                },
            }
        }
    }
}

/// Y = Why Bird: `λa.a(λa)`, the fixed point of `a`.
pub fn y<A, E>(fa: A) -> (r: Fixed<A, E>)
    ensures
        r == fixed::<A, E>(fa),
{
    Fixed { step: fa, escape: PhantomData }
}

/// Θ = Theta (Turing's fixed point, `UU` with `U = λab.b(aab)`): `λa.a(Θa)`.
pub fn theta<A, E>(fa: A) -> (r: Fixed<A, E>)
    ensures
        r == fixed::<A, E>(fa),
{
    Fixed { step: fa, escape: PhantomData }
}

/// The step of Ω: it always goes on with the same value.
#[derive(Clone, Copy)]
pub struct Spin;

impl Invocable1<()> for Spin {
    type Output = ControlFlow<(), ()>;

    open spec fn accepts1(&self, x: ()) -> bool {
        true
    }

    open spec fn yields1(&self, x: (), r: ControlFlow<(), ()>) -> bool {
        r == ControlFlow::<(), ()>::Continue(())
    }

    fn invoke1(&self, x: ()) -> (r: ControlFlow<(), ()>) {
        ControlFlow::Continue(())
    }
}

/// Ω = Omega: the loop that never ends. It takes no argument (its run starts
/// from `()`, bound in advance), and no call of it is ever allowed, since no
/// call of it would ever return.
pub fn omega() -> (r: Curried<Fixed<Spin, ()>, ()>)
    ensures
        r.func == fixed::<Spin, ()>(Spin),
        !r.accepts0(),
{
    proof {
        assert forall|n: nat| !escapes_within(Spin, (), n) by {
            lemma_omega_never_escapes(n);
        }
    }
    Fixed { step: Spin, escape: PhantomData }.curry(())
}

/// Ω never escapes: no number of applications of its step ends the run.
pub proof fn lemma_omega_never_escapes(n: nat)
    ensures
        !escapes_within(Spin, (), n),
    decreases n,
{
    if n > 0 {
        lemma_omega_never_escapes((n - 1) as nat);
        assert(Spin.yields1((), ControlFlow::Continue(())));
    }
}

/// The step runs through the values of `s` one by one and escapes at the last:
/// from each of them but the last it can only continue, to the next one, and
/// from the last it can only escape.
pub open spec fn runs_through<A, X, E>(a: A, s: Seq<X>) -> bool where
    A: Invocable1<X, Output = ControlFlow<E, X>>,
{
    &&& s.len() >= 1
    &&& forall|i: int| 0 <= i < s.len() ==> a.accepts1(#[trigger] s[i])
    &&& forall|i: int, c: ControlFlow<E, X>|
        0 <= i < s.len() - 1 && #[trigger] a.yields1(s[i], c) ==> c == ControlFlow::<E, X>::Continue(s[i + 1])
    &&& forall|c: ControlFlow<E, X>| #[trigger] a.yields1(s.last(), c) ==> c is Break
}

proof fn lemma_escapes_from_suffix<A, X, E>(a: A, s: Seq<X>, i: int) where
    A: Invocable1<X, Output = ControlFlow<E, X>>,
    requires
        runs_through(a, s),
        0 <= i < s.len(),
    ensures
        escapes_within(a, s[i], (s.len() - i) as nat),
    decreases s.len() - i,
{
    if i < s.len() - 1 {
        lemma_escapes_from_suffix(a, s, i + 1);
        assert forall|c: ControlFlow<E, X>| #[trigger] a.yields1(s[i], c) implies match c {
            ControlFlow::Break(_) => true,
            ControlFlow::Continue(next) => escapes_within(a, next, (s.len() - i - 1) as nat),
        } by {
            assert(c == ControlFlow::<E, X>::Continue(s[i + 1]));
        }
    } else {
        assert forall|c: ControlFlow<E, X>| #[trigger] a.yields1(s[i], c) implies c is Break by {
            assert(s[i] == s.last());
        }
    }
}

proof fn lemma_same_prefix<A, X, E>(a: A, s: Seq<X>, t: Seq<X>, e: E, i: int) where
    A: Invocable1<X, Output = ControlFlow<E, X>>,
    requires
        runs_through(a, s),
        escapes_along(a, s[0], t, e),
        0 <= i < s.len(),
        i < t.len(),
    ensures
        forall|j: int| 0 <= j <= i ==> t[j] == s[j],
    decreases i,
{
    if i > 0 {
        lemma_same_prefix(a, s, t, e, i - 1);
        assert(a.yields1(t[i - 1], ControlFlow::Continue(t[i])));
        assert(a.yields1(s[i - 1], ControlFlow::Continue(t[i])));
    }
}

/// A step that escapes after exactly `s.len()` applications from `s[0]` (the
/// values it is applied to being those of `s`, in order) makes every fixed
/// point built on it callable at `s[0]`, and every run of it applies the step
/// exactly to the values of `s`, in that order, and then escapes. This holds
/// of [`y`] and [`theta`], whose results have the step `a`.
pub proof fn law_fixed_point_applications<A, X, E>(a: A, s: Seq<X>, t: Seq<X>, e: E) where
    A: Invocable1<X, Output = ControlFlow<E, X>>,
    requires
        runs_through(a, s),
    ensures
        fixed::<A, E>(a).accepts1(s[0]),
        fixed::<A, E>(a).yields1(s[0], e) <==> (exists|t: Seq<X>| escapes_along(a, s[0], t, e)),
        escapes_along(a, s[0], t, e) ==> t == s,
{
    lemma_escapes_from_suffix(a, s, 0);
    let f = fixed::<A, E>(a);
    assert(escapes_within(f.step, s[0], s.len() as nat));
    assert(f.accepts1(s[0]));
    if escapes_along(a, s[0], t, e) {
        let m = if t.len() < s.len() { t.len() } else { s.len() };
        lemma_same_prefix(a, s, t, e, m - 1);
        if t.len() < s.len() {
            assert(a.yields1(s[t.len() - 1], ControlFlow::Break(e)));
        } else if t.len() > s.len() {
            assert(a.yields1(t[s.len() - 1], ControlFlow::Continue(t[s.len() as int])));
            assert(s.last() == t[s.len() - 1]);
        }
        assert(t =~= s);
    }
}

} // verus!
