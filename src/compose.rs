use core::marker::PhantomData;
use vstd::prelude::*;
use crate::invoke::{Invocable0, Invocable1, Invocable2, Invocable3, Invocable4};

verus! {

/// `outer ∘ inner`, called as one function: `inner` runs first, and its
/// result becomes the first argument of `outer`.
///
/// When `outer` takes more than one argument, the composition takes the rest
/// of `outer`'s arguments first and then all of `inner`'s:
/// `(outer ∘ inner)(t.., x..) = outer(inner(x..), t..)`.
///
/// `XO` and `XI` are the argument tuples of `outer` and `inner`. They fix the
/// shape at which the composition is called, and only shapes whose types line
/// up have a [`Compose`] implementation, so a composition that does not fit is
/// rejected when it is built, never when it is called.
pub struct Composition<O, I, XO, XI> {
    pub outer: O,
    pub inner: I,
    pub shape: PhantomData<(XO, XI)>,
}

impl<O: Clone, I: Clone, XO, XI> Clone for Composition<O, I, XO, XI> {
    fn clone(&self) -> Self {
        Composition { outer: self.outer.clone(), inner: self.inner.clone(), shape: PhantomData }
    }
}

impl<O: Copy, I: Copy, XO, XI> Copy for Composition<O, I, XO, XI> {
}

/// The composition of `outer` and `inner` at the shapes `XO`, `XI`.
pub open spec fn comp<O, I, XO, XI>(outer: O, inner: I) -> Composition<O, I, XO, XI> {
    Composition { outer, inner, shape: PhantomData }
}

impl<O, I, XO, XI> Composition<O, I, XO, XI> {
    pub fn new(outer: O, inner: I) -> (r: Self)
        ensures
            r == comp::<O, I, XO, XI>(outer, inner),
    {
        Composition { outer, inner, shape: PhantomData }
    }
}

/// Composition of `self` (the outer function) with `inner`, at the argument
/// shapes `XO` of `self` and `XI` of `inner`. It holds exactly where the
/// result of `inner` is what `self` takes first.
pub trait Compose<I, XO, XI>: Sized {
    fn compose(self, inner: I) -> (r: Composition<Self, I, XO, XI>)
        ensures
            r == comp::<Self, I, XO, XI>(self, inner),
    ;
}

// One `Compose` and one invocation implementation for each pair of arities:
// `outer` takes 1 to 4 arguments, `inner` 0 to 4, and the composition at most
// 4. The composition accepts its arguments when `inner` accepts its own and
// `outer` accepts every result that `inner` may give, and its results are
// those of `outer` on some result of `inner`.

impl<O, I, A> Compose<I, (A,), ()> for O where
    O: Invocable1<A>,
    I: Invocable0<Output = A>,
{
    fn compose(self, inner: I) -> (r: Composition<O, I, (A,), ()>) {
        Composition::new(self, inner)
    }
}

impl<O, I, A> Invocable0 for Composition<O, I, (A,), ()> where
    O: Invocable1<A>,
    I: Invocable0<Output = A>,
{
    type Output = O::Output;

    open spec fn accepts0(&self) -> bool {
        &&& self.inner.accepts0()
        &&& forall|a: A| #[trigger] self.inner.yields0(a) ==> self.outer.accepts1(a)
    }

    open spec fn yields0(&self, r: O::Output) -> bool {
        exists|a: A| #[trigger] self.inner.yields0(a) && self.outer.yields1(a, r)
    }

    fn invoke0(&self) -> (r: O::Output) {
        let a = self.inner.invoke0();
        self.outer.invoke1(a)
    }
}

impl<O, I, A, X1> Compose<I, (A,), (X1,)> for O where
    O: Invocable1<A>,
    I: Invocable1<X1, Output = A>,
{
    fn compose(self, inner: I) -> (r: Composition<O, I, (A,), (X1,)>) {
        Composition::new(self, inner)
    }
}

impl<O, I, A, X1> Invocable1<X1> for Composition<O, I, (A,), (X1,)> where
    O: Invocable1<A>,
    I: Invocable1<X1, Output = A>,
{
    type Output = O::Output;

    open spec fn accepts1(&self, x1: X1) -> bool {
        &&& self.inner.accepts1(x1)
        &&& forall|a: A| #[trigger] self.inner.yields1(x1, a) ==> self.outer.accepts1(a)
    }

    open spec fn yields1(&self, x1: X1, r: O::Output) -> bool {
        exists|a: A| #[trigger] self.inner.yields1(x1, a) && self.outer.yields1(a, r)
    }

    fn invoke1(&self, x1: X1) -> (r: O::Output) {
        let a = self.inner.invoke1(x1);
        self.outer.invoke1(a)
    }
}

impl<O, I, A, X1, X2> Compose<I, (A,), (X1, X2)> for O where
    O: Invocable1<A>,
    I: Invocable2<X1, X2, Output = A>,
{
    fn compose(self, inner: I) -> (r: Composition<O, I, (A,), (X1, X2)>) {
        Composition::new(self, inner)
    }
}

impl<O, I, A, X1, X2> Invocable2<X1, X2> for Composition<O, I, (A,), (X1, X2)> where
    O: Invocable1<A>,
    I: Invocable2<X1, X2, Output = A>,
{
    type Output = O::Output;

    open spec fn accepts2(&self, x1: X1, x2: X2) -> bool {
        &&& self.inner.accepts2(x1, x2)
        &&& forall|a: A| #[trigger] self.inner.yields2(x1, x2, a) ==> self.outer.accepts1(a)
    }

    open spec fn yields2(&self, x1: X1, x2: X2, r: O::Output) -> bool {
        exists|a: A| #[trigger] self.inner.yields2(x1, x2, a) && self.outer.yields1(a, r)
    }

    fn invoke2(&self, x1: X1, x2: X2) -> (r: O::Output) {
        let a = self.inner.invoke2(x1, x2);
        self.outer.invoke1(a)
    }
}

impl<O, I, A, X1, X2, X3> Compose<I, (A,), (X1, X2, X3)> for O where
    O: Invocable1<A>,
    I: Invocable3<X1, X2, X3, Output = A>,
{
    fn compose(self, inner: I) -> (r: Composition<O, I, (A,), (X1, X2, X3)>) {
        Composition::new(self, inner)
    }
}

impl<O, I, A, X1, X2, X3> Invocable3<X1, X2, X3> for Composition<O, I, (A,), (X1, X2, X3)> where
    O: Invocable1<A>,
    I: Invocable3<X1, X2, X3, Output = A>,
{
    type Output = O::Output;

    open spec fn accepts3(&self, x1: X1, x2: X2, x3: X3) -> bool {
        &&& self.inner.accepts3(x1, x2, x3)
        &&& forall|a: A| #[trigger] self.inner.yields3(x1, x2, x3, a) ==> self.outer.accepts1(a)
    }

    open spec fn yields3(&self, x1: X1, x2: X2, x3: X3, r: O::Output) -> bool {
        exists|a: A| #[trigger] self.inner.yields3(x1, x2, x3, a) && self.outer.yields1(a, r)
    }

    fn invoke3(&self, x1: X1, x2: X2, x3: X3) -> (r: O::Output) {
        let a = self.inner.invoke3(x1, x2, x3);
        self.outer.invoke1(a)
    }
}

impl<O, I, A, X1, X2, X3, X4> Compose<I, (A,), (X1, X2, X3, X4)> for O where
    O: Invocable1<A>,
    I: Invocable4<X1, X2, X3, X4, Output = A>,
{
    fn compose(self, inner: I) -> (r: Composition<O, I, (A,), (X1, X2, X3, X4)>) {
        Composition::new(self, inner)
    }
}

impl<O, I, A, X1, X2, X3, X4> Invocable4<X1, X2, X3, X4> for Composition<O, I, (A,), (X1, X2, X3, X4)> where
    O: Invocable1<A>,
    I: Invocable4<X1, X2, X3, X4, Output = A>,
{
    type Output = O::Output;

    open spec fn accepts4(&self, x1: X1, x2: X2, x3: X3, x4: X4) -> bool {
        &&& self.inner.accepts4(x1, x2, x3, x4)
        &&& forall|a: A| #[trigger] self.inner.yields4(x1, x2, x3, x4, a) ==> self.outer.accepts1(a)
    }

    open spec fn yields4(&self, x1: X1, x2: X2, x3: X3, x4: X4, r: O::Output) -> bool {
        exists|a: A| #[trigger] self.inner.yields4(x1, x2, x3, x4, a) && self.outer.yields1(a, r)
    }

    fn invoke4(&self, x1: X1, x2: X2, x3: X3, x4: X4) -> (r: O::Output) {
        let a = self.inner.invoke4(x1, x2, x3, x4);
        self.outer.invoke1(a)
    }
}

impl<O, I, A, T1> Compose<I, (A, T1), ()> for O where
    O: Invocable2<A, T1>,
    I: Invocable0<Output = A>,
{
    fn compose(self, inner: I) -> (r: Composition<O, I, (A, T1), ()>) {
        Composition::new(self, inner)
    }
}

impl<O, I, A, T1> Invocable1<T1> for Composition<O, I, (A, T1), ()> where
    O: Invocable2<A, T1>,
    I: Invocable0<Output = A>,
{
    type Output = O::Output;

    open spec fn accepts1(&self, t1: T1) -> bool {
        &&& self.inner.accepts0()
        &&& forall|a: A| #[trigger] self.inner.yields0(a) ==> self.outer.accepts2(a, t1)
    }

    open spec fn yields1(&self, t1: T1, r: O::Output) -> bool {
        exists|a: A| #[trigger] self.inner.yields0(a) && self.outer.yields2(a, t1, r)
    }

    fn invoke1(&self, t1: T1) -> (r: O::Output) {
        let a = self.inner.invoke0();
        self.outer.invoke2(a, t1)
    }
}

impl<O, I, A, T1, X1> Compose<I, (A, T1), (X1,)> for O where
    O: Invocable2<A, T1>,
    I: Invocable1<X1, Output = A>,
{
    fn compose(self, inner: I) -> (r: Composition<O, I, (A, T1), (X1,)>) {
        Composition::new(self, inner)
    }
}

impl<O, I, A, T1, X1> Invocable2<T1, X1> for Composition<O, I, (A, T1), (X1,)> where
    O: Invocable2<A, T1>,
    I: Invocable1<X1, Output = A>,
{
    type Output = O::Output;

    open spec fn accepts2(&self, t1: T1, x1: X1) -> bool {
        &&& self.inner.accepts1(x1)
        &&& forall|a: A| #[trigger] self.inner.yields1(x1, a) ==> self.outer.accepts2(a, t1)
    }

    open spec fn yields2(&self, t1: T1, x1: X1, r: O::Output) -> bool {
        exists|a: A| #[trigger] self.inner.yields1(x1, a) && self.outer.yields2(a, t1, r)
    }

    fn invoke2(&self, t1: T1, x1: X1) -> (r: O::Output) {
        let a = self.inner.invoke1(x1);
        self.outer.invoke2(a, t1)
    }
}

impl<O, I, A, T1, X1, X2> Compose<I, (A, T1), (X1, X2)> for O where
    O: Invocable2<A, T1>,
    I: Invocable2<X1, X2, Output = A>,
{
    fn compose(self, inner: I) -> (r: Composition<O, I, (A, T1), (X1, X2)>) {
        Composition::new(self, inner)
    }
}

impl<O, I, A, T1, X1, X2> Invocable3<T1, X1, X2> for Composition<O, I, (A, T1), (X1, X2)> where
    O: Invocable2<A, T1>,
    I: Invocable2<X1, X2, Output = A>,
{
    type Output = O::Output;

    open spec fn accepts3(&self, t1: T1, x1: X1, x2: X2) -> bool {
        &&& self.inner.accepts2(x1, x2)
        &&& forall|a: A| #[trigger] self.inner.yields2(x1, x2, a) ==> self.outer.accepts2(a, t1)
    }

    open spec fn yields3(&self, t1: T1, x1: X1, x2: X2, r: O::Output) -> bool {
        exists|a: A| #[trigger] self.inner.yields2(x1, x2, a) && self.outer.yields2(a, t1, r)
    }

    fn invoke3(&self, t1: T1, x1: X1, x2: X2) -> (r: O::Output) {
        let a = self.inner.invoke2(x1, x2);
        self.outer.invoke2(a, t1)
    }
}

impl<O, I, A, T1, X1, X2, X3> Compose<I, (A, T1), (X1, X2, X3)> for O where
    O: Invocable2<A, T1>,
    I: Invocable3<X1, X2, X3, Output = A>,
{
    fn compose(self, inner: I) -> (r: Composition<O, I, (A, T1), (X1, X2, X3)>) {
        Composition::new(self, inner)
    }
}

impl<O, I, A, T1, X1, X2, X3> Invocable4<T1, X1, X2, X3> for Composition<O, I, (A, T1), (X1, X2, X3)> where
    O: Invocable2<A, T1>,
    I: Invocable3<X1, X2, X3, Output = A>,
{
    type Output = O::Output;

    open spec fn accepts4(&self, t1: T1, x1: X1, x2: X2, x3: X3) -> bool {
        &&& self.inner.accepts3(x1, x2, x3)
        &&& forall|a: A| #[trigger] self.inner.yields3(x1, x2, x3, a) ==> self.outer.accepts2(a, t1)
    }

    open spec fn yields4(&self, t1: T1, x1: X1, x2: X2, x3: X3, r: O::Output) -> bool {
        exists|a: A| #[trigger] self.inner.yields3(x1, x2, x3, a) && self.outer.yields2(a, t1, r)
    }

    fn invoke4(&self, t1: T1, x1: X1, x2: X2, x3: X3) -> (r: O::Output) {
        let a = self.inner.invoke3(x1, x2, x3);
        self.outer.invoke2(a, t1)
    }
}

impl<O, I, A, T1, T2> Compose<I, (A, T1, T2), ()> for O where
    O: Invocable3<A, T1, T2>,
    I: Invocable0<Output = A>,
{
    fn compose(self, inner: I) -> (r: Composition<O, I, (A, T1, T2), ()>) {
        Composition::new(self, inner)
    }
}

impl<O, I, A, T1, T2> Invocable2<T1, T2> for Composition<O, I, (A, T1, T2), ()> where
    O: Invocable3<A, T1, T2>,
    I: Invocable0<Output = A>,
{
    type Output = O::Output;

    open spec fn accepts2(&self, t1: T1, t2: T2) -> bool {
        &&& self.inner.accepts0()
        &&& forall|a: A| #[trigger] self.inner.yields0(a) ==> self.outer.accepts3(a, t1, t2)
    }

    open spec fn yields2(&self, t1: T1, t2: T2, r: O::Output) -> bool {
        exists|a: A| #[trigger] self.inner.yields0(a) && self.outer.yields3(a, t1, t2, r)
    }

    fn invoke2(&self, t1: T1, t2: T2) -> (r: O::Output) {
        let a = self.inner.invoke0();
        self.outer.invoke3(a, t1, t2)
    }
}

impl<O, I, A, T1, T2, X1> Compose<I, (A, T1, T2), (X1,)> for O where
    O: Invocable3<A, T1, T2>,
    I: Invocable1<X1, Output = A>,
{
    fn compose(self, inner: I) -> (r: Composition<O, I, (A, T1, T2), (X1,)>) {
        Composition::new(self, inner)
    }
}

impl<O, I, A, T1, T2, X1> Invocable3<T1, T2, X1> for Composition<O, I, (A, T1, T2), (X1,)> where
    O: Invocable3<A, T1, T2>,
    I: Invocable1<X1, Output = A>,
{
    type Output = O::Output;

    open spec fn accepts3(&self, t1: T1, t2: T2, x1: X1) -> bool {
        &&& self.inner.accepts1(x1)
        &&& forall|a: A| #[trigger] self.inner.yields1(x1, a) ==> self.outer.accepts3(a, t1, t2)
    }

    open spec fn yields3(&self, t1: T1, t2: T2, x1: X1, r: O::Output) -> bool {
        exists|a: A| #[trigger] self.inner.yields1(x1, a) && self.outer.yields3(a, t1, t2, r)
    }

    fn invoke3(&self, t1: T1, t2: T2, x1: X1) -> (r: O::Output) {
        let a = self.inner.invoke1(x1);
        self.outer.invoke3(a, t1, t2)
    }
}

impl<O, I, A, T1, T2, X1, X2> Compose<I, (A, T1, T2), (X1, X2)> for O where
    O: Invocable3<A, T1, T2>,
    I: Invocable2<X1, X2, Output = A>,
{
    fn compose(self, inner: I) -> (r: Composition<O, I, (A, T1, T2), (X1, X2)>) {
        Composition::new(self, inner)
    }
}

impl<O, I, A, T1, T2, X1, X2> Invocable4<T1, T2, X1, X2> for Composition<O, I, (A, T1, T2), (X1, X2)> where
    O: Invocable3<A, T1, T2>,
    I: Invocable2<X1, X2, Output = A>,
{
    type Output = O::Output;

    open spec fn accepts4(&self, t1: T1, t2: T2, x1: X1, x2: X2) -> bool {
        &&& self.inner.accepts2(x1, x2)
        &&& forall|a: A| #[trigger] self.inner.yields2(x1, x2, a) ==> self.outer.accepts3(a, t1, t2)
    }

    open spec fn yields4(&self, t1: T1, t2: T2, x1: X1, x2: X2, r: O::Output) -> bool {
        exists|a: A| #[trigger] self.inner.yields2(x1, x2, a) && self.outer.yields3(a, t1, t2, r)
    }

    fn invoke4(&self, t1: T1, t2: T2, x1: X1, x2: X2) -> (r: O::Output) {
        let a = self.inner.invoke2(x1, x2);
        self.outer.invoke3(a, t1, t2)
    }
}

impl<O, I, A, T1, T2, T3> Compose<I, (A, T1, T2, T3), ()> for O where
    O: Invocable4<A, T1, T2, T3>,
    I: Invocable0<Output = A>,
{
    fn compose(self, inner: I) -> (r: Composition<O, I, (A, T1, T2, T3), ()>) {
        Composition::new(self, inner)
    }
}

impl<O, I, A, T1, T2, T3> Invocable3<T1, T2, T3> for Composition<O, I, (A, T1, T2, T3), ()> where
    O: Invocable4<A, T1, T2, T3>,
    I: Invocable0<Output = A>,
{
    type Output = O::Output;

    open spec fn accepts3(&self, t1: T1, t2: T2, t3: T3) -> bool {
        &&& self.inner.accepts0()
        &&& forall|a: A| #[trigger] self.inner.yields0(a) ==> self.outer.accepts4(a, t1, t2, t3)
    }

    open spec fn yields3(&self, t1: T1, t2: T2, t3: T3, r: O::Output) -> bool {
        exists|a: A| #[trigger] self.inner.yields0(a) && self.outer.yields4(a, t1, t2, t3, r)
    }

    fn invoke3(&self, t1: T1, t2: T2, t3: T3) -> (r: O::Output) {
        let a = self.inner.invoke0();
        self.outer.invoke4(a, t1, t2, t3)
    }
}

impl<O, I, A, T1, T2, T3, X1> Compose<I, (A, T1, T2, T3), (X1,)> for O where
    O: Invocable4<A, T1, T2, T3>,
    I: Invocable1<X1, Output = A>,
{
    fn compose(self, inner: I) -> (r: Composition<O, I, (A, T1, T2, T3), (X1,)>) {
        Composition::new(self, inner)
    }
}

impl<O, I, A, T1, T2, T3, X1> Invocable4<T1, T2, T3, X1> for Composition<O, I, (A, T1, T2, T3), (X1,)> where
    O: Invocable4<A, T1, T2, T3>,
    I: Invocable1<X1, Output = A>,
{
    type Output = O::Output;

    open spec fn accepts4(&self, t1: T1, t2: T2, t3: T3, x1: X1) -> bool {
        &&& self.inner.accepts1(x1)
        &&& forall|a: A| #[trigger] self.inner.yields1(x1, a) ==> self.outer.accepts4(a, t1, t2, t3)
    }

    open spec fn yields4(&self, t1: T1, t2: T2, t3: T3, x1: X1, r: O::Output) -> bool {
        exists|a: A| #[trigger] self.inner.yields1(x1, a) && self.outer.yields4(a, t1, t2, t3, r)
    }

    fn invoke4(&self, t1: T1, t2: T2, t3: T3, x1: X1) -> (r: O::Output) {
        let a = self.inner.invoke1(x1);
        self.outer.invoke4(a, t1, t2, t3)
    }
}


/// Marks a composition that feeds the result of `inner` into the *last*
/// argument of `outer`; `XO` is `outer`'s argument tuple:
/// `(outer ∘ inner)(t.., x..) = outer(t.., inner(x..))`.
pub struct Last<XO>(PhantomData<XO>);

/// Composition of `self` (the outer function) with `inner`, where the result
/// of `inner` is what `self` takes last. The shape tag is `Last<XO>`.
pub trait ComposeLast<I, XO, XI>: Sized {
    fn compose_last(self, inner: I) -> (r: Composition<Self, I, Last<XO>, XI>)
        ensures
            r == comp::<Self, I, Last<XO>, XI>(self, inner),
    ;
}

// The same pairs of arities as above, for an `outer` of at least two
// arguments (with one argument its first and last argument are the same).

impl<O, I, A, T1> ComposeLast<I, (T1, A), ()> for O where
    O: Invocable2<T1, A>,
    I: Invocable0<Output = A>,
{
    fn compose_last(self, inner: I) -> (r: Composition<O, I, Last<(T1, A)>, ()>) {
        Composition::new(self, inner)
    }
}

impl<O, I, A, T1> Invocable1<T1> for Composition<O, I, Last<(T1, A)>, ()> where
    O: Invocable2<T1, A>,
    I: Invocable0<Output = A>,
{
    type Output = O::Output;

    open spec fn accepts1(&self, t1: T1) -> bool {
        &&& self.inner.accepts0()
        &&& forall|a: A| #[trigger] self.inner.yields0(a) ==> self.outer.accepts2(t1, a)
    }

    open spec fn yields1(&self, t1: T1, r: O::Output) -> bool {
        exists|a: A| #[trigger] self.inner.yields0(a) && self.outer.yields2(t1, a, r)
    }

    fn invoke1(&self, t1: T1) -> (r: O::Output) {
        let a = self.inner.invoke0();
        self.outer.invoke2(t1, a)
    }
}

impl<O, I, A, T1, X1> ComposeLast<I, (T1, A), (X1,)> for O where
    O: Invocable2<T1, A>,
    I: Invocable1<X1, Output = A>,
{
    fn compose_last(self, inner: I) -> (r: Composition<O, I, Last<(T1, A)>, (X1,)>) {
        Composition::new(self, inner)
    }
}

impl<O, I, A, T1, X1> Invocable2<T1, X1> for Composition<O, I, Last<(T1, A)>, (X1,)> where
    O: Invocable2<T1, A>,
    I: Invocable1<X1, Output = A>,
{
    type Output = O::Output;

    open spec fn accepts2(&self, t1: T1, x1: X1) -> bool {
        &&& self.inner.accepts1(x1)
        &&& forall|a: A| #[trigger] self.inner.yields1(x1, a) ==> self.outer.accepts2(t1, a)
    }

    open spec fn yields2(&self, t1: T1, x1: X1, r: O::Output) -> bool {
        exists|a: A| #[trigger] self.inner.yields1(x1, a) && self.outer.yields2(t1, a, r)
    }

    fn invoke2(&self, t1: T1, x1: X1) -> (r: O::Output) {
        let a = self.inner.invoke1(x1);
        self.outer.invoke2(t1, a)
    }
}

impl<O, I, A, T1, X1, X2> ComposeLast<I, (T1, A), (X1, X2)> for O where
    O: Invocable2<T1, A>,
    I: Invocable2<X1, X2, Output = A>,
{
    fn compose_last(self, inner: I) -> (r: Composition<O, I, Last<(T1, A)>, (X1, X2)>) {
        Composition::new(self, inner)
    }
}

impl<O, I, A, T1, X1, X2> Invocable3<T1, X1, X2> for Composition<O, I, Last<(T1, A)>, (X1, X2)> where
    O: Invocable2<T1, A>,
    I: Invocable2<X1, X2, Output = A>,
{
    type Output = O::Output;

    open spec fn accepts3(&self, t1: T1, x1: X1, x2: X2) -> bool {
        &&& self.inner.accepts2(x1, x2)
        &&& forall|a: A| #[trigger] self.inner.yields2(x1, x2, a) ==> self.outer.accepts2(t1, a)
    }

    open spec fn yields3(&self, t1: T1, x1: X1, x2: X2, r: O::Output) -> bool {
        exists|a: A| #[trigger] self.inner.yields2(x1, x2, a) && self.outer.yields2(t1, a, r)
    }

    fn invoke3(&self, t1: T1, x1: X1, x2: X2) -> (r: O::Output) {
        let a = self.inner.invoke2(x1, x2);
        self.outer.invoke2(t1, a)
    }
}

impl<O, I, A, T1, X1, X2, X3> ComposeLast<I, (T1, A), (X1, X2, X3)> for O where
    O: Invocable2<T1, A>,
    I: Invocable3<X1, X2, X3, Output = A>,
{
    fn compose_last(self, inner: I) -> (r: Composition<O, I, Last<(T1, A)>, (X1, X2, X3)>) {
        Composition::new(self, inner)
    }
}

impl<O, I, A, T1, X1, X2, X3> Invocable4<T1, X1, X2, X3> for Composition<O, I, Last<(T1, A)>, (X1, X2, X3)> where
    O: Invocable2<T1, A>,
    I: Invocable3<X1, X2, X3, Output = A>,
{
    type Output = O::Output;

    open spec fn accepts4(&self, t1: T1, x1: X1, x2: X2, x3: X3) -> bool {
        &&& self.inner.accepts3(x1, x2, x3)
        &&& forall|a: A| #[trigger] self.inner.yields3(x1, x2, x3, a) ==> self.outer.accepts2(t1, a)
    }

    open spec fn yields4(&self, t1: T1, x1: X1, x2: X2, x3: X3, r: O::Output) -> bool {
        exists|a: A| #[trigger] self.inner.yields3(x1, x2, x3, a) && self.outer.yields2(t1, a, r)
    }

    fn invoke4(&self, t1: T1, x1: X1, x2: X2, x3: X3) -> (r: O::Output) {
        let a = self.inner.invoke3(x1, x2, x3);
        self.outer.invoke2(t1, a)
    }
}

impl<O, I, A, T1, T2> ComposeLast<I, (T1, T2, A), ()> for O where
    O: Invocable3<T1, T2, A>,
    I: Invocable0<Output = A>,
{
    fn compose_last(self, inner: I) -> (r: Composition<O, I, Last<(T1, T2, A)>, ()>) {
        Composition::new(self, inner)
    }
}

impl<O, I, A, T1, T2> Invocable2<T1, T2> for Composition<O, I, Last<(T1, T2, A)>, ()> where
    O: Invocable3<T1, T2, A>,
    I: Invocable0<Output = A>,
{
    type Output = O::Output;

    open spec fn accepts2(&self, t1: T1, t2: T2) -> bool {
        &&& self.inner.accepts0()
        &&& forall|a: A| #[trigger] self.inner.yields0(a) ==> self.outer.accepts3(t1, t2, a)
    }

    open spec fn yields2(&self, t1: T1, t2: T2, r: O::Output) -> bool {
        exists|a: A| #[trigger] self.inner.yields0(a) && self.outer.yields3(t1, t2, a, r)
    }

    fn invoke2(&self, t1: T1, t2: T2) -> (r: O::Output) {
        let a = self.inner.invoke0();
        self.outer.invoke3(t1, t2, a)
    }
}

impl<O, I, A, T1, T2, X1> ComposeLast<I, (T1, T2, A), (X1,)> for O where
    O: Invocable3<T1, T2, A>,
    I: Invocable1<X1, Output = A>,
{
    fn compose_last(self, inner: I) -> (r: Composition<O, I, Last<(T1, T2, A)>, (X1,)>) {
        Composition::new(self, inner)
    }
}

impl<O, I, A, T1, T2, X1> Invocable3<T1, T2, X1> for Composition<O, I, Last<(T1, T2, A)>, (X1,)> where
    O: Invocable3<T1, T2, A>,
    I: Invocable1<X1, Output = A>,
{
    type Output = O::Output;

    open spec fn accepts3(&self, t1: T1, t2: T2, x1: X1) -> bool {
        &&& self.inner.accepts1(x1)
        &&& forall|a: A| #[trigger] self.inner.yields1(x1, a) ==> self.outer.accepts3(t1, t2, a)
    }

    open spec fn yields3(&self, t1: T1, t2: T2, x1: X1, r: O::Output) -> bool {
        exists|a: A| #[trigger] self.inner.yields1(x1, a) && self.outer.yields3(t1, t2, a, r)
    }

    fn invoke3(&self, t1: T1, t2: T2, x1: X1) -> (r: O::Output) {
        let a = self.inner.invoke1(x1);
        self.outer.invoke3(t1, t2, a)
    }
}

impl<O, I, A, T1, T2, X1, X2> ComposeLast<I, (T1, T2, A), (X1, X2)> for O where
    O: Invocable3<T1, T2, A>,
    I: Invocable2<X1, X2, Output = A>,
{
    fn compose_last(self, inner: I) -> (r: Composition<O, I, Last<(T1, T2, A)>, (X1, X2)>) {
        Composition::new(self, inner)
    }
}

impl<O, I, A, T1, T2, X1, X2> Invocable4<T1, T2, X1, X2> for Composition<O, I, Last<(T1, T2, A)>, (X1, X2)> where
    O: Invocable3<T1, T2, A>,
    I: Invocable2<X1, X2, Output = A>,
{
    type Output = O::Output;

    open spec fn accepts4(&self, t1: T1, t2: T2, x1: X1, x2: X2) -> bool {
        &&& self.inner.accepts2(x1, x2)
        &&& forall|a: A| #[trigger] self.inner.yields2(x1, x2, a) ==> self.outer.accepts3(t1, t2, a)
    }

    open spec fn yields4(&self, t1: T1, t2: T2, x1: X1, x2: X2, r: O::Output) -> bool {
        exists|a: A| #[trigger] self.inner.yields2(x1, x2, a) && self.outer.yields3(t1, t2, a, r)
    }

    fn invoke4(&self, t1: T1, t2: T2, x1: X1, x2: X2) -> (r: O::Output) {
        let a = self.inner.invoke2(x1, x2);
        self.outer.invoke3(t1, t2, a)
    }
}

impl<O, I, A, T1, T2, T3> ComposeLast<I, (T1, T2, T3, A), ()> for O where
    O: Invocable4<T1, T2, T3, A>,
    I: Invocable0<Output = A>,
{
    fn compose_last(self, inner: I) -> (r: Composition<O, I, Last<(T1, T2, T3, A)>, ()>) {
        Composition::new(self, inner)
    }
}

impl<O, I, A, T1, T2, T3> Invocable3<T1, T2, T3> for Composition<O, I, Last<(T1, T2, T3, A)>, ()> where
    O: Invocable4<T1, T2, T3, A>,
    I: Invocable0<Output = A>,
{
    type Output = O::Output;

    open spec fn accepts3(&self, t1: T1, t2: T2, t3: T3) -> bool {
        &&& self.inner.accepts0()
        &&& forall|a: A| #[trigger] self.inner.yields0(a) ==> self.outer.accepts4(t1, t2, t3, a)
    }

    open spec fn yields3(&self, t1: T1, t2: T2, t3: T3, r: O::Output) -> bool {
        exists|a: A| #[trigger] self.inner.yields0(a) && self.outer.yields4(t1, t2, t3, a, r)
    }

    fn invoke3(&self, t1: T1, t2: T2, t3: T3) -> (r: O::Output) {
        let a = self.inner.invoke0();
        self.outer.invoke4(t1, t2, t3, a)
    }
}

impl<O, I, A, T1, T2, T3, X1> ComposeLast<I, (T1, T2, T3, A), (X1,)> for O where
    O: Invocable4<T1, T2, T3, A>,
    I: Invocable1<X1, Output = A>,
{
    fn compose_last(self, inner: I) -> (r: Composition<O, I, Last<(T1, T2, T3, A)>, (X1,)>) {
        Composition::new(self, inner)
    }
}

impl<O, I, A, T1, T2, T3, X1> Invocable4<T1, T2, T3, X1> for Composition<O, I, Last<(T1, T2, T3, A)>, (X1,)> where
    O: Invocable4<T1, T2, T3, A>,
    I: Invocable1<X1, Output = A>,
{
    type Output = O::Output;

    open spec fn accepts4(&self, t1: T1, t2: T2, t3: T3, x1: X1) -> bool {
        &&& self.inner.accepts1(x1)
        &&& forall|a: A| #[trigger] self.inner.yields1(x1, a) ==> self.outer.accepts4(t1, t2, t3, a)
    }

    open spec fn yields4(&self, t1: T1, t2: T2, t3: T3, x1: X1, r: O::Output) -> bool {
        exists|a: A| #[trigger] self.inner.yields1(x1, a) && self.outer.yields4(t1, t2, t3, a, r)
    }

    fn invoke4(&self, t1: T1, t2: T2, t3: T3, x1: X1) -> (r: O::Output) {
        let a = self.inner.invoke1(x1);
        self.outer.invoke4(t1, t2, t3, a)
    }
}
} // verus!
