use vstd::prelude::*;

verus! {

/// A value that can be called with no argument (see [`Invocable1`]).
pub trait Invocable0 {
    type Output;

    spec fn accepts0(&self) -> bool;

    spec fn yields0(&self, r: Self::Output) -> bool;

    fn invoke0(&self) -> (r: Self::Output)
        requires
            self.accepts0(),
        ensures
            self.yields0(r),
    ;
}

/// A value that can be called with one argument.
///
/// `accepts1` is the precondition of a call, and `yields1` relates the
/// arguments to every result that a call may return. One value may have
/// several of these traits at once, one for each argument shape it takes.
pub trait Invocable1<X1> {
    type Output;

    spec fn accepts1(&self, x1: X1) -> bool;

    spec fn yields1(&self, x1: X1, r: Self::Output) -> bool;

    fn invoke1(&self, x1: X1) -> (r: Self::Output)
        requires
            self.accepts1(x1),
        ensures
            self.yields1(x1, r),
    ;
}

/// A value that can be called with two arguments (see [`Invocable1`]).
pub trait Invocable2<X1, X2> {
    type Output;

    spec fn accepts2(&self, x1: X1, x2: X2) -> bool;

    spec fn yields2(&self, x1: X1, x2: X2, r: Self::Output) -> bool;

    fn invoke2(&self, x1: X1, x2: X2) -> (r: Self::Output)
        requires
            self.accepts2(x1, x2),
        ensures
            self.yields2(x1, x2, r),
    ;
}

/// A value that can be called with three arguments (see [`Invocable1`]).
pub trait Invocable3<X1, X2, X3> {
    type Output;

    spec fn accepts3(&self, x1: X1, x2: X2, x3: X3) -> bool;

    spec fn yields3(&self, x1: X1, x2: X2, x3: X3, r: Self::Output) -> bool;

    fn invoke3(&self, x1: X1, x2: X2, x3: X3) -> (r: Self::Output)
        requires
            self.accepts3(x1, x2, x3),
        ensures
            self.yields3(x1, x2, x3, r),
    ;
}

/// A value that can be called with four arguments (see [`Invocable1`]).
pub trait Invocable4<X1, X2, X3, X4> {
    type Output;

    spec fn accepts4(&self, x1: X1, x2: X2, x3: X3, x4: X4) -> bool;

    spec fn yields4(&self, x1: X1, x2: X2, x3: X3, x4: X4, r: Self::Output) -> bool;

    fn invoke4(&self, x1: X1, x2: X2, x3: X3, x4: X4) -> (r: Self::Output)
        requires
            self.accepts4(x1, x2, x3, x4),
        ensures
            self.yields4(x1, x2, x3, x4, r),
    ;
}

/// A plain function or closure, usable at the argument shape of its signature.
/// Its contract is the one Verus knows for the function itself.
#[derive(Clone, Copy)]
pub struct Func<F>(pub F);

impl<F, Y> Invocable0 for Func<F> where F: Fn() -> Y {
    type Output = Y;

    open spec fn accepts0(&self) -> bool {
        self.0.requires(())
    }

    open spec fn yields0(&self, r: Y) -> bool {
        self.0.ensures((), r)
    }

    fn invoke0(&self) -> (r: Y) {
        (self.0)()
    }
}

impl<F, X1, Y> Invocable1<X1> for Func<F> where F: Fn(X1) -> Y {
    type Output = Y;

    open spec fn accepts1(&self, x1: X1) -> bool {
        self.0.requires((x1,))
    }

    open spec fn yields1(&self, x1: X1, r: Y) -> bool {
        self.0.ensures((x1,), r)
    }

    fn invoke1(&self, x1: X1) -> (r: Y) {
        (self.0)(x1)
    }
}

impl<F, X1, X2, Y> Invocable2<X1, X2> for Func<F> where F: Fn(X1, X2) -> Y {
    type Output = Y;

    open spec fn accepts2(&self, x1: X1, x2: X2) -> bool {
        self.0.requires((x1, x2))
    }

    open spec fn yields2(&self, x1: X1, x2: X2, r: Y) -> bool {
        self.0.ensures((x1, x2), r)
    }

    fn invoke2(&self, x1: X1, x2: X2) -> (r: Y) {
        (self.0)(x1, x2)
    }
}

impl<F, X1, X2, X3, Y> Invocable3<X1, X2, X3> for Func<F> where F: Fn(X1, X2, X3) -> Y {
    type Output = Y;

    open spec fn accepts3(&self, x1: X1, x2: X2, x3: X3) -> bool {
        self.0.requires((x1, x2, x3))
    }

    open spec fn yields3(&self, x1: X1, x2: X2, x3: X3, r: Y) -> bool {
        self.0.ensures((x1, x2, x3), r)
    }

    fn invoke3(&self, x1: X1, x2: X2, x3: X3) -> (r: Y) {
        (self.0)(x1, x2, x3)
    }
}

impl<F, X1, X2, X3, X4, Y> Invocable4<X1, X2, X3, X4> for Func<F> where F: Fn(X1, X2, X3, X4) -> Y {
    type Output = Y;

    open spec fn accepts4(&self, x1: X1, x2: X2, x3: X3, x4: X4) -> bool {
        self.0.requires((x1, x2, x3, x4))
    }

    open spec fn yields4(&self, x1: X1, x2: X2, x3: X3, x4: X4, r: Y) -> bool {
        self.0.ensures((x1, x2, x3, x4), r)
    }

    fn invoke4(&self, x1: X1, x2: X2, x3: X3, x4: X4) -> (r: Y) {
        (self.0)(x1, x2, x3, x4)
    }
}

/// One value with two argument shapes: called with one argument it runs `one`,
/// called with two it runs `two`.
#[derive(Clone, Copy)]
pub struct Overloaded<F1, F2> {
    pub one: F1,
    pub two: F2,
}

impl<F1, F2, X1, Y> Invocable1<X1> for Overloaded<F1, F2> where F1: Fn(X1) -> Y {
    type Output = Y;

    open spec fn accepts1(&self, x1: X1) -> bool {
        self.one.requires((x1,))
    }

    open spec fn yields1(&self, x1: X1, r: Y) -> bool {
        self.one.ensures((x1,), r)
    }

    fn invoke1(&self, x1: X1) -> (r: Y) {
        (self.one)(x1)
    }
}

impl<F1, F2, X1, X2, Y> Invocable2<X1, X2> for Overloaded<F1, F2> where F2: Fn(X1, X2) -> Y {
    type Output = Y;

    open spec fn accepts2(&self, x1: X1, x2: X2) -> bool {
        self.two.requires((x1, x2))
    }

    open spec fn yields2(&self, x1: X1, x2: X2, r: Y) -> bool {
        self.two.ensures((x1, x2), r)
    }

    fn invoke2(&self, x1: X1, x2: X2) -> (r: Y) {
        (self.two)(x1, x2)
    }
}

} // verus!
