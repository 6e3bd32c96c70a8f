use vstd::prelude::*;
use crate::invoke::{Invocable0, Invocable1, Invocable2, Invocable3, Invocable4};

verus! {

/// `func` with its last argument bound to `value`: called with the other
/// arguments, it calls `func` with them followed by `value`.
#[derive(Clone, Copy)]
pub struct Curried<F, V> {
    pub func: F,
    pub value: V,
}

/// Binding the last argument of a callable.
pub trait Curry<V>: Sized {
    fn curry(self, value: V) -> (r: Curried<Self, V>)
        ensures
            r.func == self,
            r.value == value,
    ;
}

impl<F, V> Curry<V> for F {
    fn curry(self, value: V) -> (r: Curried<F, V>) {
        Curried { func: self, value }
    }
}

impl<F, V> Invocable0 for Curried<F, V> where F: Invocable1<V>, V: Copy {
    type Output = F::Output;

    open spec fn accepts0(&self) -> bool {
        self.func.accepts1(self.value)
    }

    open spec fn yields0(&self, r: F::Output) -> bool {
        self.func.yields1(self.value, r)
    }

    fn invoke0(&self) -> (r: F::Output) {
        self.func.invoke1(self.value)
    }
}

impl<F, V, X1> Invocable1<X1> for Curried<F, V> where F: Invocable2<X1, V>, V: Copy {
    type Output = F::Output;

    open spec fn accepts1(&self, x1: X1) -> bool {
        self.func.accepts2(x1, self.value)
    }

    open spec fn yields1(&self, x1: X1, r: F::Output) -> bool {
        self.func.yields2(x1, self.value, r)
    }

    fn invoke1(&self, x1: X1) -> (r: F::Output) {
        self.func.invoke2(x1, self.value)
    }
}

impl<F, V, X1, X2> Invocable2<X1, X2> for Curried<F, V> where F: Invocable3<X1, X2, V>, V: Copy {
    type Output = F::Output;

    open spec fn accepts2(&self, x1: X1, x2: X2) -> bool {
        self.func.accepts3(x1, x2, self.value)
    }

    open spec fn yields2(&self, x1: X1, x2: X2, r: F::Output) -> bool {
        self.func.yields3(x1, x2, self.value, r)
    }

    fn invoke2(&self, x1: X1, x2: X2) -> (r: F::Output) {
        self.func.invoke3(x1, x2, self.value)
    }
}

impl<F, V, X1, X2, X3> Invocable3<X1, X2, X3> for Curried<F, V> where F: Invocable4<X1, X2, X3, V>, V: Copy {
    type Output = F::Output;

    open spec fn accepts3(&self, x1: X1, x2: X2, x3: X3) -> bool {
        self.func.accepts4(x1, x2, x3, self.value)
    }

    open spec fn yields3(&self, x1: X1, x2: X2, x3: X3, r: F::Output) -> bool {
        self.func.yields4(x1, x2, x3, self.value, r)
    }

    fn invoke3(&self, x1: X1, x2: X2, x3: X3) -> (r: F::Output) {
        self.func.invoke4(x1, x2, x3, self.value)
    }
}

} // verus!
