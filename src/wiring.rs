use vstd::prelude::*;
use crate::compose::{comp, Compose, ComposeLast, Composition, Last};

verus! {

// W* and W** hand their last callable on once more after the others are
// placed. Which argument it then fills depends on the arities: it goes to the
// next open argument of the head callable `a` while `a` has one, else of the
// callable that `a`'s last argument went to, and so on down the nesting
// (`λabc.abcc` reads `a(b, c, c)`, `a(b, c(c))` or `a(b(c, c))`). In the
// composition that argument is either the first open one or the last, and
// each trait below has one implementation per arity pattern, which picks that
// one. Patterns where it would be neither have no implementation.

/// The last step of W*: `a ∘ b ∘ c` composed with `c` once more.
pub trait RepeatThird<C, XO, XI>: Sized {
    fn repeat_third(self, c: C) -> (r: Composition<Self, C, XO, XI>)
        ensures
            r == comp::<Self, C, XO, XI>(self, c),
    ;
}

impl<A, B, C, X2A, P1, X1B, X2B, XO, XI> RepeatThird<C, XO, XI> for Composition<Composition<A, B, (P1,), X1B>, C, X2A, X2B> where
    Self: Compose<C, XO, XI>,
{
    fn repeat_third(self, c: C) -> (r: Composition<Self, C, XO, XI>) {
        self.compose(c)
    }
}

impl<A, B, C, X2A, P1, P2, X2B, XO, XI> RepeatThird<C, XO, XI> for Composition<Composition<A, B, (P1, P2), ()>, C, X2A, X2B> where
    Self: Compose<C, XO, XI>,
{
    fn repeat_third(self, c: C) -> (r: Composition<Self, C, XO, XI>) {
        self.compose(c)
    }
}

impl<A, B, C, X2A, P1, P2, Q1, R1, XP, XI> RepeatThird<C, Last<XP>, XI> for Composition<Composition<A, B, (P1, P2), (Q1,)>, C, X2A, (R1,)> where
    Self: ComposeLast<C, XP, XI>,
{
    fn repeat_third(self, c: C) -> (r: Composition<Self, C, Last<XP>, XI>) {
        self.compose_last(c)
    }
}

impl<A, B, C, X2A, P1, P2, Q1, Q2, R1, XP, XI> RepeatThird<C, Last<XP>, XI> for Composition<Composition<A, B, (P1, P2), (Q1, Q2)>, C, X2A, (R1,)> where
    Self: ComposeLast<C, XP, XI>,
{
    fn repeat_third(self, c: C) -> (r: Composition<Self, C, Last<XP>, XI>) {
        self.compose_last(c)
    }
}

impl<A, B, C, X2A, P1, P2, Q1, Q2, Q3, R1, XP, XI> RepeatThird<C, Last<XP>, XI> for Composition<Composition<A, B, (P1, P2), (Q1, Q2, Q3)>, C, X2A, (R1,)> where
    Self: ComposeLast<C, XP, XI>,
{
    fn repeat_third(self, c: C) -> (r: Composition<Self, C, Last<XP>, XI>) {
        self.compose_last(c)
    }
}

impl<A, B, C, X2A, P1, P2, P3, X1B, X2B, XO, XI> RepeatThird<C, XO, XI> for Composition<Composition<A, B, (P1, P2, P3), X1B>, C, X2A, X2B> where
    Self: Compose<C, XO, XI>,
{
    fn repeat_third(self, c: C) -> (r: Composition<Self, C, XO, XI>) {
        self.compose(c)
    }
}

impl<A, B, C, X2A, P1, P2, P3, P4, X1B, X2B, XO, XI> RepeatThird<C, XO, XI> for Composition<Composition<A, B, (P1, P2, P3, P4), X1B>, C, X2A, X2B> where
    Self: Compose<C, XO, XI>,
{
    fn repeat_third(self, c: C) -> (r: Composition<Self, C, XO, XI>) {
        self.compose(c)
    }
}

/// The fourth step of W**: `a ∘ b ∘ c` composed with `d`.
pub trait FourthAfterThird<D, XO, XI>: Sized {
    fn fourth_after_third(self, d: D) -> (r: Composition<Self, D, XO, XI>)
        ensures
            r == comp::<Self, D, XO, XI>(self, d),
    ;
}

impl<A, B, C, X2A, P1, X1B, X2B, D, XO, XI> FourthAfterThird<D, XO, XI> for Composition<Composition<A, B, (P1,), X1B>, C, X2A, X2B> where
    Self: Compose<D, XO, XI>,
{
    fn fourth_after_third(self, d: D) -> (r: Composition<Self, D, XO, XI>) {
        self.compose(d)
    }
}

impl<A, B, C, X2A, P1, P2, X2B, D, XO, XI> FourthAfterThird<D, XO, XI> for Composition<Composition<A, B, (P1, P2), ()>, C, X2A, X2B> where
    Self: Compose<D, XO, XI>,
{
    fn fourth_after_third(self, d: D) -> (r: Composition<Self, D, XO, XI>) {
        self.compose(d)
    }
}

impl<A, B, C, X2A, P1, P2, Q1, R1, D, XP, XI> FourthAfterThird<D, Last<XP>, XI> for Composition<Composition<A, B, (P1, P2), (Q1,)>, C, X2A, (R1,)> where
    Self: ComposeLast<D, XP, XI>,
{
    fn fourth_after_third(self, d: D) -> (r: Composition<Self, D, Last<XP>, XI>) {
        self.compose_last(d)
    }
}

impl<A, B, C, X2A, P1, P2, Q1, Q2, R1, D, XP, XI> FourthAfterThird<D, Last<XP>, XI> for Composition<Composition<A, B, (P1, P2), (Q1, Q2)>, C, X2A, (R1,)> where
    Self: ComposeLast<D, XP, XI>,
{
    fn fourth_after_third(self, d: D) -> (r: Composition<Self, D, Last<XP>, XI>) {
        self.compose_last(d)
    }
}

impl<A, B, C, X2A, P1, P2, Q1, Q2, Q3, R1, D, XP, XI> FourthAfterThird<D, Last<XP>, XI> for Composition<Composition<A, B, (P1, P2), (Q1, Q2, Q3)>, C, X2A, (R1,)> where
    Self: ComposeLast<D, XP, XI>,
{
    fn fourth_after_third(self, d: D) -> (r: Composition<Self, D, Last<XP>, XI>) {
        self.compose_last(d)
    }
}

impl<A, B, C, X2A, P1, P2, P3, X1B, X2B, D, XO, XI> FourthAfterThird<D, XO, XI> for Composition<Composition<A, B, (P1, P2, P3), X1B>, C, X2A, X2B> where
    Self: Compose<D, XO, XI>,
{
    fn fourth_after_third(self, d: D) -> (r: Composition<Self, D, XO, XI>) {
        self.compose(d)
    }
}

impl<A, B, C, X2A, P1, P2, P3, P4, X1B, X2B, D, XO, XI> FourthAfterThird<D, XO, XI> for Composition<Composition<A, B, (P1, P2, P3, P4), X1B>, C, X2A, X2B> where
    Self: Compose<D, XO, XI>,
{
    fn fourth_after_third(self, d: D) -> (r: Composition<Self, D, XO, XI>) {
        self.compose(d)
    }
}

/// The last step of W**: `a ∘ b ∘ c ∘ d` composed with `d` once more.
pub trait RepeatFourth<D, XO, XI>: Sized {
    fn repeat_fourth(self, d: D) -> (r: Composition<Self, D, XO, XI>)
        ensures
            r == comp::<Self, D, XO, XI>(self, d),
    ;
}

impl<A, B, C, D, X2A, X3A, P1, P2, P3, P4, X1B, X2B, X3B, XO, XI> RepeatFourth<D, XO, XI> for Composition<Composition<Composition<A, B, (P1, P2, P3, P4), X1B>, C, X2A, X2B>, D, X3A, X3B> where
    Self: Compose<D, XO, XI>,
{
    fn repeat_fourth(self, d: D) -> (r: Composition<Self, D, XO, XI>) {
        self.compose(d)
    }
}

impl<A, B, C, D, X2A, X3A, P1, P2, P3, X3B, XO, XI> RepeatFourth<D, XO, XI> for Composition<Composition<Composition<A, B, (P1, P2, P3), ()>, C, X2A, ()>, D, X3A, X3B> where
    Self: Compose<D, XO, XI>,
{
    fn repeat_fourth(self, d: D) -> (r: Composition<Self, D, XO, XI>) {
        self.compose(d)
    }
}

impl<A, B, C, D, X2A, X3A, P1, P2, P3, R1, S1, XP, XI> RepeatFourth<D, Last<XP>, XI> for Composition<Composition<Composition<A, B, (P1, P2, P3), ()>, C, X2A, (R1,)>, D, X3A, (S1,)> where
    Self: ComposeLast<D, XP, XI>,
{
    fn repeat_fourth(self, d: D) -> (r: Composition<Self, D, Last<XP>, XI>) {
        self.compose_last(d)
    }
}

impl<A, B, C, D, X2A, X3A, P1, P2, P3, R1, R2, S1, XP, XI> RepeatFourth<D, Last<XP>, XI> for Composition<Composition<Composition<A, B, (P1, P2, P3), ()>, C, X2A, (R1, R2)>, D, X3A, (S1,)> where
    Self: ComposeLast<D, XP, XI>,
{
    fn repeat_fourth(self, d: D) -> (r: Composition<Self, D, Last<XP>, XI>) {
        self.compose_last(d)
    }
}

impl<A, B, C, D, X2A, X3A, P1, P2, P3, R1, R2, R3, S1, XP, XI> RepeatFourth<D, Last<XP>, XI> for Composition<Composition<Composition<A, B, (P1, P2, P3), ()>, C, X2A, (R1, R2, R3)>, D, X3A, (S1,)> where
    Self: ComposeLast<D, XP, XI>,
{
    fn repeat_fourth(self, d: D) -> (r: Composition<Self, D, Last<XP>, XI>) {
        self.compose_last(d)
    }
}

impl<A, B, C, D, X2A, X3A, P1, P2, P3, Q1, S1, XP, XI> RepeatFourth<D, Last<XP>, XI> for Composition<Composition<Composition<A, B, (P1, P2, P3), (Q1,)>, C, X2A, ()>, D, X3A, (S1,)> where
    Self: ComposeLast<D, XP, XI>,
{
    fn repeat_fourth(self, d: D) -> (r: Composition<Self, D, Last<XP>, XI>) {
        self.compose_last(d)
    }
}

impl<A, B, C, D, X2A, X3A, P1, P2, P3, Q1, R1, S1, XP, XI> RepeatFourth<D, Last<XP>, XI> for Composition<Composition<Composition<A, B, (P1, P2, P3), (Q1,)>, C, X2A, (R1,)>, D, X3A, (S1,)> where
    Self: ComposeLast<D, XP, XI>,
{
    fn repeat_fourth(self, d: D) -> (r: Composition<Self, D, Last<XP>, XI>) {
        self.compose_last(d)
    }
}

impl<A, B, C, D, X2A, X3A, P1, P2, P3, Q1, R1, R2, S1, XP, XI> RepeatFourth<D, Last<XP>, XI> for Composition<Composition<Composition<A, B, (P1, P2, P3), (Q1,)>, C, X2A, (R1, R2)>, D, X3A, (S1,)> where
    Self: ComposeLast<D, XP, XI>,
{
    fn repeat_fourth(self, d: D) -> (r: Composition<Self, D, Last<XP>, XI>) {
        self.compose_last(d)
    }
}

impl<A, B, C, D, X2A, X3A, P1, P2, P3, Q1, Q2, S1, XP, XI> RepeatFourth<D, Last<XP>, XI> for Composition<Composition<Composition<A, B, (P1, P2, P3), (Q1, Q2)>, C, X2A, ()>, D, X3A, (S1,)> where
    Self: ComposeLast<D, XP, XI>,
{
    fn repeat_fourth(self, d: D) -> (r: Composition<Self, D, Last<XP>, XI>) {
        self.compose_last(d)
    }
}

impl<A, B, C, D, X2A, X3A, P1, P2, P3, Q1, Q2, R1, S1, XP, XI> RepeatFourth<D, Last<XP>, XI> for Composition<Composition<Composition<A, B, (P1, P2, P3), (Q1, Q2)>, C, X2A, (R1,)>, D, X3A, (S1,)> where
    Self: ComposeLast<D, XP, XI>,
{
    fn repeat_fourth(self, d: D) -> (r: Composition<Self, D, Last<XP>, XI>) {
        self.compose_last(d)
    }
}

impl<A, B, C, D, X2A, X3A, P1, P2, X2B, X3B, XO, XI> RepeatFourth<D, XO, XI> for Composition<Composition<Composition<A, B, (P1, P2), ()>, C, X2A, X2B>, D, X3A, X3B> where
    Self: Compose<D, XO, XI>,
{
    fn repeat_fourth(self, d: D) -> (r: Composition<Self, D, XO, XI>) {
        self.compose(d)
    }
}

impl<A, B, C, D, X2A, X3A, P1, P2, Q1, R1, S1, XP, XI> RepeatFourth<D, Last<XP>, XI> for Composition<Composition<Composition<A, B, (P1, P2), (Q1,)>, C, X2A, (R1,)>, D, X3A, (S1,)> where
    Self: ComposeLast<D, XP, XI>,
{
    fn repeat_fourth(self, d: D) -> (r: Composition<Self, D, Last<XP>, XI>) {
        self.compose_last(d)
    }
}

impl<A, B, C, D, X2A, X3A, P1, P2, Q1, Q2, R1, S1, XP, XI> RepeatFourth<D, Last<XP>, XI> for Composition<Composition<Composition<A, B, (P1, P2), (Q1, Q2)>, C, X2A, (R1,)>, D, X3A, (S1,)> where
    Self: ComposeLast<D, XP, XI>,
{
    fn repeat_fourth(self, d: D) -> (r: Composition<Self, D, Last<XP>, XI>) {
        self.compose_last(d)
    }
}

impl<A, B, C, D, X2A, X3A, P1, P2, Q1, Q2, Q3, R1, S1, XP, XI> RepeatFourth<D, Last<XP>, XI> for Composition<Composition<Composition<A, B, (P1, P2), (Q1, Q2, Q3)>, C, X2A, (R1,)>, D, X3A, (S1,)> where
    Self: ComposeLast<D, XP, XI>,
{
    fn repeat_fourth(self, d: D) -> (r: Composition<Self, D, Last<XP>, XI>) {
        self.compose_last(d)
    }
}

impl<A, B, C, D, X2A, X3A, P1, Q1, Q2, Q3, X2B, X3B, XO, XI> RepeatFourth<D, XO, XI> for Composition<Composition<Composition<A, B, (P1,), (Q1, Q2, Q3)>, C, X2A, X2B>, D, X3A, X3B> where
    Self: Compose<D, XO, XI>,
{
    fn repeat_fourth(self, d: D) -> (r: Composition<Self, D, XO, XI>) {
        self.compose(d)
    }
}

impl<A, B, C, D, X2A, X3A, P1, Q1, Q2, Q3, Q4, X2B, X3B, XO, XI> RepeatFourth<D, XO, XI> for Composition<Composition<Composition<A, B, (P1,), (Q1, Q2, Q3, Q4)>, C, X2A, X2B>, D, X3A, X3B> where
    Self: Compose<D, XO, XI>,
{
    fn repeat_fourth(self, d: D) -> (r: Composition<Self, D, XO, XI>) {
        self.compose(d)
    }
}

impl<A, B, C, D, X2A, X3A, P1, Q1, Q2, X3B, XO, XI> RepeatFourth<D, XO, XI> for Composition<Composition<Composition<A, B, (P1,), (Q1, Q2)>, C, X2A, ()>, D, X3A, X3B> where
    Self: Compose<D, XO, XI>,
{
    fn repeat_fourth(self, d: D) -> (r: Composition<Self, D, XO, XI>) {
        self.compose(d)
    }
}

impl<A, B, C, D, X2A, X3A, P1, Q1, Q2, R1, S1, XP, XI> RepeatFourth<D, Last<XP>, XI> for Composition<Composition<Composition<A, B, (P1,), (Q1, Q2)>, C, X2A, (R1,)>, D, X3A, (S1,)> where
    Self: ComposeLast<D, XP, XI>,
{
    fn repeat_fourth(self, d: D) -> (r: Composition<Self, D, Last<XP>, XI>) {
        self.compose_last(d)
    }
}

impl<A, B, C, D, X2A, X3A, P1, Q1, Q2, R1, R2, S1, XP, XI> RepeatFourth<D, Last<XP>, XI> for Composition<Composition<Composition<A, B, (P1,), (Q1, Q2)>, C, X2A, (R1, R2)>, D, X3A, (S1,)> where
    Self: ComposeLast<D, XP, XI>,
{
    fn repeat_fourth(self, d: D) -> (r: Composition<Self, D, Last<XP>, XI>) {
        self.compose_last(d)
    }
}

impl<A, B, C, D, X2A, X3A, P1, Q1, Q2, R1, R2, R3, S1, XP, XI> RepeatFourth<D, Last<XP>, XI> for Composition<Composition<Composition<A, B, (P1,), (Q1, Q2)>, C, X2A, (R1, R2, R3)>, D, X3A, (S1,)> where
    Self: ComposeLast<D, XP, XI>,
{
    fn repeat_fourth(self, d: D) -> (r: Composition<Self, D, Last<XP>, XI>) {
        self.compose_last(d)
    }
}

impl<A, B, C, D, X2A, X3A, P1, Q1, X2B, X3B, XO, XI> RepeatFourth<D, XO, XI> for Composition<Composition<Composition<A, B, (P1,), (Q1,)>, C, X2A, X2B>, D, X3A, X3B> where
    Self: Compose<D, XO, XI>,
{
    fn repeat_fourth(self, d: D) -> (r: Composition<Self, D, XO, XI>) {
        self.compose(d)
    }
}

} // verus!
