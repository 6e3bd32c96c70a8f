use vstd::prelude::*;
use crate::compose::{comp, Compose, Composition};
use crate::wiring::{FourthAfterThird, RepeatFourth, RepeatThird};

verus! {

// Each combinator takes its callables in the order of its lambda form and wires
// them with `compose`. The shape parameters `XnA`, `XnB` are the argument tuples
// of the outer and inner side of the n-th composition; they are inferred from
// the callables, and a wiring whose types do not line up does not compile.

/// I = Identity Bird: `λa.a`, returns `a` itself.
pub fn i<A>(fa: A) -> (r: A)
    ensures
        r == fa,
{
    fa
}

/// K = Kestrel (true): `λab.a`, returns `a` and drops `b`.
pub fn k<A, B>(fa: A, fb: B) -> (r: A)
    ensures
        r == fa,
{
    fa
}

/// KI = Kite (false): `λab.b`, returns `b` and drops `a`.
pub fn ki<A, B>(fa: A, fb: B) -> (r: B)
    ensures
        r == fb,
{
    fb
}

/// B = Bluebird: `λabc.a(bc)`, built as `a ∘ (b ∘ c)`.
///
/// What calling it computes: [`law_b`](crate::law_b), [`law_b_arity_0`](crate::law_b_arity_0), [`law_b_arity_2`](crate::law_b_arity_2), [`law_b_arity_3`](crate::law_b_arity_3), [`law_b_arity_4`](crate::law_b_arity_4).
pub fn b<A, B, C, X1A, X1B, X2A, X2B>(fa: A, fb: B, fc: C) -> (r: Composition<A, Composition<B, C, X1A, X1B>, X2A, X2B>) where
    B: Compose<C, X1A, X1B>,
    A: Compose<Composition<B, C, X1A, X1B>, X2A, X2B>,
    ensures
        r == comp::<_, _, X2A, X2B>(fa, comp::<_, _, X1A, X1B>(fb, fc)),
{
    fa.compose(fb.compose(fc))
}

/// B¹ = Blackbird: `λabcd.a(bcd)`, built as `a ∘ (b ∘ c ∘ d)`.
///
/// What calling it computes: [`law_b1`](crate::law_b1), [`law_b1_chain`](crate::law_b1_chain).
pub fn b1<A, B, C, D, X1A, X1B, X2A, X2B, X3A, X3B>(fa: A, fb: B, fc: C, fd: D) -> (r: Composition<A, Composition<Composition<B, C, X1A, X1B>, D, X2A, X2B>, X3A, X3B>) where
    B: Compose<C, X1A, X1B>,
    Composition<B, C, X1A, X1B>: Compose<D, X2A, X2B>,
    A: Compose<Composition<Composition<B, C, X1A, X1B>, D, X2A, X2B>, X3A, X3B>,
    ensures
        r == comp::<_, _, X3A, X3B>(fa, comp::<_, _, X2A, X2B>(comp::<_, _, X1A, X1B>(fb, fc), fd)),
{
    fa.compose(fb.compose(fc).compose(fd))
}

/// B² = Bunting: `λabcde.a(bcde)`, built as `a ∘ (b ∘ c ∘ d ∘ e)`.
///
/// What calling it computes: [`law_b2`](crate::law_b2), [`law_b2_chain`](crate::law_b2_chain).
pub fn b2<A, B, C, D, E, X1A, X1B, X2A, X2B, X3A, X3B, X4A, X4B>(fa: A, fb: B, fc: C, fd: D, fe: E) -> (r: Composition<A, Composition<Composition<Composition<B, C, X1A, X1B>, D, X2A, X2B>, E, X3A, X3B>, X4A, X4B>) where
    B: Compose<C, X1A, X1B>,
    Composition<B, C, X1A, X1B>: Compose<D, X2A, X2B>,
    Composition<Composition<B, C, X1A, X1B>, D, X2A, X2B>: Compose<E, X3A, X3B>,
    A: Compose<Composition<Composition<Composition<B, C, X1A, X1B>, D, X2A, X2B>, E, X3A, X3B>, X4A, X4B>,
    ensures
        r == comp::<_, _, X4A, X4B>(fa, comp::<_, _, X3A, X3B>(comp::<_, _, X2A, X2B>(comp::<_, _, X1A, X1B>(fb, fc), fd), fe)),
{
    fa.compose(fb.compose(fc).compose(fd).compose(fe))
}

/// B³ = Becard: `λabcd.a(b(cd))`, built as `a ∘ (b ∘ (c ∘ d))`.
///
/// What calling it computes: [`law_b3`](crate::law_b3).
pub fn b3<A, B, C, D, X1A, X1B, X2A, X2B, X3A, X3B>(fa: A, fb: B, fc: C, fd: D) -> (r: Composition<A, Composition<B, Composition<C, D, X1A, X1B>, X2A, X2B>, X3A, X3B>) where
    C: Compose<D, X1A, X1B>,
    B: Compose<Composition<C, D, X1A, X1B>, X2A, X2B>,
    A: Compose<Composition<B, Composition<C, D, X1A, X1B>, X2A, X2B>, X3A, X3B>,
    ensures
        r == comp::<_, _, X3A, X3B>(fa, comp::<_, _, X2A, X2B>(fb, comp::<_, _, X1A, X1B>(fc, fd))),
{
    fa.compose(fb.compose(fc.compose(fd)))
}

/// C = Cardinal: `λabc.acb`, built as `a ∘ c ∘ b`.
///
/// What calling it computes: [`law_c`](crate::law_c), [`law_c_chain`](crate::law_c_chain).
pub fn c<A, B, C, X1A, X1B, X2A, X2B>(fa: A, fb: B, fc: C) -> (r: Composition<Composition<A, C, X1A, X1B>, B, X2A, X2B>) where
    A: Compose<C, X1A, X1B>,
    Composition<A, C, X1A, X1B>: Compose<B, X2A, X2B>,
    ensures
        r == comp::<_, _, X2A, X2B>(comp::<_, _, X1A, X1B>(fa, fc), fb),
{
    fa.compose(fc).compose(fb)
}

/// D = Dove: `λabcd.ab(cd)`, built as `a ∘ b ∘ (c ∘ d)`.
///
/// What calling it computes: [`law_d`](crate::law_d), [`law_d_chain`](crate::law_d_chain).
pub fn d<A, B, C, D, X1A, X1B, X2A, X2B, X3A, X3B>(fa: A, fb: B, fc: C, fd: D) -> (r: Composition<Composition<A, B, X1A, X1B>, Composition<C, D, X2A, X2B>, X3A, X3B>) where
    A: Compose<B, X1A, X1B>,
    C: Compose<D, X2A, X2B>,
    Composition<A, B, X1A, X1B>: Compose<Composition<C, D, X2A, X2B>, X3A, X3B>,
    ensures
        r == comp::<_, _, X3A, X3B>(comp::<_, _, X1A, X1B>(fa, fb), comp::<_, _, X2A, X2B>(fc, fd)),
{
    fa.compose(fb).compose(fc.compose(fd))
}

/// D¹ = Dickcissel: `λabcde.abc(de)`, built as `a ∘ b ∘ c ∘ (d ∘ e)`.
///
/// What calling it computes: [`law_d1`](crate::law_d1), [`law_d1_chain`](crate::law_d1_chain).
pub fn d1<A, B, C, D, E, X1A, X1B, X2A, X2B, X3A, X3B, X4A, X4B>(fa: A, fb: B, fc: C, fd: D, fe: E) -> (r: Composition<Composition<Composition<A, B, X1A, X1B>, C, X2A, X2B>, Composition<D, E, X3A, X3B>, X4A, X4B>) where
    A: Compose<B, X1A, X1B>,
    Composition<A, B, X1A, X1B>: Compose<C, X2A, X2B>,
    D: Compose<E, X3A, X3B>,
    Composition<Composition<A, B, X1A, X1B>, C, X2A, X2B>: Compose<Composition<D, E, X3A, X3B>, X4A, X4B>,
    ensures
        r == comp::<_, _, X4A, X4B>(comp::<_, _, X2A, X2B>(comp::<_, _, X1A, X1B>(fa, fb), fc), comp::<_, _, X3A, X3B>(fd, fe)),
{
    fa.compose(fb).compose(fc).compose(fd.compose(fe))
}

/// D² = Dovekies: `λabcde.a(bc)(de)`, built as `a ∘ (b ∘ c) ∘ (d ∘ e)`.
///
/// What calling it computes: [`law_d2`](crate::law_d2), [`law_d2_chain`](crate::law_d2_chain).
pub fn d2<A, B, C, D, E, X1A, X1B, X2A, X2B, X3A, X3B, X4A, X4B>(fa: A, fb: B, fc: C, fd: D, fe: E) -> (r: Composition<Composition<A, Composition<B, C, X1A, X1B>, X2A, X2B>, Composition<D, E, X3A, X3B>, X4A, X4B>) where
    B: Compose<C, X1A, X1B>,
    A: Compose<Composition<B, C, X1A, X1B>, X2A, X2B>,
    D: Compose<E, X3A, X3B>,
    Composition<A, Composition<B, C, X1A, X1B>, X2A, X2B>: Compose<Composition<D, E, X3A, X3B>, X4A, X4B>,
    ensures
        r == comp::<_, _, X4A, X4B>(comp::<_, _, X2A, X2B>(fa, comp::<_, _, X1A, X1B>(fb, fc)), comp::<_, _, X3A, X3B>(fd, fe)),
{
    fa.compose(fb.compose(fc)).compose(fd.compose(fe))
}

/// E = Eagle: `λabcde.ab(cde)`, built as `a ∘ b ∘ (c ∘ d ∘ e)`.
///
/// What calling it computes: [`law_e`](crate::law_e), [`law_e_chain`](crate::law_e_chain).
pub fn e<A, B, C, D, E, X1A, X1B, X2A, X2B, X3A, X3B, X4A, X4B>(fa: A, fb: B, fc: C, fd: D, fe: E) -> (r: Composition<Composition<A, B, X1A, X1B>, Composition<Composition<C, D, X2A, X2B>, E, X3A, X3B>, X4A, X4B>) where
    A: Compose<B, X1A, X1B>,
    C: Compose<D, X2A, X2B>,
    Composition<C, D, X2A, X2B>: Compose<E, X3A, X3B>,
    Composition<A, B, X1A, X1B>: Compose<Composition<Composition<C, D, X2A, X2B>, E, X3A, X3B>, X4A, X4B>,
    ensures
        r == comp::<_, _, X4A, X4B>(comp::<_, _, X1A, X1B>(fa, fb), comp::<_, _, X3A, X3B>(comp::<_, _, X2A, X2B>(fc, fd), fe)),
{
    fa.compose(fb).compose(fc.compose(fd).compose(fe))
}

/// Ê = Bald Eagle: `λabcdefg.a(bcd)(efg)`, built as `a ∘ (b ∘ c ∘ d) ∘ (e ∘ f ∘ g)`.
///
/// What calling it computes: [`law_e_hat`](crate::law_e_hat), [`law_e_hat_chain`](crate::law_e_hat_chain).
pub fn e_hat<A, B, C, D, E, F, G, X1A, X1B, X2A, X2B, X3A, X3B, X4A, X4B, X5A, X5B, X6A, X6B>(fa: A, fb: B, fc: C, fd: D, fe: E, ff: F, fg: G) -> (r: Composition<Composition<A, Composition<Composition<B, C, X1A, X1B>, D, X2A, X2B>, X3A, X3B>, Composition<Composition<E, F, X4A, X4B>, G, X5A, X5B>, X6A, X6B>) where
    B: Compose<C, X1A, X1B>,
    Composition<B, C, X1A, X1B>: Compose<D, X2A, X2B>,
    A: Compose<Composition<Composition<B, C, X1A, X1B>, D, X2A, X2B>, X3A, X3B>,
    E: Compose<F, X4A, X4B>,
    Composition<E, F, X4A, X4B>: Compose<G, X5A, X5B>,
    Composition<A, Composition<Composition<B, C, X1A, X1B>, D, X2A, X2B>, X3A, X3B>: Compose<Composition<Composition<E, F, X4A, X4B>, G, X5A, X5B>, X6A, X6B>,
    ensures
        r == comp::<_, _, X6A, X6B>(comp::<_, _, X3A, X3B>(fa, comp::<_, _, X2A, X2B>(comp::<_, _, X1A, X1B>(fb, fc), fd)), comp::<_, _, X5A, X5B>(comp::<_, _, X4A, X4B>(fe, ff), fg)),
{
    fa.compose(fb.compose(fc).compose(fd)).compose(fe.compose(ff).compose(fg))
}

/// F = Finch: `λabc.cba`, built as `c ∘ b ∘ a`.
///
/// What calling it computes: [`law_f`](crate::law_f), [`law_f_chain`](crate::law_f_chain).
pub fn f<A, B, C, X1A, X1B, X2A, X2B>(fa: A, fb: B, fc: C) -> (r: Composition<Composition<C, B, X1A, X1B>, A, X2A, X2B>) where
    C: Compose<B, X1A, X1B>,
    Composition<C, B, X1A, X1B>: Compose<A, X2A, X2B>,
    ensures
        r == comp::<_, _, X2A, X2B>(comp::<_, _, X1A, X1B>(fc, fb), fa),
{
    fc.compose(fb).compose(fa)
}

/// G = Goldfinch: `λabcd.ad(bc)`, built as `a ∘ d ∘ (b ∘ c)`.
///
/// What calling it computes: [`law_g`](crate::law_g), [`law_g_chain`](crate::law_g_chain).
pub fn g<A, B, C, D, X1A, X1B, X2A, X2B, X3A, X3B>(fa: A, fb: B, fc: C, fd: D) -> (r: Composition<Composition<A, D, X1A, X1B>, Composition<B, C, X2A, X2B>, X3A, X3B>) where
    A: Compose<D, X1A, X1B>,
    B: Compose<C, X2A, X2B>,
    Composition<A, D, X1A, X1B>: Compose<Composition<B, C, X2A, X2B>, X3A, X3B>,
    ensures
        r == comp::<_, _, X3A, X3B>(comp::<_, _, X1A, X1B>(fa, fd), comp::<_, _, X2A, X2B>(fb, fc)),
{
    fa.compose(fd).compose(fb.compose(fc))
}

/// H = Hummingbird: `λabc.abcb`, built as `a ∘ b ∘ c ∘ b`.
///
/// What calling it computes: [`law_h`](crate::law_h), [`law_h_chain`](crate::law_h_chain).
pub fn h<A, B, C, X1A, X1B, X2A, X2B, X3A, X3B>(fa: A, fb: B, fc: C) -> (r: Composition<Composition<Composition<A, B, X1A, X1B>, C, X2A, X2B>, B, X3A, X3B>) where
    B: Copy,
    A: Compose<B, X1A, X1B>,
    Composition<A, B, X1A, X1B>: Compose<C, X2A, X2B>,
    Composition<Composition<A, B, X1A, X1B>, C, X2A, X2B>: Compose<B, X3A, X3B>,
    ensures
        r == comp::<_, _, X3A, X3B>(comp::<_, _, X2A, X2B>(comp::<_, _, X1A, X1B>(fa, fb), fc), fb),
{
    fa.compose(fb).compose(fc).compose(fb)
}

/// J = Jay: `λabcd.ab(adc)`, built as `a ∘ b ∘ (a ∘ d ∘ c)`.
///
/// What calling it computes: [`law_j`](crate::law_j), [`law_j_chain`](crate::law_j_chain).
pub fn j<A, B, C, D, X1A, X1B, X2A, X2B, X3A, X3B, X4A, X4B>(fa: A, fb: B, fc: C, fd: D) -> (r: Composition<Composition<A, B, X1A, X1B>, Composition<Composition<A, D, X2A, X2B>, C, X3A, X3B>, X4A, X4B>) where
    A: Compose<B, X1A, X1B> + Compose<D, X2A, X2B> + Copy,
    Composition<A, D, X2A, X2B>: Compose<C, X3A, X3B>,
    Composition<A, B, X1A, X1B>: Compose<Composition<Composition<A, D, X2A, X2B>, C, X3A, X3B>, X4A, X4B>,
    ensures
        r == comp::<_, _, X4A, X4B>(comp::<_, _, X1A, X1B>(fa, fb), comp::<_, _, X3A, X3B>(comp::<_, _, X2A, X2B>(fa, fd), fc)),
{
    fa.compose(fb).compose(fa.compose(fd).compose(fc))
}

/// L = Lark: `λab.a(bb)`, built as `a ∘ (b ∘ b)`.
///
/// What calling it computes: [`law_l`](crate::law_l).
pub fn l<A, B, X1A, X1B, X2A, X2B>(fa: A, fb: B) -> (r: Composition<A, Composition<B, B, X1A, X1B>, X2A, X2B>) where
    B: Compose<B, X1A, X1B> + Copy,
    A: Compose<Composition<B, B, X1A, X1B>, X2A, X2B>,
    ensures
        r == comp::<_, _, X2A, X2B>(fa, comp::<_, _, X1A, X1B>(fb, fb)),
{
    fa.compose(fb.compose(fb))
}

/// M = Mockingbird: `λa.aa`, built as `a ∘ a`.
///
/// What calling it computes: [`law_m`](crate::law_m).
pub fn m<A, X1A, X1B>(fa: A) -> (r: Composition<A, A, X1A, X1B>) where
    A: Compose<A, X1A, X1B> + Copy,
    ensures
        r == comp::<_, _, X1A, X1B>(fa, fa),
{
    fa.compose(fa)
}

/// M² = Double Mockingbird: `λab.ab(ab)`, built as `a ∘ b ∘ (a ∘ b)`.
///
/// What calling it computes: [`law_m2`](crate::law_m2), [`law_m2_chain`](crate::law_m2_chain).
pub fn m2<A, B, X1A, X1B, X2A, X2B, X3A, X3B>(fa: A, fb: B) -> (r: Composition<Composition<A, B, X1A, X1B>, Composition<A, B, X2A, X2B>, X3A, X3B>) where
    A: Compose<B, X1A, X1B> + Compose<B, X2A, X2B> + Copy,
    B: Copy,
    Composition<A, B, X1A, X1B>: Compose<Composition<A, B, X2A, X2B>, X3A, X3B>,
    ensures
        r == comp::<_, _, X3A, X3B>(comp::<_, _, X1A, X1B>(fa, fb), comp::<_, _, X2A, X2B>(fa, fb)),
{
    fa.compose(fb).compose(fa.compose(fb))
}

/// O = Owl: `λab.b(ab)`, built as `b ∘ (a ∘ b)`.
///
/// What calling it computes: [`law_o`](crate::law_o).
pub fn o<A, B, X1A, X1B, X2A, X2B>(fa: A, fb: B) -> (r: Composition<B, Composition<A, B, X1A, X1B>, X2A, X2B>) where
    A: Compose<B, X1A, X1B>,
    B: Compose<Composition<A, B, X1A, X1B>, X2A, X2B> + Copy,
    ensures
        r == comp::<_, _, X2A, X2B>(fb, comp::<_, _, X1A, X1B>(fa, fb)),
{
    fb.compose(fa.compose(fb))
}

/// Q = Queer Bird: `λabc.b(ac)`, built as `b ∘ (a ∘ c)`.
///
/// What calling it computes: [`law_q`](crate::law_q).
pub fn q<A, B, C, X1A, X1B, X2A, X2B>(fa: A, fb: B, fc: C) -> (r: Composition<B, Composition<A, C, X1A, X1B>, X2A, X2B>) where
    A: Compose<C, X1A, X1B>,
    B: Compose<Composition<A, C, X1A, X1B>, X2A, X2B>,
    ensures
        r == comp::<_, _, X2A, X2B>(fb, comp::<_, _, X1A, X1B>(fa, fc)),
{
    fb.compose(fa.compose(fc))
}

/// Q¹ = Quixotic Bird: `λabc.a(cb)`, built as `a ∘ (c ∘ b)`.
///
/// What calling it computes: [`law_q1`](crate::law_q1).
pub fn q1<A, B, C, X1A, X1B, X2A, X2B>(fa: A, fb: B, fc: C) -> (r: Composition<A, Composition<C, B, X1A, X1B>, X2A, X2B>) where
    C: Compose<B, X1A, X1B>,
    A: Compose<Composition<C, B, X1A, X1B>, X2A, X2B>,
    ensures
        r == comp::<_, _, X2A, X2B>(fa, comp::<_, _, X1A, X1B>(fc, fb)),
{
    fa.compose(fc.compose(fb))
}

/// Q² = Quizzical Bird: `λabc.b(ca)`, built as `b ∘ (c ∘ a)`.
///
/// What calling it computes: [`law_q2`](crate::law_q2).
pub fn q2<A, B, C, X1A, X1B, X2A, X2B>(fa: A, fb: B, fc: C) -> (r: Composition<B, Composition<C, A, X1A, X1B>, X2A, X2B>) where
    C: Compose<A, X1A, X1B>,
    B: Compose<Composition<C, A, X1A, X1B>, X2A, X2B>,
    ensures
        r == comp::<_, _, X2A, X2B>(fb, comp::<_, _, X1A, X1B>(fc, fa)),
{
    fb.compose(fc.compose(fa))
}

/// Q³ = Quirky Bird: `λabc.c(ab)`, built as `c ∘ (a ∘ b)`.
///
/// What calling it computes: [`law_q3`](crate::law_q3).
pub fn q3<A, B, C, X1A, X1B, X2A, X2B>(fa: A, fb: B, fc: C) -> (r: Composition<C, Composition<A, B, X1A, X1B>, X2A, X2B>) where
    A: Compose<B, X1A, X1B>,
    C: Compose<Composition<A, B, X1A, X1B>, X2A, X2B>,
    ensures
        r == comp::<_, _, X2A, X2B>(fc, comp::<_, _, X1A, X1B>(fa, fb)),
{
    fc.compose(fa.compose(fb))
}

/// Q⁴ = Quacky Bird: `λabc.c(ba)`, built as `c ∘ (b ∘ a)`.
///
/// What calling it computes: [`law_q4`](crate::law_q4).
pub fn q4<A, B, C, X1A, X1B, X2A, X2B>(fa: A, fb: B, fc: C) -> (r: Composition<C, Composition<B, A, X1A, X1B>, X2A, X2B>) where
    B: Compose<A, X1A, X1B>,
    C: Compose<Composition<B, A, X1A, X1B>, X2A, X2B>,
    ensures
        r == comp::<_, _, X2A, X2B>(fc, comp::<_, _, X1A, X1B>(fb, fa)),
{
    fc.compose(fb.compose(fa))
}

/// R = Robin: `λabc.bca`, built as `b ∘ c ∘ a`.
///
/// What calling it computes: [`law_r`](crate::law_r), [`law_r_chain`](crate::law_r_chain).
pub fn r<A, B, C, X1A, X1B, X2A, X2B>(fa: A, fb: B, fc: C) -> (r: Composition<Composition<B, C, X1A, X1B>, A, X2A, X2B>) where
    B: Compose<C, X1A, X1B>,
    Composition<B, C, X1A, X1B>: Compose<A, X2A, X2B>,
    ensures
        r == comp::<_, _, X2A, X2B>(comp::<_, _, X1A, X1B>(fb, fc), fa),
{
    fb.compose(fc).compose(fa)
}

/// S = Starling: `λabc.ac(bc)`, built as `a ∘ c ∘ (b ∘ c)`.
///
/// What calling it computes: [`law_s`](crate::law_s), [`law_s_chain`](crate::law_s_chain).
pub fn s<A, B, C, X1A, X1B, X2A, X2B, X3A, X3B>(fa: A, fb: B, fc: C) -> (r: Composition<Composition<A, C, X1A, X1B>, Composition<B, C, X2A, X2B>, X3A, X3B>) where
    A: Compose<C, X1A, X1B>,
    B: Compose<C, X2A, X2B>,
    Composition<A, C, X1A, X1B>: Compose<Composition<B, C, X2A, X2B>, X3A, X3B>,
    C: Copy,
    ensures
        r == comp::<_, _, X3A, X3B>(comp::<_, _, X1A, X1B>(fa, fc), comp::<_, _, X2A, X2B>(fb, fc)),
{
    fa.compose(fc).compose(fb.compose(fc))
}

/// T = Thrush: `λab.ba`, built as `b ∘ a`.
///
/// What calling it computes: [`law_t`](crate::law_t), [`law_t_arity_0`](crate::law_t_arity_0), [`law_t_arity_2`](crate::law_t_arity_2), [`law_t_arity_3`](crate::law_t_arity_3), [`law_t_arity_4`](crate::law_t_arity_4).
pub fn t<A, B, X1A, X1B>(fa: A, fb: B) -> (r: Composition<B, A, X1A, X1B>) where
    B: Compose<A, X1A, X1B>,
    ensures
        r == comp::<_, _, X1A, X1B>(fb, fa),
{
    fb.compose(fa)
}

/// U = Turing: `λab.b(aab)`, built as `b ∘ (a ∘ a ∘ b)`.
///
/// What calling it computes: [`law_u`](crate::law_u), [`law_u_chain`](crate::law_u_chain).
pub fn u<A, B, X1A, X1B, X2A, X2B, X3A, X3B>(fa: A, fb: B) -> (r: Composition<B, Composition<Composition<A, A, X1A, X1B>, B, X2A, X2B>, X3A, X3B>) where
    A: Compose<A, X1A, X1B> + Copy,
    Composition<A, A, X1A, X1B>: Compose<B, X2A, X2B>,
    B: Compose<Composition<Composition<A, A, X1A, X1B>, B, X2A, X2B>, X3A, X3B> + Copy,
    ensures
        r == comp::<_, _, X3A, X3B>(fb, comp::<_, _, X2A, X2B>(comp::<_, _, X1A, X1B>(fa, fa), fb)),
{
    fb.compose(fa.compose(fa).compose(fb))
}

/// V = Vireo aka Pairing: `λabc.cab`, built as `c ∘ a ∘ b`.
///
/// What calling it computes: [`law_v`](crate::law_v), [`law_v_chain`](crate::law_v_chain).
pub fn v<A, B, C, X1A, X1B, X2A, X2B>(fa: A, fb: B, fc: C) -> (r: Composition<Composition<C, A, X1A, X1B>, B, X2A, X2B>) where
    C: Compose<A, X1A, X1B>,
    Composition<C, A, X1A, X1B>: Compose<B, X2A, X2B>,
    ensures
        r == comp::<_, _, X2A, X2B>(comp::<_, _, X1A, X1B>(fc, fa), fb),
{
    fc.compose(fa).compose(fb)
}

/// W = Warbler: `λab.abb`, built as `a ∘ b ∘ b`.
///
/// What calling it computes: [`law_w`](crate::law_w), [`law_w_chain`](crate::law_w_chain).
pub fn w<A, B, X1A, X1B, X2A, X2B>(fa: A, fb: B) -> (r: Composition<Composition<A, B, X1A, X1B>, B, X2A, X2B>) where
    B: Copy,
    A: Compose<B, X1A, X1B>,
    Composition<A, B, X1A, X1B>: Compose<B, X2A, X2B>,
    ensures
        r == comp::<_, _, X2A, X2B>(comp::<_, _, X1A, X1B>(fa, fb), fb),
{
    fa.compose(fb).compose(fb)
}

/// W¹ = Converse Warbler: `λab.baa`, built as `b ∘ a ∘ a`.
///
/// What calling it computes: [`law_w1`](crate::law_w1), [`law_w1_chain`](crate::law_w1_chain).
pub fn w1<A, B, X1A, X1B, X2A, X2B>(fa: A, fb: B) -> (r: Composition<Composition<B, A, X1A, X1B>, A, X2A, X2B>) where
    A: Copy,
    B: Compose<A, X1A, X1B>,
    Composition<B, A, X1A, X1B>: Compose<A, X2A, X2B>,
    ensures
        r == comp::<_, _, X2A, X2B>(comp::<_, _, X1A, X1B>(fb, fa), fa),
{
    fb.compose(fa).compose(fa)
}

/// I* = Identity Bird Once Removed: `λab.ab`, built as `a ∘ b`.
///
/// What calling it computes: [`law_i_star`](crate::law_i_star), [`law_i_star_arity_0`](crate::law_i_star_arity_0), [`law_i_star_arity_2`](crate::law_i_star_arity_2), [`law_i_star_arity_3`](crate::law_i_star_arity_3), [`law_i_star_arity_4`](crate::law_i_star_arity_4).
pub fn i_star<A, B, X1A, X1B>(fa: A, fb: B) -> (r: Composition<A, B, X1A, X1B>) where
    A: Compose<B, X1A, X1B>,
    ensures
        r == comp::<_, _, X1A, X1B>(fa, fb),
{
    fa.compose(fb)
}

/// W* = Warbler Once Removed: `λabc.abcc`, built as `a ∘ b ∘ c ∘ c`, where the
/// second `c` fills the argument that the reading gives it (see [`RepeatThird`]).
///
/// What calling it computes: [`law_w_star`](crate::law_w_star), [`law_w_star_chain`](crate::law_w_star_chain), [`law_w_star_binary`](crate::law_w_star_binary), [`law_w_star_inner_binary`](crate::law_w_star_inner_binary).
pub fn w_star<A, B, C, X1A, X1B, X2A, X2B, X3A, X3B>(fa: A, fb: B, fc: C) -> (r: Composition<Composition<Composition<A, B, X1A, X1B>, C, X2A, X2B>, C, X3A, X3B>) where
    C: Copy,
    A: Compose<B, X1A, X1B>,
    Composition<A, B, X1A, X1B>: Compose<C, X2A, X2B>,
    Composition<Composition<A, B, X1A, X1B>, C, X2A, X2B>: RepeatThird<C, X3A, X3B>,
    ensures
        r == comp::<_, _, X3A, X3B>(comp::<_, _, X2A, X2B>(comp::<_, _, X1A, X1B>(fa, fb), fc), fc),
{
    fa.compose(fb).compose(fc).repeat_third(fc)
}

/// C* = Cardinal Once Removed: `λabcd.abdc`, built as `a ∘ b ∘ d ∘ c`.
///
/// What calling it computes: [`law_c_star`](crate::law_c_star), [`law_c_star_chain`](crate::law_c_star_chain).
pub fn c_star<A, B, C, D, X1A, X1B, X2A, X2B, X3A, X3B>(fa: A, fb: B, fc: C, fd: D) -> (r: Composition<Composition<Composition<A, B, X1A, X1B>, D, X2A, X2B>, C, X3A, X3B>) where
    A: Compose<B, X1A, X1B>,
    Composition<A, B, X1A, X1B>: Compose<D, X2A, X2B>,
    Composition<Composition<A, B, X1A, X1B>, D, X2A, X2B>: Compose<C, X3A, X3B>,
    ensures
        r == comp::<_, _, X3A, X3B>(comp::<_, _, X2A, X2B>(comp::<_, _, X1A, X1B>(fa, fb), fd), fc),
{
    fa.compose(fb).compose(fd).compose(fc)
}

/// R* = Robin Once Removed: `λabcd.acdb`, built as `a ∘ c ∘ d ∘ b`.
///
/// What calling it computes: [`law_r_star`](crate::law_r_star), [`law_r_star_chain`](crate::law_r_star_chain).
pub fn r_star<A, B, C, D, X1A, X1B, X2A, X2B, X3A, X3B>(fa: A, fb: B, fc: C, fd: D) -> (r: Composition<Composition<Composition<A, C, X1A, X1B>, D, X2A, X2B>, B, X3A, X3B>) where
    A: Compose<C, X1A, X1B>,
    Composition<A, C, X1A, X1B>: Compose<D, X2A, X2B>,
    Composition<Composition<A, C, X1A, X1B>, D, X2A, X2B>: Compose<B, X3A, X3B>,
    ensures
        r == comp::<_, _, X3A, X3B>(comp::<_, _, X2A, X2B>(comp::<_, _, X1A, X1B>(fa, fc), fd), fb),
{
    fa.compose(fc).compose(fd).compose(fb)
}

/// F* = Finch Once Removed: `λabcd.adcb`, built as `a ∘ d ∘ c ∘ b`.
///
/// What calling it computes: [`law_f_star`](crate::law_f_star), [`law_f_star_chain`](crate::law_f_star_chain).
pub fn f_star<A, B, C, D, X1A, X1B, X2A, X2B, X3A, X3B>(fa: A, fb: B, fc: C, fd: D) -> (r: Composition<Composition<Composition<A, D, X1A, X1B>, C, X2A, X2B>, B, X3A, X3B>) where
    A: Compose<D, X1A, X1B>,
    Composition<A, D, X1A, X1B>: Compose<C, X2A, X2B>,
    Composition<Composition<A, D, X1A, X1B>, C, X2A, X2B>: Compose<B, X3A, X3B>,
    ensures
        r == comp::<_, _, X3A, X3B>(comp::<_, _, X2A, X2B>(comp::<_, _, X1A, X1B>(fa, fd), fc), fb),
{
    fa.compose(fd).compose(fc).compose(fb)
}

/// V* = Vireo Once Removed: `λabcd.acbd`, built as `a ∘ c ∘ b ∘ d`.
///
/// What calling it computes: [`law_v_star`](crate::law_v_star), [`law_v_star_chain`](crate::law_v_star_chain).
pub fn v_star<A, B, C, D, X1A, X1B, X2A, X2B, X3A, X3B>(fa: A, fb: B, fc: C, fd: D) -> (r: Composition<Composition<Composition<A, C, X1A, X1B>, B, X2A, X2B>, D, X3A, X3B>) where
    A: Compose<C, X1A, X1B>,
    Composition<A, C, X1A, X1B>: Compose<B, X2A, X2B>,
    Composition<Composition<A, C, X1A, X1B>, B, X2A, X2B>: Compose<D, X3A, X3B>,
    ensures
        r == comp::<_, _, X3A, X3B>(comp::<_, _, X2A, X2B>(comp::<_, _, X1A, X1B>(fa, fc), fb), fd),
{
    fa.compose(fc).compose(fb).compose(fd)
}

/// I** = Identity Bird Twice Removed: `λabc.abc`, built as `a ∘ b ∘ c`.
///
/// What calling it computes: [`law_i_star_star`](crate::law_i_star_star), [`law_i_star_star_chain`](crate::law_i_star_star_chain).
pub fn i_star_star<A, B, C, X1A, X1B, X2A, X2B>(fa: A, fb: B, fc: C) -> (r: Composition<Composition<A, B, X1A, X1B>, C, X2A, X2B>) where
    A: Compose<B, X1A, X1B>,
    Composition<A, B, X1A, X1B>: Compose<C, X2A, X2B>,
    ensures
        r == comp::<_, _, X2A, X2B>(comp::<_, _, X1A, X1B>(fa, fb), fc),
{
    fa.compose(fb).compose(fc)
}

/// W** = Warbler Twice Removed: `λabcd.abcdd`, built as `a ∘ b ∘ c ∘ d ∘ d`, where
/// each `d` fills the argument that the reading gives it (see [`FourthAfterThird`] and
/// [`RepeatFourth`]).
///
/// What calling it computes: [`law_w_star_star`](crate::law_w_star_star), [`law_w_star_star_chain`](crate::law_w_star_star_chain), [`law_w_star_star_binary`](crate::law_w_star_star_binary), [`law_w_star_star_inner_binary`](crate::law_w_star_star_inner_binary), [`law_w_star_star_ternary`](crate::law_w_star_star_ternary), [`law_w_star_star_inner_ternary`](crate::law_w_star_star_inner_ternary).
pub fn w_star_star<A, B, C, D, X1A, X1B, X2A, X2B, X3A, X3B, X4A, X4B>(fa: A, fb: B, fc: C, fd: D) -> (r: Composition<Composition<Composition<Composition<A, B, X1A, X1B>, C, X2A, X2B>, D, X3A, X3B>, D, X4A, X4B>) where
    D: Copy,
    A: Compose<B, X1A, X1B>,
    Composition<A, B, X1A, X1B>: Compose<C, X2A, X2B>,
    Composition<Composition<A, B, X1A, X1B>, C, X2A, X2B>: FourthAfterThird<D, X3A, X3B>,
    Composition<Composition<Composition<A, B, X1A, X1B>, C, X2A, X2B>, D, X3A, X3B>: RepeatFourth<D, X4A, X4B>,
    ensures
        r == comp::<_, _, X4A, X4B>(comp::<_, _, X3A, X3B>(comp::<_, _, X2A, X2B>(comp::<_, _, X1A, X1B>(fa, fb), fc), fd), fd),
{
    fa.compose(fb).compose(fc).fourth_after_third(fd).repeat_fourth(fd)
}

/// C** = Cardinal Twice Removed: `λabcde.abced`, built as `a ∘ b ∘ c ∘ e ∘ d`.
///
/// What calling it computes: [`law_c_star_star`](crate::law_c_star_star), [`law_c_star_star_chain`](crate::law_c_star_star_chain).
pub fn c_star_star<A, B, C, D, E, X1A, X1B, X2A, X2B, X3A, X3B, X4A, X4B>(fa: A, fb: B, fc: C, fd: D, fe: E) -> (r: Composition<Composition<Composition<Composition<A, B, X1A, X1B>, C, X2A, X2B>, E, X3A, X3B>, D, X4A, X4B>) where
    A: Compose<B, X1A, X1B>,
    Composition<A, B, X1A, X1B>: Compose<C, X2A, X2B>,
    Composition<Composition<A, B, X1A, X1B>, C, X2A, X2B>: Compose<E, X3A, X3B>,
    Composition<Composition<Composition<A, B, X1A, X1B>, C, X2A, X2B>, E, X3A, X3B>: Compose<D, X4A, X4B>,
    ensures
        r == comp::<_, _, X4A, X4B>(comp::<_, _, X3A, X3B>(comp::<_, _, X2A, X2B>(comp::<_, _, X1A, X1B>(fa, fb), fc), fe), fd),
{
    fa.compose(fb).compose(fc).compose(fe).compose(fd)
}

/// R** = Robin Twice Removed: `λabcde.abdec`, built as `a ∘ b ∘ d ∘ e ∘ c`.
///
/// What calling it computes: [`law_r_star_star`](crate::law_r_star_star), [`law_r_star_star_chain`](crate::law_r_star_star_chain).
pub fn r_star_star<A, B, C, D, E, X1A, X1B, X2A, X2B, X3A, X3B, X4A, X4B>(fa: A, fb: B, fc: C, fd: D, fe: E) -> (r: Composition<Composition<Composition<Composition<A, B, X1A, X1B>, D, X2A, X2B>, E, X3A, X3B>, C, X4A, X4B>) where
    A: Compose<B, X1A, X1B>,
    Composition<A, B, X1A, X1B>: Compose<D, X2A, X2B>,
    Composition<Composition<A, B, X1A, X1B>, D, X2A, X2B>: Compose<E, X3A, X3B>,
    Composition<Composition<Composition<A, B, X1A, X1B>, D, X2A, X2B>, E, X3A, X3B>: Compose<C, X4A, X4B>,
    ensures
        r == comp::<_, _, X4A, X4B>(comp::<_, _, X3A, X3B>(comp::<_, _, X2A, X2B>(comp::<_, _, X1A, X1B>(fa, fb), fd), fe), fc),
{
    fa.compose(fb).compose(fd).compose(fe).compose(fc)
}

/// F** = Finch Twice Removed: `λabcde.abedc`, built as `a ∘ b ∘ e ∘ d ∘ c`.
///
/// What calling it computes: [`law_f_star_star`](crate::law_f_star_star), [`law_f_star_star_chain`](crate::law_f_star_star_chain).
pub fn f_star_star<A, B, C, D, E, X1A, X1B, X2A, X2B, X3A, X3B, X4A, X4B>(fa: A, fb: B, fc: C, fd: D, fe: E) -> (r: Composition<Composition<Composition<Composition<A, B, X1A, X1B>, E, X2A, X2B>, D, X3A, X3B>, C, X4A, X4B>) where
    A: Compose<B, X1A, X1B>,
    Composition<A, B, X1A, X1B>: Compose<E, X2A, X2B>,
    Composition<Composition<A, B, X1A, X1B>, E, X2A, X2B>: Compose<D, X3A, X3B>,
    Composition<Composition<Composition<A, B, X1A, X1B>, E, X2A, X2B>, D, X3A, X3B>: Compose<C, X4A, X4B>,
    ensures
        r == comp::<_, _, X4A, X4B>(comp::<_, _, X3A, X3B>(comp::<_, _, X2A, X2B>(comp::<_, _, X1A, X1B>(fa, fb), fe), fd), fc),
{
    fa.compose(fb).compose(fe).compose(fd).compose(fc)
}

/// V** = Vireo Twice Removed: `λabcde.abecd`, built as `a ∘ b ∘ e ∘ c ∘ d`.
///
/// What calling it computes: [`law_v_star_star`](crate::law_v_star_star), [`law_v_star_star_chain`](crate::law_v_star_star_chain).
pub fn v_star_star<A, B, C, D, E, X1A, X1B, X2A, X2B, X3A, X3B, X4A, X4B>(fa: A, fb: B, fc: C, fd: D, fe: E) -> (r: Composition<Composition<Composition<Composition<A, B, X1A, X1B>, E, X2A, X2B>, C, X3A, X3B>, D, X4A, X4B>) where
    A: Compose<B, X1A, X1B>,
    Composition<A, B, X1A, X1B>: Compose<E, X2A, X2B>,
    Composition<Composition<A, B, X1A, X1B>, E, X2A, X2B>: Compose<C, X3A, X3B>,
    Composition<Composition<Composition<A, B, X1A, X1B>, E, X2A, X2B>, C, X3A, X3B>: Compose<D, X4A, X4B>,
    ensures
        r == comp::<_, _, X4A, X4B>(comp::<_, _, X3A, X3B>(comp::<_, _, X2A, X2B>(comp::<_, _, X1A, X1B>(fa, fb), fe), fc), fd),
{
    fa.compose(fb).compose(fe).compose(fc).compose(fd)
}

/// KM = Constant Mocker: `λab.bb`, built as `b ∘ b`.
///
/// What calling it computes: [`law_km`](crate::law_km).
pub fn km<A, B, X1A, X1B>(fa: A, fb: B) -> (r: Composition<B, B, X1A, X1B>) where
    B: Compose<B, X1A, X1B> + Copy,
    ensures
        r == comp::<_, _, X1A, X1B>(fb, fb),
{
    fb.compose(fb)
}

/// C(KM) = Crossed Constant Mocker: `λab.aa`, built as `a ∘ a`.
///
/// What calling it computes: [`law_ckm`](crate::law_ckm).
pub fn ckm<A, B, X1A, X1B>(fa: A, fb: B) -> (r: Composition<A, A, X1A, X1B>) where
    A: Compose<A, X1A, X1B> + Copy,
    ensures
        r == comp::<_, _, X1A, X1B>(fa, fa),
{
    fa.compose(fa)
}

} // verus!
