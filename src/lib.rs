//! Classical combinators ("birds" such as Bluebird, Cardinal or Starling) built on one
//! engine: the composition of two callables, whose argument shape is fixed when the
//! composition is built.
//!
//! - `invoke`: one trait per argument shape ([`Invocable0`] to [`Invocable4`]), each with a
//!   precondition (`acceptsN`) and a result relation (`yieldsN`), and [`Func`] and
//!   [`Overloaded`] to use plain functions and closures at those shapes.
//! - `compose`: [`Composition`] and [`Compose`]; `outer ∘ inner` runs `inner` and hands its
//!   result to `outer` as first argument, the rest of `outer`'s arguments coming first.
//!   [`ComposeLast`] builds the composition that hands it over as `outer`'s last argument.
//! - `curry`: [`Curry`] binds the last argument of a callable, giving a [`Curried`] one.
//! - `wiring`: where W* and W** place their repeated callable, by arity.
//! - `birds`: the catalog, each combinator a fixed wiring of compositions.
//! - `fixed_point`: Y, Θ and Ω, unbounded self-application that ends only when the step
//!   escapes.
//! - `laws` and `grouping`: what the catalog means, proved for every callable.

mod birds;
mod compose;
mod curry;
mod fixed_point;
mod grouping;
mod invoke;
mod laws;
mod wiring;

pub use birds::{
    i, k, ki, b, b1, b2, b3, c, d, d1, d2, e, e_hat, f, g, h, j, l, m, m2, o, q, q1, q2, q3, q4, r,
    s, t, u, v, w, w1, i_star, w_star, c_star, r_star, f_star, v_star, i_star_star, w_star_star,
    c_star_star, r_star_star, f_star_star, v_star_star, km, ckm,
};
pub use compose::{comp, Compose, ComposeLast, Composition, Last};
pub use curry::{Curried, Curry};
pub use fixed_point::{
    escapes_along, escapes_within, fixed, is_orbit, law_fixed_point_applications,
    lemma_omega_never_escapes, omega, runs_through, theta, y, Fixed, Spin,
};
pub use grouping::{law_regroup, law_regroup_curried};
pub use invoke::{Func, Invocable0, Invocable1, Invocable2, Invocable3, Invocable4, Overloaded};
pub use wiring::{FourthAfterThird, RepeatFourth, RepeatThird};
pub use laws::{
    law_b, law_b1, law_b1_chain, law_b2, law_b2_chain, law_b3, law_c, law_c_chain, law_d,
    law_d_chain, law_d1, law_d1_chain, law_d2, law_d2_chain, law_e, law_e_chain, law_e_hat,
    law_e_hat_chain, law_f, law_f_chain, law_g, law_g_chain, law_h, law_h_chain, law_j, law_j_chain,
    law_l, law_m, law_m2, law_m2_chain, law_o, law_q, law_q1, law_q2, law_q3, law_q4, law_r,
    law_r_chain, law_s, law_s_chain, law_t, law_u, law_u_chain, law_v, law_v_chain, law_w,
    law_w_chain, law_w1, law_w1_chain, law_i_star, law_w_star, law_w_star_chain, law_c_star,
    law_c_star_chain, law_r_star, law_r_star_chain, law_f_star, law_f_star_chain, law_v_star,
    law_v_star_chain, law_i_star_star, law_i_star_star_chain, law_w_star_star,
    law_w_star_star_chain, law_c_star_star, law_c_star_star_chain, law_r_star_star,
    law_r_star_star_chain, law_f_star_star, law_f_star_star_chain, law_v_star_star,
    law_v_star_star_chain, law_km, law_ckm, law_w_star_binary, law_w_star_inner_binary,
    law_w_star_star_binary, law_w_star_star_ternary, law_w_star_star_inner_binary,
    law_w_star_star_inner_ternary, law_b_arity_0, law_t_arity_0, law_i_star_arity_0, law_b_arity_2,
    law_t_arity_2, law_i_star_arity_2, law_b_arity_3, law_t_arity_3, law_i_star_arity_3,
    law_b_arity_4, law_t_arity_4, law_i_star_arity_4,
};
