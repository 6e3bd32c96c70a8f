use combinator_birds::{Compose, Func, Invocable1, Invocable2, Invocable3, Invocable4};

#[test]
fn identity_returns_its_argument() {
    let a = |x: u8| x as u32 * 3;
    let f = combinator_birds::i(Func(a));
    for x in 0..=255u8 {
        assert_eq!(f.invoke1(x), a(x));
    }
    assert_eq!(combinator_birds::i(42u64), 42);
    assert_eq!(combinator_birds::k(1u8, "dropped"), 1);
    assert_eq!(combinator_birds::ki("dropped", 2u8), 2);
}

#[test]
fn mockingbird_applies_twice() {
    let a = |x: u32| x * 3 + 1;
    let f = combinator_birds::m(Func(a));
    for x in 0..=255u32 {
        assert_eq!(f.invoke1(x), a(a(x)));
    }
    assert_eq!(f.invoke1(2), 22);
}

#[test]
fn warbler_passes_its_second_argument_twice() {
    let a = |x: i32, y: i32| x * 10 + y;
    let b = |x: i32| x - 1;
    let f = combinator_birds::w(Func(a), Func(b));
    assert_eq!(f.invoke2(3, 5), 24);
    for x in -20..=20 {
        for y in -20..=20 {
            assert_eq!(f.invoke2(x, y), a(b(x), b(y)));
        }
    }
}

#[test]
fn cardinal_swaps_its_second_and_third_arguments() {
    let a = |x: i32, y: i32| x * 100 + y;
    let b = |x: i32| x + 1;
    let c = |x: i32| x * 2;
    let f = combinator_birds::c(Func(a), Func(b), Func(c));
    assert_eq!(f.invoke2(3, 5), 606);
    for x in -20..=20 {
        for y in -20..=20 {
            assert_eq!(f.invoke2(x, y), a(c(x), b(y)));
        }
    }
}

#[test]
fn regrouping_keeps_results() {
    let a = |x: u32| x + 7;
    let b = |x: u32| x * 3;
    let c = |x: u8| x as u32;
    let left = Func(a).compose(Func(b)).compose(Func(c));
    let right = Func(a).compose(Func(b).compose(Func(c)));
    for x in 0..=255u8 {
        assert_eq!(left.invoke1(x), right.invoke1(x));
        assert_eq!(left.invoke1(x), a(b(c(x))));
    }
}

#[test]
fn regrouping_keeps_results_when_curried() {
    let a = |x: i64| x - 1;
    let b = |x: i64, t: i64| x * 1000 + t;
    let c = |x: i64| x * 2;
    let left = Func(a).compose(Func(b)).compose(Func(c));
    let right = Func(a).compose(Func(b).compose(Func(c)));
    assert_eq!(left.invoke2(5, 3), 6004);
    assert_eq!(right.invoke2(5, 3), 6004);
    for t in -10..=10 {
        for x in -10..=10 {
            assert_eq!(left.invoke2(t, x), right.invoke2(t, x));
        }
    }
}

#[test]
fn curried_composition_moves_inner_arguments_last() {
    let g = |x: i32, y: i32| x * 10 + y;
    let f = |x: i32| x + 1;
    let gf = Func(g).compose(Func(f));
    assert_eq!(gf.invoke2(4, 2), 34);
    let gff = gf.compose(Func(f));
    assert_eq!(gff.invoke2(2, 4), 35);
}

#[test]
fn composition_with_three_and_four_argument_outer() {
    let g3 = |x: i32, y: i32, z: i32| x * 100 + y * 10 + z;
    let g4 = |w: i32, x: i32, y: i32, z: i32| w * 1000 + x * 100 + y * 10 + z;
    let neg = |x: i32| -x;
    let f3 = Func(g3).compose(Func(neg));
    assert_eq!(f3.invoke3(2, 3, 1), -100 + 23);
    let f4 = Func(g4).compose(Func(neg));
    assert_eq!(f4.invoke4(2, 3, 4, 1), -1000 + 234);
}

#[test]
fn bluebird_scenario_truncate_sqrt_widen() {
    let a = |x: f32| x as u8;
    let b = |x: f32| x.sqrt();
    let c = |x: u8| x as f32;
    let f = combinator_birds::b(Func(a), Func(b), Func(c));
    for x in 0..=255u8 {
        assert_eq!(f.invoke1(x), a(b(c(x))));
    }
    assert_eq!(f.invoke1(255), 15);
    assert_eq!(f.invoke1(16), 4);
}

#[test]
fn thrush_scenario_square_then_sqrt() {
    let a = |x: u8| (x as f32).powi(2);
    let b = |x: f32| x.sqrt();
    let f = combinator_birds::t(Func(a), Func(b));
    for x in 0..=255u8 {
        assert_eq!(f.invoke1(x), b(a(x)));
        assert_eq!(f.invoke1(x), x as f32);
    }
}

#[test]
fn warbler_once_removed_gives_the_repeated_callable_to_itself() {
    let a = |x: u32, y: u32| x * 1000 + y;
    let b = |x: u32| x + 1;
    let c = |x: u32| x * 2;
    let f = combinator_birds::w_star(Func(a), Func(b), Func(c));
    assert_eq!(f.invoke2(3, 5), 4020);
    let a3 = |x: u32, y: u32, z: u32| x * 100 + y * 10 + z;
    let g = combinator_birds::w_star(Func(a3), Func(b), Func(c));
    assert_eq!(g.invoke3(1, 2, 3), 246);
}

#[test]
fn warbler_twice_removed_gives_the_repeated_callable_to_itself() {
    let a = |x: u32, y: u32| x * 1000 + y;
    let b = |x: u32| x + 1;
    let c = |x: u32| x + 100;
    let d = |x: u32| x * 2;
    let f = combinator_birds::w_star_star(Func(a), Func(b), Func(c), Func(d));
    assert_eq!(f.invoke2(3, 5), 4120);
    let a3 = |x: u32, y: u32, z: u32| x * 10000 + y * 100 + z;
    let g = combinator_birds::w_star_star(Func(a3), Func(b), Func(c), Func(d));
    assert_eq!(g.invoke3(1, 2, 3), 20000 + 10200 + 12);
}
