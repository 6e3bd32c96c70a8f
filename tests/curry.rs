use combinator_birds::{Compose, Curry, Func, Invocable0, Invocable1, Invocable2, Invocable3};

#[test]
fn curry_binds_the_last_argument() {
    let f = |x: i32, y: i32| x * 10 + y;
    let g = Func(f).curry(7);
    assert_eq!(g.invoke1(3), 37);
    for x in -50..=50 {
        assert_eq!(g.invoke1(x), f(x, 7));
    }
}

#[test]
fn curry_down_to_no_argument() {
    let inc = Func(|x: u8| x + 1).curry(4u8);
    assert_eq!(inc.invoke0(), 5);
    let f3 = |x: i64, y: i64, z: i64| x * 100 + y * 10 + z;
    let g = Func(f3).curry(3).curry(2).curry(1);
    assert_eq!(g.invoke0(), 123);
    let h = Func(f3).curry(9);
    assert_eq!(h.invoke2(1, 2), 129);
    let four = |w: i64, x: i64, y: i64, z: i64| w * 1000 + x * 100 + y * 10 + z;
    assert_eq!(Func(four).curry(4).invoke3(1, 2, 3), 1234);
}

#[test]
fn curried_callables_compose() {
    let add = |x: u32, y: u32| x + y;
    let double = |x: u8| x as u32 * 2;
    let f = Func(add).curry(100).compose(Func(double));
    for x in 0..=255u8 {
        assert_eq!(f.invoke1(x), x as u32 * 2 + 100);
    }
}
