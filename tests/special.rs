use std::cell::RefCell;
use std::ops::ControlFlow;

use combinator_birds::{Compose, Func, Invocable1, Invocable2, Invocable3, Overloaded, Spin};

fn a_2(x: f32, y: f32) -> f32 {
    (x + y * y).sqrt()
}

fn a_1(x: f32) -> f32 {
    x.sqrt()
}

#[test]
fn test_j() {
    {
        let a = |x: f32, y: f32| (x + y * y).sqrt();
        let b = |x: u8| (x as f32).powi(2);
        let c = |x: u8| x as f32 * 3.0;
        let d = |x: u8| (x as f32 * 2.0).powi(2);

        let f = combinator_birds::j(Func(a), Func(b), Func(c), Func(d));
        let f_eqv = |x, y, z| a(b(x), a(d(y), c(z)));

        for i in 0..=255 {
            for j in 0..=255 {
                for k in 0..=255 {
                    assert_eq!(f.invoke3(i, j, k), f_eqv(i, j, k))
                }
            }
        }
    }
    {
        let a = Overloaded { one: a_1, two: a_2 };
        let b = |x: u8| (x as f32 * 2.0).powi(2);
        let c = |x: u8| x as f32;
        let d = |x: f32| x * x;

        let f = combinator_birds::j::<_, _, _, _, (f32, f32), _, (f32,), _, _, _, _, _>(
            a,
            Func(b),
            Func(c),
            Func(d),
        );
        let f_eqv = |x, y| a_2(b(x), a_1(d(c(y))));

        for i in 0..=255 {
            for j in 0..=255 {
                assert_eq!(f.invoke2(i, j), f_eqv(i, j))
            }
        }
    }
    {
        let a = Overloaded { one: a_1, two: a_2 };
        let b = |x: f32| x * x;
        let c = |x: u8| x as f32;
        let d = |x: u8| (x as f32 * 2.0).powi(2);

        let f = combinator_birds::j::<_, _, _, _, (f32,), _, (f32, f32), _, _, _, _, _>(
            a,
            Func(b),
            Func(c),
            Func(d),
        );
        let f_eqv = |x, y| a_1(b(a_2(d(x), c(y))));

        for i in 0..=255 {
            for j in 0..=255 {
                assert_eq!(f.invoke2(i, j), f_eqv(i, j))
            }
        }
    }
    {
        let a = |x: f32| x.sqrt();
        let b = |x: f32| x * x;
        let c = |x: u8| x as f32;
        let d = |x: f32| x * x * 2.0;

        let f = combinator_birds::j(Func(a), Func(b), Func(c), Func(d));
        let f_eqv = |x| a(b(a(d(c(x)))));

        for i in 0..=255 {
            assert_eq!(f.invoke1(i), f_eqv(i))
        }
    }
}

#[test]
fn test_m2() {
    {
        let a = Overloaded { one: a_1, two: a_2 };
        let b = |x: u8| (x as f32 * 2.0).powi(2);

        let f = combinator_birds::m2::<_, _, (f32, f32), _, (f32,), _, _, _>(a, Func(b));
        let f_eqv = |x, y| a_2(b(x), a_1(b(y)));

        for i in 0..=255 {
            for j in 0..=255 {
                assert_eq!(f.invoke2(i, j), f_eqv(i, j))
            }
        }
    }
    {
        let a = |x: u8| x * 2;
        let b = |x: u8| x / 3;

        let f = combinator_birds::m2(Func(a), Func(b));
        let f_eqv = |x| a(b(a(b(x))));

        for i in 0..=255 {
            assert_eq!(f.invoke1(i), f_eqv(i))
        }
    }
}

#[test]
fn test_y() {
    let result = RefCell::new(vec![]);
    let a = |i: u8| {
        result.borrow_mut().push(i);
        if i == 255 {
            ControlFlow::Break(i)
        } else {
            ControlFlow::Continue(i + 1)
        }
    };

    let f = combinator_birds::y(Func(a));
    let escaped = f.invoke1(0);

    assert_eq!(escaped, 255);
    assert_eq!(result.borrow().clone(), (0..=255).collect::<Vec<u8>>());
}

#[test]
fn test_theta() {
    let result = RefCell::new(vec![]);
    let a = |i: u8| {
        result.borrow_mut().push(i);
        if i == 255 {
            ControlFlow::Break(i)
        } else {
            ControlFlow::Continue(i + 1)
        }
    };

    let f = combinator_birds::theta(Func(a));
    let escaped = f.invoke1(0);

    assert_eq!(escaped, 255);
    assert_eq!(result.borrow().clone(), (0..=255).collect::<Vec<u8>>());
}

#[test]
fn it_works() {
    let f0 = |x: u8| x / 3;
    let f1 = |x: u8| x * 2;
    let f2 = |a: u8, b: u8| a + b;

    let f2c = Func(f2).compose(Func(|| 1));
    let y = f2c.invoke1(1);
    assert_eq!(y, 2);

    let f = combinator_birds::i_star_star(Func(f0), Func(f1), Func(f2));
    let y = f.invoke2(1, 1);
    println!("{y}");
    assert_eq!(y, 1);

    let f = combinator_birds::o(Func(f0), Func(f1));
    let y = f.invoke1(1);
    println!("{y}");
    assert_eq!(y, 0);
}

#[test]
fn fixed_point_escaping_at_once_applies_the_step_once() {
    let calls = RefCell::new(0u32);
    let a = |x: u32| {
        *calls.borrow_mut() += 1;
        ControlFlow::<u32, u32>::Break(x * 10)
    };
    let f = combinator_birds::y(Func(a));
    assert_eq!(f.invoke1(7), 70);
    assert_eq!(*calls.borrow(), 1);
}

#[test]
fn fixed_point_runs_through_a_countdown_in_order() {
    let seen = RefCell::new(vec![]);
    let a = |x: u32| {
        seen.borrow_mut().push(x);
        if x == 0 {
            ControlFlow::Break("done")
        } else {
            ControlFlow::Continue(x - 1)
        }
    };
    let f = combinator_birds::theta(Func(a));
    assert_eq!(f.invoke1(5), "done");
    assert_eq!(seen.borrow().clone(), vec![5, 4, 3, 2, 1, 0]);
}

#[test]
fn omega_step_always_goes_on() {
    let f = combinator_birds::omega();
    assert_eq!(f.func.step.invoke1(()), ControlFlow::Continue(()));
    assert_eq!(Spin.invoke1(()), ControlFlow::Continue(()));
}
