use combinator_birds::{Func, Invocable1, Invocable2, Invocable3, Invocable4};

#[test]
fn test_b()
{
    let a = |x: f32| x as u8;
    let b = |x: f32| x.sqrt();
    let c = |x: u8| x as f32;
    
    let f = combinator_birds::b(Func(a), Func(b), Func(c));
    let f_eqv = |x| a(b(c(x)));

    for i in 0..=255
    {
        assert_eq!(f.invoke1(i), f_eqv(i))
    }
}

#[test]
fn test_b1()
{
    {
        let a = |x: f32| x.sqrt();
        let b = |x: f32, y: f32| x + y/2.0;
        let c = |x: u8| (x as f32).powi(2);
        let d = |x: u8| (x as f32*2.0).powi(2);

        let f = combinator_birds::b1(Func(a), Func(b), Func(c), Func(d));
        let f_eqv = |x, y| a(b(c(x), d(y)));
        
        for i in 0..=255
        {
            for j in 0..=255
            {
                assert_eq!(f.invoke2(i, j), f_eqv(i, j))
            }
        }
    }
    {
        let a = |x: f32| x.sqrt();
        let b = |x: f32| x + 1.0;
        let c = |x: f32| x*x;
        let d = |x: u8| x as f32;

        let f = combinator_birds::b1(Func(a), Func(b), Func(c), Func(d));
        let f_eqv = |x| a(b(c(d(x))));
        
        for i in 0..=255
        {
            assert_eq!(f.invoke1(i), f_eqv(i))
        }
    }
}

#[test]
fn test_b2()
{
    {
        let a = |x: f32| x.sqrt();
        let b = |x: f32, y: f32, z: f32| x + y/2.0 + z/3.0;
        let c = |x: u8| (x as f32).powi(2);
        let d = |x: u8| (x as f32*2.0).powi(2);
        let e = |x: u8| (x as f32*3.0).powi(2);

        let f = combinator_birds::b2(Func(a), Func(b), Func(c), Func(d), Func(e));
        let f_eqv = |x, y, z| a(b(c(x), d(y), e(z)));
        
        for i in 0..=255
        {
            for j in 0..=255
            {
                for k in 0..=255
                {
                    assert_eq!(f.invoke3(i, j, k), f_eqv(i, j, k))
                }
            }
        }
    }
    {
        let a = |x: f32| x.sqrt();
        let b = |x: f32| x*2.0;
        let c = |x: f32, y: f32| x + y/5.0;
        let d = |x: u8| (x as f32).powi(2);
        let e = |x: u8| (x as f32*2.0).powi(2);

        let f = combinator_birds::b2(Func(a), Func(b), Func(c), Func(d), Func(e));
        let f_eqv = |x, y| a(b(c(d(x), e(y))));
        
        for i in 0..=255
        {
            for j in 0..=255
            {
                assert_eq!(f.invoke2(i, j), f_eqv(i, j))
            }
        }
    }
    {
        let a = |x: f32| x.sqrt();
        let b = |x: f32| x + 1.0;
        let c = |x: f32| x*2.0;
        let d = |x: f32| x*x;
        let e = |x: u8| x as f32;

        let f = combinator_birds::b2(Func(a), Func(b), Func(c), Func(d), Func(e));
        let f_eqv = |x| a(b(c(d(e(x)))));
        
        for i in 0..=255
        {
            assert_eq!(f.invoke1(i), f_eqv(i))
        }
    }
}

#[test]
fn test_b3()
{
    let a = |x: f32| x.sqrt();
    let b = |x: f32| x + 1.0;
    let c = |x: f32| x*x;
    let d = |x: u8| x as f32;

    let f = combinator_birds::b3(Func(a), Func(b), Func(c), Func(d));
    let f_eqv = |x| a(b(c(d(x))));
    
    for i in 0..=255
    {
        assert_eq!(f.invoke1(i), f_eqv(i))
    }
}

#[test]
fn test_c()
{
    {
        let a = |x: f32, y: f32| (x + y/2.0).sqrt();
        let b = |x: u8| (x as f32).powi(2);
        let c = |x: u8| (x as f32*2.0).powi(2);
        
        let f = combinator_birds::c(Func(a), Func(b), Func(c));
        let f_eqv = |x, y| a(c(x), b(y));

        for i in 0..=255
        {
            for j in 0..=255
            {
                assert_eq!(f.invoke2(i, j), f_eqv(i, j))
            }
        }
    }
    {
        let a = |x: f32| x as u8;
        let b = |x: u8| x as f32;
        let c = |x: f32| x.sqrt();
        
        let f = combinator_birds::c(Func(a), Func(b), Func(c));
        let f_eqv = |x| a(c(b(x)));

        for i in 0..=255
        {
            assert_eq!(f.invoke1(i), f_eqv(i))
        }
    }
}

#[test]
fn test_d()
{
    {
        let a = |x: f32, y: f32| (x + y/2.0).sqrt();
        let b = |x: u8| (x as f32).powi(2);
        let c = |x: f32| x*x;
        let d = |x: u8| x as f32*2.0;
        
        let f = combinator_birds::d(Func(a), Func(b), Func(c), Func(d));
        let f_eqv = |x, y| a(b(x), c(d(y)));

        for i in 0..=255
        {
            for j in 0..=255
            {
                assert_eq!(f.invoke2(i, j), f_eqv(i, j))
            }
        }
    }
    {
        let a = |x: f32| x.sqrt();
        let b = |x: f32| x + 1.0;
        let c = |x: f32| x*x;
        let d = |x: u8| x as f32;

        let f = combinator_birds::d(Func(a), Func(b), Func(c), Func(d));
        let f_eqv = |x| a(b(c(d(x))));
        
        for i in 0..=255
        {
            assert_eq!(f.invoke1(i), f_eqv(i))
        }
    }
}

#[test]
fn test_d1()
{
    {
        let a = |x: f32, y: f32, z: f32| (x + y/2.0 + z/3.0).sqrt();
        let b = |x: u8| (x as f32).powi(2);
        let c = |x: u8| (x as f32*2.0).powi(2);
        let d = |x: f32| x*x;
        let e = |x: u8| x as f32*3.0;
        
        let f = combinator_birds::d1(Func(a), Func(b), Func(c), Func(d), Func(e));
        let f_eqv = |x, y, z| a(b(x), c(y), d(e(z)));

        for i in 0..=255
        {
            for j in 0..=255
            {
                for k in 0..=255
                {
                    assert_eq!(f.invoke3(i, j, k), f_eqv(i, j, k))
                }
            }
        }
    }
    {
        let a = |x: f32| x.sqrt();
        let b = |x: f32, y: f32| x + y/2.0;
        let c = |x: u8| x as f32;
        let d = |x: f32| x*x;
        let e = |x: u8| x as f32*2.0;
        
        let f = combinator_birds::d1(Func(a), Func(b), Func(c), Func(d), Func(e));
        let f_eqv = |x, y| a(b(c(x), d(e(y))));

        for i in 0..=255
        {
            for j in 0..=255
            {
                assert_eq!(f.invoke2(i, j), f_eqv(i, j))
            }
        }
    }
    {
        let a = |x: f32| x.sqrt();
        let b = |x: f32| x + 1.0;
        let c = |x: f32| x*2.0;
        let d = |x: f32| x*x;
        let e = |x: u8| x as f32;
        
        let f = combinator_birds::d1(Func(a), Func(b), Func(c), Func(d), Func(e));
        let f_eqv = |x| a(b(c(d(e(x)))));

        for i in 0..=255
        {
            assert_eq!(f.invoke1(i), f_eqv(i))
        }
    }
}

#[test]
fn test_d2()
{
    {
        let a = |x: f32, y: f32| (x + y/2.0).sqrt();
        let b = |x: f32| x*x;
        let c = |x: u8| x as f32;
        let d = |x: f32| x*x*3.0;
        let e = |x: u8| x as f32*2.0;
        
        let f = combinator_birds::d2(Func(a), Func(b), Func(c), Func(d), Func(e));
        let f_eqv = |x, y| a(b(c(x)), d(e(y)));

        for i in 0..=255
        {
            for j in 0..=255
            {
                assert_eq!(f.invoke2(i, j), f_eqv(i, j))
            }
        }
    }
    {
        let a = |x: f32| x.sqrt();
        let b = |x: f32| x + 1.0;
        let c = |x: f32| x*2.0;
        let d = |x: f32| x*x;
        let e = |x: u8| x as f32;
        
        let f = combinator_birds::d2(Func(a), Func(b), Func(c), Func(d), Func(e));
        let f_eqv = |x| a(b(c(d(e(x)))));

        for i in 0..=255
        {
            assert_eq!(f.invoke1(i), f_eqv(i))
        }
    }
}

#[test]
fn test_e()
{
    {
        let a = |x: f32, y: f32| (x + y/2.0).sqrt();
        let b = |x: u8| (x as f32).powi(2);
        let c = |x: f32, y: f32| x + y/3.0;
        let d = |x: u8| (x as f32*2.0).powi(2);
        let e = |x: u8| (x as f32*3.0).powi(2);
        
        let f = combinator_birds::e(Func(a), Func(b), Func(c), Func(d), Func(e));
        let f_eqv = |x, y, z| a(b(x), c(d(y), e(z)));

        for i in 0..=255
        {
            for j in 0..=255
            {
                for k in 0..=255
                {
                    assert_eq!(f.invoke3(i, j, k), f_eqv(i, j, k))
                }
            }
        }
    }
    {
        let a = |x: f32, y: f32| (x + y/5.0).sqrt();
        let b = |x: u8| (x as f32).powi(2);
        let c = |x: f32| x*2.0;
        let d = |x: f32| x*x;
        let e = |x: u8| x as f32*3.0;
        
        let f = combinator_birds::e(Func(a), Func(b), Func(c), Func(d), Func(e));
        let f_eqv = |x, y| a(b(x), c(d(e(y))));

        for i in 0..=255
        {
            for j in 0..=255
            {
                assert_eq!(f.invoke2(i, j), f_eqv(i, j))
            }
        }
    }
    {
        let a = |x: f32| x.sqrt();
        let b = |x: f32| x + 1.0;
        let c = |x: f32, y: f32| x + y/2.0;
        let d = |x: u8| (x as f32).powi(2);
        let e = |x: u8| (x as f32*2.0).powi(2);
        
        let f = combinator_birds::e(Func(a), Func(b), Func(c), Func(d), Func(e));
        let f_eqv = |x, y| a(b(c(d(x), e(y))));

        for i in 0..=255
        {
            for j in 0..=255
            {
                assert_eq!(f.invoke2(i, j), f_eqv(i, j))
            }
        }
    }
    {
        let a = |x: f32| x.sqrt();
        let b = |x: f32| x + 1.0;
        let c = |x: f32| x*2.0;
        let d = |x: f32| x*x;
        let e = |x: u8| x as f32;
        
        let f = combinator_birds::e(Func(a), Func(b), Func(c), Func(d), Func(e));
        let f_eqv = |x| a(b(c(d(e(x)))));

        for i in 0..=255
        {
            assert_eq!(f.invoke1(i), f_eqv(i))
        }
    }
}

#[test]
fn test_e_hat()
{
    {
        let a = |x: f32, y: f32| (x + y/2.0).sqrt();
        let b = |x: f32, y: f32| x + y/3.0;
        let c = |x: u8| (x as f32).powi(2);
        let d = |x: u8| (x as f32*2.0).powi(2);
        let e = |x: f32, y: f32| x + y/4.0;
        let f = |x: u8| (x as f32*3.0).powi(2);
        let g = |x: u8| (x as f32*4.0).powi(2);
        
        let f_ = combinator_birds::e_hat(Func(a), Func(b), Func(c), Func(d), Func(e), Func(f), Func(g));
        let f_eqv = |x, y, z, w| a(b(c(x), d(y)), e(f(z), g(w)));

        for i in (0..=255).step_by(15)
        {
            for j in (0..=255).step_by(15)
            {
                for k in (0..=255).step_by(15)
                {
                    for l in (0..=255).step_by(15)
                    {
                        assert_eq!(f_.invoke4(i, j, k, l), f_eqv(i, j, k, l))
                    }
                }
            }
        }
    }
    {
        let a = |x: f32, y: f32| (x + y/2.0).sqrt();
        let b = |x: f32, y: f32| x + y/3.0;
        let c = |x: u8| (x as f32*2.0).powi(2);
        let d = |x: u8| (x as f32*3.0).powi(2);
        let e = |x: f32| x*x;
        let f = |x: f32| x - 1.0;
        let g = |x: u8| x as f32;
        
        let f_ = combinator_birds::e_hat(Func(a), Func(b), Func(c), Func(d), Func(e), Func(f), Func(g));
        let f_eqv = |x, y, z| a(b(c(x), d(y)), e(f(g(z))));

        for i in 0..=255
        {
            for j in 0..=255
            {
                for k in 0..=255
                {
                    assert_eq!(f_.invoke3(i, j, k), f_eqv(i, j, k))
                }
            }
        }
    }
    {
        let a = |x: f32, y: f32| (x + y/2.0).sqrt();
        let b = |x: f32| x*x;
        let c = |x: f32| x - 1.0;
        let d = |x: u8| x as f32;
        let e = |x: f32, y: f32| x + y/3.0;
        let f = |x: u8| (x as f32*2.0).powi(2);
        let g = |x: u8| (x as f32*3.0).powi(2);
        
        let f_ = combinator_birds::e_hat(Func(a), Func(b), Func(c), Func(d), Func(e), Func(f), Func(g));
        let f_eqv = |x, y, z| a(b(c(d(x))), e(f(y), g(z)));

        for i in 0..=255
        {
            for j in 0..=255
            {
                for k in 0..=255
                {
                    assert_eq!(f_.invoke3(i, j, k), f_eqv(i, j, k))
                }
            }
        }
    }
    {
        let a = |x: f32, y: f32| (x + y/2.0).sqrt();
        let b = |x: f32| x*x*3.0;
        let c = |x: f32| x - 1.0;
        let d = |x: u8| x as f32;
        let e = |x: f32| x*x;
        let f = |x: f32| x - 5.0;
        let g = |x: u8| x as f32*2.0;
        
        let f_ = combinator_birds::e_hat(Func(a), Func(b), Func(c), Func(d), Func(e), Func(f), Func(g));
        let f_eqv = |x, y| a(b(c(d(x))), e(f(g(y))));

        for i in 0..=255
        {
            for j in 0..=255
            {
                assert_eq!(f_.invoke2(i, j), f_eqv(i, j))
            }
        }
    }
    {
        let a = |x: f32| x.sqrt();
        let b = |x: f32| x % 1.0;
        let c = |x: f32| x - 1.0;
        let d = |x: f32| x*4.0;
        let e = |x: f32, y: f32| x + y/2.0;
        let f = |x: u8| (x as f32).powi(2);
        let g = |x: u8| (x as f32*2.0).powi(2);
        
        let f_ = combinator_birds::e_hat(Func(a), Func(b), Func(c), Func(d), Func(e), Func(f), Func(g));
        let f_eqv = |x, y| a(b(c(d(e(f(x), g(y))))));

        for i in 0..=255
        {
            for j in 0..=255
            {
                assert_eq!(f_.invoke2(i, j), f_eqv(i, j))
            }
        }
    }
    {
        let a = |x: f32| x.sqrt();
        let b = |x: f32| x % 1.0;
        let c = |x: f32| x - 1.0;
        let d = |x: f32| x*4.0;
        let e = |x: f32| x - 3.0;
        let f = |x: f32| x*x;
        let g = |x: u8| x as f32;
        
        let f_ = combinator_birds::e_hat(Func(a), Func(b), Func(c), Func(d), Func(e), Func(f), Func(g));
        let f_eqv = |x| a(b(c(d(e(f(g(x)))))));

        for i in 0..=255
        {
            assert_eq!(f_.invoke1(i), f_eqv(i))
        }
    }
}

#[test]
fn test_f()
{
    {
        let a = |x: u8| (x as f32*2.0).powi(2);
        let b = |x: u8| (x as f32).powi(2);
        let c = |x: f32, y: f32| (x + y/2.0).sqrt();
        
        let f = combinator_birds::f(Func(a), Func(b), Func(c));
        let f_eqv = |x, y| c(b(x), a(y));

        for i in 0..=255
        {
            for j in 0..=255
            {
                assert_eq!(f.invoke2(i, j), f_eqv(i, j))
            }
        }
    }
    {
        let a = |x: u8| x as f32;
        let b = |x: f32| x*x*2.0;
        let c = |x: f32| x.sqrt();
        
        let f = combinator_birds::f(Func(a), Func(b), Func(c));
        let f_eqv = |x| c(b(a(x)));

        for i in 0..=255
        {
            assert_eq!(f.invoke1(i), f_eqv(i))
        }
    }
}

#[test]
fn test_g()
{
    {
        let a = |x: f32, y: f32| (x + y/2.0).sqrt();
        let b = |x: f32| x*x;
        let c = |x: u8| x as f32*2.0;
        let d = |x: u8| (x as f32).powi(2);
        
        let f = combinator_birds::g(Func(a), Func(b), Func(c), Func(d));
        let f_eqv = |x, y| a(d(x), b(c(y)));

        for i in 0..=255
        {
            for j in 0..=255
            {
                assert_eq!(f.invoke2(i, j), f_eqv(i, j))
            }
        }
    }
    {
        let a = |x: f32| x.sqrt();
        let b = |x: f32| x - 1.0;
        let c = |x: u8| x as f32;
        let d = |x: f32| x*x;
        
        let f = combinator_birds::g(Func(a), Func(b), Func(c), Func(d));
        let f_eqv = |x| a(d(b(c(x))));

        for i in 0..=255
        {
            assert_eq!(f.invoke1(i), f_eqv(i))
        }
    }
}

#[test]
fn test_h()
{
    {
        let a = |x: f32, y: f32, z: f32| (x + y/2.0 + z/3.0).sqrt();
        let b = |x: u8| (x as f32).powi(2);
        let c = |x: u8| (x as f32*2.0).powi(2);
        
        let f = combinator_birds::h(Func(a), Func(b), Func(c));
        let f_eqv = |x, y, z| a(b(x), c(y), b(z));

        for i in 0..=255
        {
            for j in 0..=255
            {
                for k in 0..=255
                {
                    assert_eq!(f.invoke3(i, j, k), f_eqv(i, j, k))
                }
            }
        }
    }
    {
        let a = |x: u8| x as f32;
        let b = |x: u8, y: u8| x.overflowing_add(y.overflowing_mul(3).0).0;
        let c = |x: u8| x / 2;
        
        let f = combinator_birds::h(Func(a), Func(b), Func(c));
        let f_eqv = |x, y, z| a(b(c(x), b(y, z)));

        for i in 0..=255
        {
            for j in 0..=255
            {
                for k in 0..=255
                {
                    assert_eq!(f.invoke3(i, j, k), f_eqv(i, j, k))
                }
            }
        }
    }
    {
        let a = |x: u8| x as f32;
        let b = |x: u8| x.overflowing_add(10).0;
        let c = |x: u8| x / 2;
        
        let f = combinator_birds::h(Func(a), Func(b), Func(c));
        let f_eqv = |x| a(b(c(b(x))));

        for i in 0..=255
        {
            assert_eq!(f.invoke1(i), f_eqv(i))
        }
    }
}

#[test]
fn test_i()
{
    let a = |x: u8| x as f32;
    
    let f = combinator_birds::i(Func(a));
    let f_eqv = a;

    for i in 0..=255
    {
        assert_eq!(f.invoke1(i), f_eqv(i))
    }
}

#[test]
fn test_k()
{
    let a = |x: u8| x as f32;
    let b = |x: u8| x as f32*2.0;
    
    let f = combinator_birds::k(Func(a), Func(b));
    let f_eqv = a;

    for i in 0..=255
    {
        assert_eq!(f.invoke1(i), f_eqv(i))
    }
}

#[test]
fn test_l()
{
    let a = |x: u8| x as f32;
    let b = |x: u8| x / 2;
    
    let f = combinator_birds::l(Func(a), Func(b));
    let f_eqv = |x| a(b(b(x)));

    for i in 0..=255
    {
        assert_eq!(f.invoke1(i), f_eqv(i))
    }
}

#[test]
fn test_m()
{
    let a = |x: u8| x / 2;
    
    let f = combinator_birds::m(Func(a));
    let f_eqv = |x| a(a(x));

    for i in 0..=255
    {
        assert_eq!(f.invoke1(i), f_eqv(i))
    }
}

#[test]
fn test_o()
{
    let a = |x: f32| (x * 2.0) as u8;
    let b = |x: u8| x as f32 / 3.0;
    
    let f = combinator_birds::o(Func(a), Func(b));
    let f_eqv = |x| b(a(b(x)));

    for i in 0..=255
    {
        assert_eq!(f.invoke1(i), f_eqv(i))
    }
}

#[test]
fn test_q()
{
    let a = |x: f32| x*x;
    let b = |x: f32| x.sqrt();
    let c = |x: u8| x as f32;
    
    let f = combinator_birds::q(Func(a), Func(b), Func(c));
    let f_eqv = |x| b(a(c(x)));

    for i in 0..=255
    {
        assert_eq!(f.invoke1(i), f_eqv(i))
    }
}

#[test]
fn test_q1()
{
    let a = |x: f32| x.sqrt();
    let b = |x: u8| x as f32;
    let c = |x: f32| x*x;
    
    let f = combinator_birds::q1(Func(a), Func(b), Func(c));
    let f_eqv = |x| a(c(b(x)));

    for i in 0..=255
    {
        assert_eq!(f.invoke1(i), f_eqv(i))
    }
}

#[test]
fn test_q2()
{
    let a = |x: u8| x as f32;
    let b = |x: f32| x.sqrt();
    let c = |x: f32| x*x;
    
    let f = combinator_birds::q2(Func(a), Func(b), Func(c));
    let f_eqv = |x| b(c(a(x)));

    for i in 0..=255
    {
        assert_eq!(f.invoke1(i), f_eqv(i))
    }
}

#[test]
fn test_q3()
{
    let a = |x: f32| x*x;
    let b = |x: u8| x as f32;
    let c = |x: f32| x.sqrt();
    
    let f = combinator_birds::q3(Func(a), Func(b), Func(c));
    let f_eqv = |x| c(a(b(x)));

    for i in 0..=255
    {
        assert_eq!(f.invoke1(i), f_eqv(i))
    }
}

#[test]
fn test_q4()
{
    let a = |x: u8| x as f32;
    let b = |x: f32| x*x;
    let c = |x: f32| x.sqrt();
    
    let f = combinator_birds::q4(Func(a), Func(b), Func(c));
    let f_eqv = |x| c(b(a(x)));

    for i in 0..=255
    {
        assert_eq!(f.invoke1(i), f_eqv(i))
    }
}

#[test]
fn test_r()
{
    {
        let a = |x: u8| (x as f32*2.0).powi(2);
        let b = |x: f32, y: f32| (x + y/2.0).sqrt();
        let c = |x: u8| (x as f32).powi(2);
        
        let f = combinator_birds::r(Func(a), Func(b), Func(c));
        let f_eqv = |x, y| b(c(x), a(y));

        for i in 0..=255
        {
            for j in 0..=255
            {
                assert_eq!(f.invoke2(i, j), f_eqv(i, j))
            }
        }
    }
    {
        let a = |x: u8| x as f32;
        let b = |x: f32| x.sqrt();
        let c = |x: f32| x*x;
        
        let f = combinator_birds::r(Func(a), Func(b), Func(c));
        let f_eqv = |x| b(c(a(x)));

        for i in 0..=255
        {
            assert_eq!(f.invoke1(i), f_eqv(i))
        }
    }
}

#[test]
fn test_s()
{
    {
        let a = |x: f32, y: f32| (x*x + y).sqrt();
        let b = |x: f32| x*x;
        let c = |x: u8| x as f32;
        
        let f = combinator_birds::s(Func(a), Func(b), Func(c));
        let f_eqv = |x, y| a(c(x), b(c(y)));

        for i in 0..=255
        {
            for j in 0..=255
            {
                assert_eq!(f.invoke2(i, j), f_eqv(i, j))
            }
        }
    }
    {
        let a = |x: f32| x.sqrt();
        let b = |x: f32| (x.sqrt() as u8).overflowing_add(1).0;
        let c = |x: u8| (x as f32).powi(2);

        let f = combinator_birds::s(Func(a), Func(b), Func(c));
        let f_eqv = |x| a(c(b(c(x))));

        for i in 0..=255
        {
            assert_eq!(f.invoke1(i), f_eqv(i))
        }
    }
}

#[test]
fn test_t()
{
    let a = |x: u8| (x as f32).powi(2);
    let b = |x: f32| x.sqrt();
    
    let f = combinator_birds::t(Func(a), Func(b));
    let f_eqv = |x| b(a(x));

    for i in 0..=255
    {
        assert_eq!(f.invoke1(i), f_eqv(i))
    }
}

#[test]
fn test_u()
{
    {
        let a = |x: u8, y: u8| x.overflowing_add(y.overflowing_mul(2).0).0;
        let b = |x: u8| x.overflowing_add(1).0;
        
        let f = combinator_birds::u(Func(a), Func(b));
        let f_eqv = |x, y, z| b(a(a(x, y), b(z)));

        for i in 0..=255
        {
            for j in 0..=255
            {
                for k in 0..=255
                {
                    assert_eq!(f.invoke3(i, j, k), f_eqv(i, j, k))
                }
            }
        }
    }
    {
        let a = |x: u8| x.overflowing_sub(3).0;
        let b = |x: u8| x.overflowing_add(1).0;

        let f = combinator_birds::u(Func(a), Func(b));
        let f_eqv = |x| b(a(a(b(x))));

        for i in 0..=255
        {
            assert_eq!(f.invoke1(i), f_eqv(i))
        }
    }
}

#[test]
fn test_v()
{
    {
        let a = |x: u8| (x as f32).powi(2);
        let b = |x: u8| (x as f32*2.0).powi(2);
        let c = |x: f32, y: f32| (x + y/2.0).sqrt();
        
        let f = combinator_birds::v(Func(a), Func(b), Func(c));
        let f_eqv = |x, y| c(a(x), b(y));

        for i in 0..=255
        {
            for j in 0..=255
            {
                assert_eq!(f.invoke2(i, j), f_eqv(i, j))
            }
        }
    }
    {
        let a = |x: f32| x*x;
        let b = |x: u8| x as f32;
        let c = |x: f32| x.sqrt();

        let f = combinator_birds::v(Func(a), Func(b), Func(c));
        let f_eqv = |x| c(a(b(x)));

        for i in 0..=255
        {
            assert_eq!(f.invoke1(i), f_eqv(i))
        }
    }
}

#[test]
fn test_w()
{
    {
        let a = |x: f32, y: f32| (x + y/2.0).sqrt();
        let b = |x: u8| (x as f32).powi(2);
        
        let f = combinator_birds::w(Func(a), Func(b));
        let f_eqv = |x, y| a(b(x), b(y));

        for i in 0..=255
        {
            for j in 0..=255
            {
                assert_eq!(f.invoke2(i, j), f_eqv(i, j))
            }
        }
    }
    {
        let a = |x: u8| x as f32;
        let b = |x: u8| x.overflowing_add(1).0;

        let f = combinator_birds::w(Func(a), Func(b));
        let f_eqv = |x| a(b(b(x)));

        for i in 0..=255
        {
            assert_eq!(f.invoke1(i), f_eqv(i))
        }
    }
}

#[test]
fn test_w1()
{
    {
        let a = |x: u8| (x as f32).powi(2);
        let b = |x: f32, y: f32| (x + y/2.0).sqrt();
        
        let f = combinator_birds::w1(Func(a), Func(b));
        let f_eqv = |x, y| b(a(x), a(y));

        for i in 0..=255
        {
            for j in 0..=255
            {
                assert_eq!(f.invoke2(i, j), f_eqv(i, j))
            }
        }
    }
    {
        let a = |x: u8| x.overflowing_add(1).0;
        let b = |x: u8| x as f32;

        let f = combinator_birds::w1(Func(a), Func(b));
        let f_eqv = |x| b(a(a(x)));

        for i in 0..=255
        {
            assert_eq!(f.invoke1(i), f_eqv(i))
        }
    }
}

#[test]
fn test_i_star()
{
    let a = |x: f32| x.sqrt();
    let b = |x: u8| (x as f32).powi(2);
    
    let f = combinator_birds::i_star(Func(a), Func(b));
    let f_eqv = |x| a(b(x));

    for i in 0..=255
    {
        assert_eq!(f.invoke1(i), f_eqv(i))
    }
}

#[test]
fn test_w_star()
{
    {
        let a = |x: f32, y: f32, z: f32| (x + y/2.0 + z/3.0).sqrt();
        let b = |x: u8| (x as f32).powi(2);
        let c = |x: u8| (x as f32*2.0).powi(2);
        
        let f = combinator_birds::w_star(Func(a), Func(b), Func(c));
        let f_eqv = |x, y, z| a(b(x), c(y), c(z));

        for i in 0..=255
        {
            for j in 0..=255
            {
                for k in 0..=255
                {
                    assert_eq!(f.invoke3(i, j, k), f_eqv(i, j, k))
                }
            }
        }
    }
    {
        let a = |x: f32, y: u8| (x + (y as f32).powi(2)).sqrt();
        let b = |x: u8| (x as f32).powi(2);
        let c = |x: u8| x.overflowing_add(1).0;
        
        let f = combinator_birds::w_star(Func(a), Func(b), Func(c));
        let f_eqv = |x, y| a(b(x), c(c(y)));

        for i in 0..=255
        {
            for j in 0..=255
            {
                assert_eq!(f.invoke2(i, j), f_eqv(i, j))
            }
        }
    }
    {
        let a = |x: f32| x.sqrt();
        let b = |x: f32, y: f32| x + y/2.0;
        let c = |x: u8| (x as f32).powi(2);
        
        let f = combinator_birds::w_star(Func(a), Func(b), Func(c));
        let f_eqv = |x, y| a(b(c(x), c(y)));

        for i in 0..=255
        {
            for j in 0..=255
            {
                assert_eq!(f.invoke2(i, j), f_eqv(i, j))
            }
        }
    }
    {
        let a = |x: f32| x.sqrt();
        let b = |x: u8| (x as f32).powi(2);
        let c = |x: u8| x.overflowing_add(1).0;

        let f = combinator_birds::w_star(Func(a), Func(b), Func(c));
        let f_eqv = |x| a(b(c(c(x))));

        for i in 0..=255
        {
            assert_eq!(f.invoke1(i), f_eqv(i))
        }
    }
}

#[test]
fn test_c_star()
{
    {
        let a = |x: f32, y: f32, z: f32| (x + y/2.0 + z/3.0).sqrt();
        let b = |x: u8| (x as f32).powi(2);
        let c = |x: u8| (x as f32*3.0).powi(2);
        let d = |x: u8| (x as f32*2.0).powi(2);
        
        let f = combinator_birds::c_star(Func(a), Func(b), Func(c), Func(d));
        let f_eqv = |x, y, z| a(b(x), d(y), c(z));

        for i in 0..=255
        {
            for j in 0..=255
            {
                for k in 0..=255
                {
                    assert_eq!(f.invoke3(i, j, k), f_eqv(i, j, k))
                }
            }
        }
    }
    {
        let a = |x: f32| x.sqrt();
        let b = |x: f32, y: f32| x + y/2.0;
        let c = |x: u8| (x as f32*2.0).powi(2);
        let d = |x: u8| (x as f32).powi(2);
        
        let f = combinator_birds::c_star(Func(a), Func(b), Func(c), Func(d));
        let f_eqv = |x, y| a(b(d(x), c(y)));

        for i in 0..=255
        {
            for j in 0..=255
            {
                assert_eq!(f.invoke2(i, j), f_eqv(i, j))
            }
        }
    }
    {
        let a = |x: f32| x.sqrt();
        let b = |x: f32| x*x;
        let c = |x: u8| x.overflowing_add(1).0;
        let d = |x: u8| x as f32;

        let f = combinator_birds::c_star(Func(a), Func(b), Func(c), Func(d));
        let f_eqv = |x| a(b(d(c(x))));

        for i in 0..=255
        {
            assert_eq!(f.invoke1(i), f_eqv(i))
        }
    }
}

#[test]
fn test_r_star()
{
    {
        let a = |x: f32, y: f32, z: f32| (x + y/2.0 + z/3.0).sqrt();
        let b = |x: u8| (x as f32*3.0).powi(2);
        let c = |x: u8| (x as f32).powi(2);
        let d = |x: u8| (x as f32*2.0).powi(2);
        
        let f = combinator_birds::r_star(Func(a), Func(b), Func(c), Func(d));
        let f_eqv = |x, y, z| a(c(x), d(y), b(z));

        for i in 0..=255
        {
            for j in 0..=255
            {
                for k in 0..=255
                {
                    assert_eq!(f.invoke3(i, j, k), f_eqv(i, j, k))
                }
            }
        }
    }
    {
        let a = |x: f32| x.sqrt();
        let b = |x: u8| (x as f32*2.0).powi(2);
        let c = |x: f32, y: f32| x + y/2.0;
        let d = |x: u8| (x as f32).powi(2);
        
        let f = combinator_birds::r_star(Func(a), Func(b), Func(c), Func(d));
        let f_eqv = |x, y| a(c(d(x), b(y)));

        for i in 0..=255
        {
            for j in 0..=255
            {
                assert_eq!(f.invoke2(i, j), f_eqv(i, j))
            }
        }
    }
    {
        let a = |x: f32| x.sqrt();
        let b = |x: u8| x.overflowing_add(1).0;
        let c = |x: f32| x*x;
        let d = |x: u8| x as f32;

        let f = combinator_birds::r_star(Func(a), Func(b), Func(c), Func(d));
        let f_eqv = |x| a(c(d(b(x))));

        for i in 0..=255
        {
            assert_eq!(f.invoke1(i), f_eqv(i))
        }
    }
}

#[test]
fn test_f_star()
{
    {
        let a = |x: f32, y: f32, z: f32| (x + y/2.0 + z/3.0).sqrt();
        let b = |x: u8| (x as f32*3.0).powi(2);
        let c = |x: u8| (x as f32*2.0).powi(2);
        let d = |x: u8| (x as f32).powi(2);
        
        let f = combinator_birds::f_star(Func(a), Func(b), Func(c), Func(d));
        let f_eqv = |x, y, z| a(d(x), c(y), b(z));

        for i in 0..=255
        {
            for j in 0..=255
            {
                for k in 0..=255
                {
                    assert_eq!(f.invoke3(i, j, k), f_eqv(i, j, k))
                }
            }
        }
    }
    {
        let a = |x: f32| x.sqrt();
        let b = |x: u8| (x as f32*2.0).powi(2);
        let c = |x: u8| (x as f32).powi(2);
        let d = |x: f32, y: f32| x + y/2.0;
        
        let f = combinator_birds::f_star(Func(a), Func(b), Func(c), Func(d));
        let f_eqv = |x, y| a(d(c(x), b(y)));

        for i in 0..=255
        {
            for j in 0..=255
            {
                assert_eq!(f.invoke2(i, j), f_eqv(i, j))
            }
        }
    }
    {
        let a = |x: f32| x.sqrt();
        let b = |x: u8| x.overflowing_add(1).0;
        let c = |x: u8| x as f32;
        let d = |x: f32| x*x;

        let f = combinator_birds::f_star(Func(a), Func(b), Func(c), Func(d));
        let f_eqv = |x| a(d(c(b(x))));

        for i in 0..=255
        {
            assert_eq!(f.invoke1(i), f_eqv(i))
        }
    }
}

#[test]
fn test_v_star()
{
    {
        let a = |x: f32, y: f32, z: f32| (x + y/2.0 + z/3.0).sqrt();
        let b = |x: u8| (x as f32*2.0).powi(2);
        let c = |x: u8| (x as f32).powi(2);
        let d = |x: u8| (x as f32*3.0).powi(2);
        
        let f = combinator_birds::v_star(Func(a), Func(b), Func(c), Func(d));
        let f_eqv = |x, y, z| a(c(x), b(y), d(z));

        for i in 0..=255
        {
            for j in 0..=255
            {
                for k in 0..=255
                {
                    assert_eq!(f.invoke3(i, j, k), f_eqv(i, j, k))
                }
            }
        }
    }
    {
        let a = |x: f32| x.sqrt();
        let b = |x: u8| (x as f32).powi(2);
        let c = |x: f32, y: f32| x + y/2.0;
        let d = |x: u8| (x as f32*2.0).powi(2);
        
        let f = combinator_birds::v_star(Func(a), Func(b), Func(c), Func(d));
        let f_eqv = |x, y| a(c(b(x), d(y)));

        for i in 0..=255
        {
            for j in 0..=255
            {
                assert_eq!(f.invoke2(i, j), f_eqv(i, j))
            }
        }
    }
    {
        let a = |x: f32| x.sqrt();
        let b = |x: u8| x as f32;
        let c = |x: f32| x*x;
        let d = |x: u8| x.overflowing_add(1).0;

        let f = combinator_birds::v_star(Func(a), Func(b), Func(c), Func(d));
        let f_eqv = |x| a(c(b(d(x))));

        for i in 0..=255
        {
            assert_eq!(f.invoke1(i), f_eqv(i))
        }
    }
}

#[test]
fn test_i_star_star()
{
    {
        let a = |x: f32, y: f32| (x + y/2.0).sqrt();
        let b = |x: u8| (x as f32).powi(2);
        let c = |x: u8| (x as f32*2.0).powi(2);
        
        let f = combinator_birds::i_star_star(Func(a), Func(b), Func(c));
        let f_eqv = |x, y| a(b(x), c(y));

        for i in 0..=255
        {
            for j in 0..=255
            {
                assert_eq!(f.invoke2(i, j), f_eqv(i, j))
            }
        }
    }
    {
        let a = |x: f32| x.sqrt();
        let b = |x: f32| x*x;
        let c = |x: u8| x as f32;

        let f = combinator_birds::i_star_star(Func(a), Func(b), Func(c));
        let f_eqv = |x| a(b(c(x)));

        for i in 0..=255
        {
            assert_eq!(f.invoke1(i), f_eqv(i))
        }
    }
}

#[test]
fn test_w_star_star()
{
    {
        let a = |x: f32, y: f32, z: f32, u: f32| (x + y/2.0 + z/3.0 + u/4.0).sqrt();
        let b = |x: u8| (x as f32).powi(2);
        let c = |x: u8| (x as f32*2.0).powi(2);
        let d = |x: u8| (x as f32*3.0).powi(2);
        
        let f = combinator_birds::w_star_star(Func(a), Func(b), Func(c), Func(d));
        let f_eqv = |x, y, z, u| a(b(x), c(y), d(z), d(u));

        for i in (0..=255).step_by(15)
        {
            for j in (0..=255).step_by(15)
            {
                for k in (0..=255).step_by(15)
                {
                    for l in (0..=255).step_by(15)
                    {
                        assert_eq!(f.invoke4(i, j, k, l), f_eqv(i, j, k, l))
                    }
                }
            }
        }
    }
    {
        let a = |x: f32, y: f32, z: u8| (x + y/2.0 + (z as f32).powi(2)).sqrt();
        let b = |x: u8| (x as f32).powi(2);
        let c = |x: u8| (x as f32*2.0).powi(2);
        let d = |x: u8| x.overflowing_add(1).0;

        let f = combinator_birds::w_star_star(Func(a), Func(b), Func(c), Func(d));
        let f_eqv = |x, y, z| a(b(x), c(y), d(d(z)));

        for i in 0..=255
        {
            for j in 0..=255
            {
                for k in 0..=255
                {
                    assert_eq!(f.invoke3(i, j, k), f_eqv(i, j, k))
                }
            }
        }
    }
    {
        let a = |x: f32, y: f32| (x + y/2.0).sqrt();
        let b = |x: u8| (x as f32).powi(2);
        let c = |x: u8| (x as f32*2.0).powi(2);
        let d = |x: u8| x.overflowing_add(1).0;

        let f = combinator_birds::w_star_star(Func(a), Func(b), Func(c), Func(d));
        let f_eqv = |x, y| a(b(x), c(d(d(y))));

        for i in 0..=255
        {
            for j in 0..=255
            {
                assert_eq!(f.invoke2(i, j), f_eqv(i, j))
            }
        }
    }
    {
        let a = |x: f32| x.sqrt();
        let b = |x: f32, y: f32, z: f32| x + y/2.0 + z/3.0;
        let c = |x: u8| (x as f32).powi(2);
        let d = |x: u8| (x as f32*2.0).powi(2);
        
        let f = combinator_birds::w_star_star(Func(a), Func(b), Func(c), Func(d));
        let f_eqv = |x, y, z| a(b(c(x), d(y), d(z)));

        for i in 0..=255
        {
            for j in 0..=255
            {
                for k in 0..=255
                {
                    assert_eq!(f.invoke3(i, j, k), f_eqv(i, j, k))
                }
            }
        }
    }
    {
        let a = |x: f32| x.sqrt();
        let b = |x: f32, y: u8| x + (y as f32).powi(2);
        let c = |x: u8| (x as f32).powi(2);
        let d = |x: u8| x.overflowing_add(1).0;
        
        let f = combinator_birds::w_star_star(Func(a), Func(b), Func(c), Func(d));
        let f_eqv = |x, y| a(b(c(x), d(d(y))));

        for i in 0..=255
        {
            for j in 0..=255
            {
                assert_eq!(f.invoke2(i, j), f_eqv(i, j))
            }
        }
    }
    {
        let a = |x: f32| x.sqrt();
        let b = |x: f32| x*2.0;
        let c = |x: f32, y: f32| x + y/2.0;
        let d = |x: u8| (x as f32).powi(2);
        
        let f = combinator_birds::w_star_star(Func(a), Func(b), Func(c), Func(d));
        let f_eqv = |x, y| a(b(c(d(x), d(y))));

        for i in 0..=255
        {
            for j in 0..=255
            {
                assert_eq!(f.invoke2(i, j), f_eqv(i, j))
            }
        }
    }
    {
        let a = |x: f32| x.sqrt();
        let b = |x: f32| x*x;
        let c = |x: u8| x as f32;
        let d = |x: u8| x.overflowing_add(1).0;
        
        let f = combinator_birds::w_star_star(Func(a), Func(b), Func(c), Func(d));
        let f_eqv = |x| a(b(c(d(d(x)))));

        for i in 0..=255
        {
            assert_eq!(f.invoke1(i), f_eqv(i))
        }
    }
}

#[test]
fn test_c_star_star()
{
    {
        let a = |x: f32, y: f32, z: f32, u: f32| (x + y/2.0 + z/3.0 + u/4.0).sqrt();
        let b = |x: u8| (x as f32).powi(2);
        let c = |x: u8| (x as f32*2.0).powi(2);
        let d = |x: u8| (x as f32*4.0).powi(2);
        let e = |x: u8| (x as f32*3.0).powi(2);
        
        let f = combinator_birds::c_star_star(Func(a), Func(b), Func(c), Func(d), Func(e));
        let f_eqv = |x, y, z, u| a(b(x), c(y), e(z), d(u));

        for i in (0..=255).step_by(15)
        {
            for j in (0..=255).step_by(15)
            {
                for k in (0..=255).step_by(15)
                {
                    for l in (0..=255).step_by(15)
                    {
                        assert_eq!(f.invoke4(i, j, k, l), f_eqv(i, j, k, l))
                    }
                }
            }
        }
    }
    {
        let a = |x: f32| x.sqrt();
        let b = |x: f32, y: f32, z: f32| x + y/2.0 + z/3.0;
        let c = |x: u8| (x as f32).powi(2);
        let d = |x: u8| (x as f32*3.0).powi(2);
        let e = |x: u8| (x as f32*2.0).powi(2);
        
        let f = combinator_birds::c_star_star(Func(a), Func(b), Func(c), Func(d), Func(e));
        let f_eqv = |x, y, z| a(b(c(x), e(y), d(z)));

        for i in 0..=255
        {
            for j in 0..=255
            {
                for k in 0..=255
                {
                    assert_eq!(f.invoke3(i, j, k), f_eqv(i, j, k))
                }
            }
        }
    }
    {
        let a = |x: f32| x.sqrt();
        let b = |x: f32| x*2.0;
        let c = |x: f32, y: f32| x + y/2.0;
        let d = |x: u8| (x as f32*2.0).powi(2);
        let e = |x: u8| (x as f32).powi(2);
        
        let f = combinator_birds::c_star_star(Func(a), Func(b), Func(c), Func(d), Func(e));
        let f_eqv = |x, y| a(b(c(e(x), d(y))));

        for i in 0..=255
        {
            for j in 0..=255
            {
                assert_eq!(f.invoke2(i, j), f_eqv(i, j))
            }
        }
    }
    {
        let a = |x: f32| x.sqrt();
        let b = |x: f32| x*2.0;
        let c = |x: f32| x*3.0;
        let d = |x: u8| x as f32;
        let e = |x: f32| x*x;
        
        let f = combinator_birds::c_star_star(Func(a), Func(b), Func(c), Func(d), Func(e));
        let f_eqv = |x| a(b(c(e(d(x)))));

        for i in 0..=255
        {
            assert_eq!(f.invoke1(i), f_eqv(i))
        }
    }
}

#[test]
fn test_r_star_star()
{
    {
        let a = |x: f32, y: f32, z: f32, u: f32| (x + y/2.0 + z/3.0 + u/4.0).sqrt();
        let b = |x: u8| (x as f32).powi(2);
        let c = |x: u8| (x as f32*4.0).powi(2);
        let d = |x: u8| (x as f32*2.0).powi(2);
        let e = |x: u8| (x as f32*3.0).powi(2);
        
        let f = combinator_birds::r_star_star(Func(a), Func(b), Func(c), Func(d), Func(e));
        let f_eqv = |x, y, z, u| a(b(x), d(y), e(z), c(u));

        for i in (0..=255).step_by(15)
        {
            for j in (0..=255).step_by(15)
            {
                for k in (0..=255).step_by(15)
                {
                    for l in (0..=255).step_by(15)
                    {
                        assert_eq!(f.invoke4(i, j, k, l), f_eqv(i, j, k, l))
                    }
                }
            }
        }
    }
    {
        let a = |x: f32| x.sqrt();
        let b = |x: f32, y: f32, z: f32| x + y/2.0 + z/3.0;
        let c = |x: u8| (x as f32*3.0).powi(2);
        let d = |x: u8| (x as f32).powi(2);
        let e = |x: u8| (x as f32*2.0).powi(2);
        
        let f = combinator_birds::r_star_star(Func(a), Func(b), Func(c), Func(d), Func(e));
        let f_eqv = |x, y, z| a(b(d(x), e(y), c(z)));

        for i in 0..=255
        {
            for j in 0..=255
            {
                for k in 0..=255
                {
                    assert_eq!(f.invoke3(i, j, k), f_eqv(i, j, k))
                }
            }
        }
    }
    {
        let a = |x: f32| x.sqrt();
        let b = |x: f32| x*2.0;
        let c = |x: u8| (x as f32*2.0).powi(2);
        let d = |x: f32, y: f32| x + y/2.0;
        let e = |x: u8| (x as f32).powi(2);
        
        let f = combinator_birds::r_star_star(Func(a), Func(b), Func(c), Func(d), Func(e));
        let f_eqv = |x, y| a(b(d(e(x), c(y))));

        for i in 0..=255
        {
            for j in 0..=255
            {
                assert_eq!(f.invoke2(i, j), f_eqv(i, j))
            }
        }
    }
    {
        let a = |x: f32| x.sqrt();
        let b = |x: f32| x*2.0;
        let c = |x: u8| x as f32;
        let d = |x: f32| x*3.0;
        let e = |x: f32| x*x;
        
        let f = combinator_birds::r_star_star(Func(a), Func(b), Func(c), Func(d), Func(e));
        let f_eqv = |x| a(b(d(e(c(x)))));

        for i in 0..=255
        {
            assert_eq!(f.invoke1(i), f_eqv(i))
        }
    }
}

#[test]
fn test_f_star_star()
{
    {
        let a = |x: f32, y: f32, z: f32, u: f32| (x + y*2.0 + z*3.0 + u*4.0).sqrt();
        let b = |x: u8| (x as f32).powi(2);
        let c = |x: u8| (x as f32*4.0).powi(2);
        let d = |x: u8| (x as f32*3.0).powi(2);
        let e = |x: u8| (x as f32*2.0).powi(2);
        
        let f = combinator_birds::f_star_star(Func(a), Func(b), Func(c), Func(d), Func(e));
        let f_eqv = |x, y, z, u| a(b(x), e(y), d(z), c(u));

        for i in (0..=255).step_by(15)
        {
            for j in (0..=255).step_by(15)
            {
                for k in (0..=255).step_by(15)
                {
                    for l in (0..=255).step_by(15)
                    {
                        assert_eq!(f.invoke4(i, j, k, l), f_eqv(i, j, k, l))
                    }
                }
            }
        }
    }
    {
        let a = |x: f32| x.sqrt();
        let b = |x: f32, y: f32, z: f32| x + y/2.0 + z/3.0;
        let c = |x: u8| (x as f32*3.0).powi(2);
        let d = |x: u8| (x as f32*2.0).powi(2);
        let e = |x: u8| (x as f32).powi(2);
        
        let f = combinator_birds::f_star_star(Func(a), Func(b), Func(c), Func(d), Func(e));
        let f_eqv = |x, y, z| a(b(e(x), d(y), c(z)));

        for i in 0..=255
        {
            for j in 0..=255
            {
                for k in 0..=255
                {
                    assert_eq!(f.invoke3(i, j, k), f_eqv(i, j, k))
                }
            }
        }
    }
    {
        let a = |x: f32| x.sqrt();
        let b = |x: f32| x*2.0;
        let c = |x: u8| (x as f32*2.0).powi(2);
        let d = |x: u8| (x as f32).powi(2);
        let e = |x: f32, y: f32| x + y/2.0;
        
        let f = combinator_birds::f_star_star(Func(a), Func(b), Func(c), Func(d), Func(e));
        let f_eqv = |x, y| a(b(e(d(x), c(y))));

        for i in 0..=255
        {
            for j in 0..=255
            {
                assert_eq!(f.invoke2(i, j), f_eqv(i, j))
            }
        }
    }
    {
        let a = |x: f32| x.sqrt();
        let b = |x: f32| x*2.0;
        let c = |x: u8| x as f32;
        let d = |x: f32| x*x;
        let e = |x: f32| x*3.0;
        
        let f = combinator_birds::f_star_star(Func(a), Func(b), Func(c), Func(d), Func(e));
        let f_eqv = |x| a(b(e(d(c(x)))));

        for i in 0..=255
        {
            assert_eq!(f.invoke1(i), f_eqv(i))
        }
    }
}

#[test]
fn test_v_star_star()
{
    {
        let a = |x: f32, y: f32, z: f32, u: f32| (x + y/2.0 + z/3.0 + u/4.0).sqrt();
        let b = |x: u8| (x as f32).powi(2);
        let c = |x: u8| (x as f32*3.0).powi(2);
        let d = |x: u8| (x as f32*4.0).powi(2);
        let e = |x: u8| (x as f32*2.0).powi(2);
        
        let f = combinator_birds::v_star_star(Func(a), Func(b), Func(c), Func(d), Func(e));
        let f_eqv = |x, y, z, u| a(b(x), e(y), c(z), d(u));

        for i in (0..=255).step_by(15)
        {
            for j in (0..=255).step_by(15)
            {
                for k in (0..=255).step_by(15)
                {
                    for l in (0..=255).step_by(15)
                    {
                        assert_eq!(f.invoke4(i, j, k, l), f_eqv(i, j, k, l))
                    }
                }
            }
        }
    }
    {
        let a = |x: f32| x.sqrt();
        let b = |x: f32, y: f32, z: f32| x + y/2.0 + z/3.0;
        let c = |x: u8| (x as f32*2.0).powi(2);
        let d = |x: u8| (x as f32*3.0).powi(2);
        let e = |x: u8| (x as f32).powi(2);
        
        let f = combinator_birds::v_star_star(Func(a), Func(b), Func(c), Func(d), Func(e));
        let f_eqv = |x, y, z| a(b(e(x), c(y), d(z)));

        for i in 0..=255
        {
            for j in 0..=255
            {
                for k in 0..=255
                {
                    assert_eq!(f.invoke3(i, j, k), f_eqv(i, j, k))
                }
            }
        }
    }
    {
        let a = |x: f32| x.sqrt();
        let b = |x: f32| x*2.0;
        let c = |x: u8| (x as f32).powi(2);
        let d = |x: u8| (x as f32*2.0).powi(2);
        let e = |x: f32, y: f32| x + y/2.0;
        
        let f = combinator_birds::v_star_star(Func(a), Func(b), Func(c), Func(d), Func(e));
        let f_eqv = |x, y| a(b(e(c(x), d(y))));

        for i in 0..=255
        {
            for j in 0..=255
            {
                assert_eq!(f.invoke2(i, j), f_eqv(i, j))
            }
        }
    }
    {
        let a = |x: f32| x.sqrt();
        let b = |x: f32| x*2.0;
        let c = |x: f32| x*x;
        let d = |x: u8| x as f32;
        let e = |x: f32| x*3.0;
        
        let f = combinator_birds::v_star_star(Func(a), Func(b), Func(c), Func(d), Func(e));
        let f_eqv = |x| a(b(e(c(d(x)))));

        for i in 0..=255
        {
            assert_eq!(f.invoke1(i), f_eqv(i))
        }
    }
}

#[test]
fn test_ki()
{
    let a = |x: u8| x as f32;
    let b = |x: u8| x as f32*2.0;
    
    let f = combinator_birds::ki(Func(a), Func(b));
    let f_eqv = b;

    for i in 0..=255
    {
        assert_eq!(f.invoke1(i), f_eqv(i))
    }
}

#[test]
fn test_km()
{
    let a = |x: u8| x as f32;
    let b = |x: u8| x.overflowing_add(1).0;
    
    let f = combinator_birds::km(Func(a), Func(b));
    let f_eqv = |x| b(b(x));

    for i in 0..=255
    {
        assert_eq!(f.invoke1(i), f_eqv(i))
    }
}

#[test]
fn test_ckm()
{
    let a = |x: u8| x.overflowing_add(1).0;
    let b = |x: u8| x as f32;
    
    let f = combinator_birds::ckm(Func(a), Func(b));
    let f_eqv = |x| a(a(x));

    for i in 0..=255
    {
        assert_eq!(f.invoke1(i), f_eqv(i))
    }
}
