use currying::{CallMut, CallOnce, CallRef, Curry, RCurry};

#[test]
fn test() {
    let f = |x, y, z| x + y + z;
    let (x, y, z) = (1, 2, 3);

    let fx = f.curry(x);

    assert_eq!(fx.call((y, z)), f(x, y, z));

    let fxz = fx.rcurry(z);

    assert_eq!(fxz.call((y,)), f(x, y, z));

    let fxyz = fxz.curry(y);

    assert_eq!(fxyz.call(()), f(x, y, z));
}

#[test]
fn test_mut() {
    let i0 = 0;
    let mut i = i0;
    let n = 1;

    let mut f = |j| {
        i += j;
        i
    };

    let mut fj = f.curry_mut(n);

    for k in 1..10 {
        assert_eq!(fj.call_mut(()), i0 + k * n)
    }
}

#[test]
fn test_once() {
    let i0 = 0;
    let i = i0;
    let n = 1;

    let f = |j| i + j;

    let i = f.curry_once(n).call_once(());

    assert_eq!(i, i0 + n)
}

fn add3(x: u8, y: u8, z: u8) -> u8 {
    x + y + z
}

#[test]
fn test_const() {
    const X: u8 = 1;
    const Y: u8 = 2;
    const Z: u8 = 3;

    let f = add3;

    let fx = f.curry(X);

    assert!(fx.call((Y, Z)) == f(X, Y, Z));

    let fxz = fx.rcurry(Z);

    assert!(fxz.call((Y,)) == f(X, Y, Z));

    let fxyz = fxz.curry(Y);

    assert!(fxyz.call(()) == f(X, Y, Z));
}
