use currying::{CallOnce, ConcatArgs, Curried};

#[test]
fn concat_left_middle_right() {
    assert_eq!(((1u8,), (2u16, 3u32), (4u64,)).concat_args(), (1u8, 2u16, 3u32, 4u64));
}

#[test]
fn concat_left_only_bound() {
    assert_eq!(((1,), (2, 3), ()).concat_args(), (1, 2, 3));
    assert_eq!(((1,), (), ()).concat_args(), (1,));
}

#[test]
fn concat_right_only_bound() {
    assert_eq!(((), (1, 2), (3,)).concat_args(), (1, 2, 3));
    assert_eq!(((), (), (3,)).concat_args(), (3,));
}

#[test]
fn concat_empty_segments() {
    assert_eq!(((), (), ()).concat_args(), ());
    assert_eq!(((), ('a', 'b'), ()).concat_args(), ('a', 'b'));
    assert_eq!(((7,), (), (9,)).concat_args(), (7, 9));
}

#[test]
fn concat_six_values() {
    assert_eq!(((1,), (2, 3, 4, 5), (6,)).concat_args(), (1, 2, 3, 4, 5, 6));
    assert_eq!(((), (1, 2, 3, 4, 5, 6), ()).concat_args(), (1, 2, 3, 4, 5, 6));
}

#[test]
fn constructors_hold_their_parts() {
    let c = Curried::new((1,), (2,), 3);
    assert_eq!(c.args_left, (1,));
    assert_eq!(c.args_right, (2,));
    assert_eq!(c.func, 3);
    let l = Curried::curry("f", 'x');
    assert_eq!(l, Curried::new(('x',), (), "f"));
    let r = Curried::rcurry("f", 'z');
    assert_eq!(r, Curried::new((), ('z',), "f"));
}

#[test]
fn wrapper_with_both_sides_bound() {
    let f = |a: i32, b: i32, c: i32| a - b * c;
    let c = Curried::new((10,), (3,), f);
    assert_eq!(c.call_once((2,)), 4);
}
