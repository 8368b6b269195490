use currying::{CallMut, CallOnce, CallRef, Curry, RCurry};

fn digits(a: u32, b: u32, c: u32) -> u32 {
    a * 100 + b * 10 + c
}

#[test]
fn curry_then_call_with_two() {
    let f = digits;
    assert_eq!(f.curry(1).call((2, 3)), 123);
    assert_eq!(f.curry(1).call((2, 3)), f(1, 2, 3));
}

#[test]
fn curry_twice_then_call_with_one() {
    let f = digits;
    assert_eq!(f.curry(4).curry(5).call((6,)), 456);
}

#[test]
fn curry_three_times_then_call_with_none() {
    let f = digits;
    assert_eq!(f.curry(7).curry(8).curry(9).call(()), 789);
}

#[test]
fn rcurry_then_call_with_two() {
    let f = digits;
    assert_eq!(f.rcurry(3).call((1, 2)), 123);
}

#[test]
fn rcurry_twice_then_call_with_one() {
    let f = digits;
    assert_eq!(f.rcurry(3).rcurry(2).call((1,)), 123);
}

#[test]
fn rcurry_three_times_then_call_with_none() {
    let f = digits;
    assert_eq!(f.rcurry(3).rcurry(2).rcurry(1).call(()), 123);
}

#[test]
fn curry_then_rcurry_then_call_with_one() {
    let f = digits;
    assert_eq!(f.curry(1).rcurry(3).call((2,)), 123);
}

#[test]
fn rcurry_then_curry_then_call_with_one() {
    let f = digits;
    assert_eq!(f.rcurry(3).curry(1).call((2,)), 123);
}

#[test]
fn sum_scenario() {
    let f = |a: i32, b: i32, c: i32| a + b + c;
    assert_eq!(f.curry(1).call((2, 3)), 6);
    assert_eq!(f.curry(1).rcurry(3).call((2,)), 6);
}

#[test]
fn mutating_calls_count_up() {
    let mut counter: u64 = 0;
    let mut add = |j: u64| {
        counter += j;
        counter
    };
    let mut add_one = add.curry_mut(1);
    let mut seen = Vec::new();
    for _ in 0..5 {
        seen.push(add_one.call_mut(()));
    }
    assert_eq!(seen, vec![1, 2, 3, 4, 5]);
    assert_eq!(counter, 5);
}

#[test]
fn mutating_calls_through_nested_wrappers() {
    let mut total: i64 = 0;
    let mut add = |a: i64, b: i64| {
        total += a * b;
        total
    };
    let mut times_two = add.rcurry_mut(2);
    let mut three_times_two = times_two.curry_mut(3);
    assert_eq!(three_times_two.call_mut(()), 6);
    assert_eq!(three_times_two.call_mut(()), 12);
    assert_eq!(times_two.call_mut((5,)), 22);
    assert_eq!(total, 22);
}

#[test]
fn consume_once_moves_the_bound_value() {
    let name = String::from("ab");
    let join = |s: String, t: &str| s + t;
    let wrapped = join.curry_once(name);
    assert_eq!(wrapped.call_once(("cd",)), "abcd");
}

#[test]
fn rcurry_once_binds_the_last_argument() {
    let suffix = String::from("!");
    let join = |s: &str, t: String| format!("{}{}", s, t);
    assert_eq!(join.rcurry_once(suffix).call_once(("hi",)), "hi!");
}

#[test]
fn read_only_calls_repeat() {
    let f = |a: u8, b: u8| a.wrapping_sub(b);
    let from_ten = f.curry(10);
    assert_eq!(from_ten.call((3,)), 7);
    assert_eq!(from_ten.call((4,)), 6);
    let minus_one = f.rcurry(1);
    assert_eq!(minus_one.call((3,)), 2);
}

#[test]
fn no_arguments_left() {
    let f = |a: u8| a + 1;
    let g = f.curry(4);
    assert_eq!(g.call(()), 5);
    assert_eq!(f.rcurry(4).call(()), 5);
}

#[test]
fn six_parameters() {
    let f = |a: u32, b: u32, c: u32, d: u32, e: u32, g: u32| {
        ((((a * 10 + b) * 10 + c) * 10 + d) * 10 + e) * 10 + g
    };
    assert_eq!(f.curry(1).call((2, 3, 4, 5, 6)), 123456);
    assert_eq!(f.rcurry(6).call((1, 2, 3, 4, 5)), 123456);
    assert_eq!(f.curry(1).rcurry(6).call((2, 3, 4, 5)), 123456);
    assert_eq!(f.curry(1).curry(2).curry(3).rcurry(6).rcurry(5).call((4,)), 123456);
}

fn run_ready<T>(fut: impl std::future::Future<Output = T>) -> T {
    let mut fut = Box::pin(fut);
    let mut cx = std::task::Context::from_waker(std::task::Waker::noop());
    match fut.as_mut().poll(&mut cx) {
        std::task::Poll::Ready(v) => v,
        std::task::Poll::Pending => panic!("the future was not ready"),
    }
}

#[test]
fn futures_pass_through_unawaited() {
    let f = |a: u32, b: u32, c: u32| async move { digits(a, b, c) };
    assert_eq!(run_ready(f.curry(1).rcurry(3).call((2,))), 123);
    assert_eq!(run_ready(f.curry_once(4).call_once((5, 6))), 456);
}
