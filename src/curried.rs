//! The curried wrapper: a callable with some of its arguments already bound.
use vstd::prelude::*;

use crate::call::{CallMut, CallOnce, CallRef};
use crate::concat_args::ConcatArgs;

verus! {

/// A callable `func` with the argument list `args_left` bound before the
/// arguments given at call time and `args_right` bound after them.
///
/// A call with the argument list `args` calls `func` with the merged list
/// `args_left ++ args ++ args_right`. The wrapper has each calling discipline
/// that `func` has on the merged list; the repeatable ones also need the
/// bound lists to be `Copy`, since every call hands a fresh copy of them on.
#[derive(Clone, Copy, Debug, Hash, Eq, PartialEq)]
pub struct Curried<LX, RX, F> {
    pub args_left: LX,
    pub args_right: RX,
    pub func: F,
}

/// The wrapper that binds `arg` as the first argument of `func`.
pub open spec fn bound_left<C, F>(func: F, arg: C) -> Curried<(C,), (), F> {
    Curried { args_left: (arg,), args_right: (), func }
}

/// The wrapper that binds `arg` as the last argument of `func`.
pub open spec fn bound_right<C, F>(func: F, arg: C) -> Curried<(), (C,), F> {
    Curried { args_left: (), args_right: (arg,), func }
}

/// The argument list that a call of `c` with `args` hands to the wrapped callable.
pub open spec fn merged_args<LX, X, RX, F>(c: Curried<LX, RX, F>, args: X) -> <(LX, X, RX) as ConcatArgs>::Type
    where (LX, X, RX): ConcatArgs,
{
    (c.args_left, args, c.args_right).concat_spec()
}

impl<LX, RX, F> Curried<LX, RX, F> {
    /// Wraps `func` with the bound argument lists `args_left` and `args_right`.
    pub fn new(args_left: LX, args_right: RX, func: F) -> (c: Self)
        ensures
            c.args_left == args_left,
            c.args_right == args_right,
            c.func == func,
    {
        Curried { args_left, args_right, func }
    }
}

impl<C, F> Curried<(C,), (), F> {
    /// Binds `arg` as the first argument of `func`.
    pub fn curry(func: F, arg: C) -> (c: Self)
        ensures
            c == bound_left(func, arg),
    {
        Self::new((arg,), (), func)
    }
}

impl<C, F> Curried<(), (C,), F> {
    /// Binds `arg` as the last argument of `func`.
    pub fn rcurry(func: F, arg: C) -> (c: Self)
        ensures
            c == bound_right(func, arg),
    {
        Self::new((), (arg,), func)
    }
}

impl<LX, X, RX, F, U> CallOnce<X> for Curried<LX, RX, F> where
    (LX, X, RX): ConcatArgs<Type = U>,
    F: CallOnce<U>,
 {
    type Output = F::Output;

    open spec fn pre(&self, args: X) -> bool {
        self.func.pre(merged_args(*self, args))
    }

    open spec fn post(&self, args: X, output: F::Output) -> bool {
        self.func.post(merged_args(*self, args), output)
    }

    fn call_once(self, args: X) -> (output: F::Output) {
        let merged = (self.args_left, args, self.args_right).concat_args();
        self.func.call_once(merged)
    }
}

impl<LX, X, RX, F, U> CallMut<X> for Curried<LX, RX, F> where
    LX: Copy,
    RX: Copy,
    (LX, X, RX): ConcatArgs<Type = U>,
    F: CallMut<U>,
 {
    /// The bound argument lists never change; the wrapped callable changes
    /// as a call of it may.
    open spec fn mut_step(&self, next: &Self) -> bool {
        &&& next.args_left == self.args_left
        &&& next.args_right == self.args_right
        &&& self.func.mut_step(&next.func)
    }

    fn call_mut(&mut self, args: X) -> (output: F::Output) {
        let merged = (self.args_left, args, self.args_right).concat_args();
        self.func.call_mut(merged)
    }
}

impl<LX, X, RX, F, U> CallRef<X> for Curried<LX, RX, F> where
    LX: Copy,
    RX: Copy,
    (LX, X, RX): ConcatArgs<Type = U>,
    F: CallRef<U>,
 {
    fn call(&self, args: X) -> (output: F::Output) {
        let merged = (self.args_left, args, self.args_right).concat_args();
        self.func.call(merged)
    }
}

impl<'a, LX, X, RX, F, U> CallOnce<X> for &'a Curried<LX, RX, F> where
    LX: Copy,
    RX: Copy,
    (LX, X, RX): ConcatArgs<Type = U>,
    F: CallRef<U>,
 {
    type Output = F::Output;

    open spec fn pre(&self, args: X) -> bool {
        self.func.pre(merged_args(**self, args))
    }

    open spec fn post(&self, args: X, output: F::Output) -> bool {
        self.func.post(merged_args(**self, args), output)
    }

    fn call_once(self, args: X) -> (output: F::Output) {
        self.call(args)
    }
}

impl<'a, LX, X, RX, F, U> CallMut<X> for &'a Curried<LX, RX, F> where
    LX: Copy,
    RX: Copy,
    (LX, X, RX): ConcatArgs<Type = U>,
    F: CallRef<U>,
 {
    open spec fn mut_step(&self, next: &Self) -> bool {
        **next == **self
    }

    fn call_mut(&mut self, args: X) -> (output: F::Output) {
        (**self).call(args)
    }
}

impl<'a, LX, X, RX, F, U> CallRef<X> for &'a Curried<LX, RX, F> where
    LX: Copy,
    RX: Copy,
    (LX, X, RX): ConcatArgs<Type = U>,
    F: CallRef<U>,
 {
    fn call(&self, args: X) -> (output: F::Output) {
        (**self).call(args)
    }
}

impl<'a, LX, X, RX, F, U> CallOnce<X> for &'a mut Curried<LX, RX, F> where
    LX: Copy,
    RX: Copy,
    (LX, X, RX): ConcatArgs<Type = U>,
    F: CallMut<U>,
 {
    type Output = F::Output;

    open spec fn pre(&self, args: X) -> bool {
        self.func.pre(merged_args(**self, args))
    }

    open spec fn post(&self, args: X, output: F::Output) -> bool {
        self.func.post(merged_args(**self, args), output)
    }

    fn call_once(self, args: X) -> (output: F::Output) {
        self.call_mut(args)
    }
}

impl<'a, LX, X, RX, F, U> CallMut<X> for &'a mut Curried<LX, RX, F> where
    LX: Copy,
    RX: Copy,
    (LX, X, RX): ConcatArgs<Type = U>,
    F: CallMut<U>,
 {
    open spec fn mut_step(&self, next: &Self) -> bool {
        (**self).mut_step(&**next)
    }

    fn call_mut(&mut self, args: X) -> (output: F::Output) {
        (**self).call_mut(args)
    }
}

} // verus!
