//! Callables that take their arguments as one argument list (a tuple).
//!
//! Three calling disciplines are offered, as for Rust's own function traits:
//! [`CallOnce`] consumes the callable, [`CallMut`] borrows it mutably and may
//! be repeated, [`CallRef`] borrows it immutably. Every closure and function
//! of up to six parameters has all the disciplines that its `Fn*` traits
//! give it; a [`crate::Curried`] wrapper has those that its wrapped callable
//! has.
use vstd::prelude::*;

verus! {

/// A callable that can be called once with the argument list `Args`.
pub trait CallOnce<Args>: Sized {
    type Output;

    /// Whether a call with `args` is allowed.
    spec fn pre(&self, args: Args) -> bool;

    /// Whether `output` is a possible result of a call with `args`.
    spec fn post(&self, args: Args, output: Self::Output) -> bool;

    /// Calls the callable, consuming it.
    fn call_once(self, args: Args) -> (output: Self::Output)
        requires
            self.pre(args),
        ensures
            self.post(args, output),
    ;
}

/// A callable that can be called repeatedly through a mutable borrow.
pub trait CallMut<Args>: CallOnce<Args> {
    /// Whether a call may leave the callable in state `next`.
    spec fn mut_step(&self, next: &Self) -> bool;

    /// Calls the callable; state captured outside the arguments may change.
    fn call_mut(&mut self, args: Args) -> (output: Self::Output)
        requires
            old(self).pre(args),
        ensures
            old(self).post(args, output),
            old(self).mut_step(final(self)),
    ;
}

/// A callable that can be called repeatedly through a shared borrow.
pub trait CallRef<Args>: CallMut<Args> {
    /// Calls the callable without changing it.
    fn call(&self, args: Args) -> (output: Self::Output)
        requires
            self.pre(args),
        ensures
            self.post(args, output),
    ;
}

impl<F, O> CallOnce<()> for F where F: FnOnce() -> O {
    type Output = O;

    open spec fn pre(&self, args: ()) -> bool {
        call_requires(*self, args)
    }

    open spec fn post(&self, args: (), output: O) -> bool {
        call_ensures(*self, args, output)
    }

    fn call_once(self, args: ()) -> (output: O) {
        let () = args;
        self()
    }
}

impl<F, O> CallMut<()> for F where F: FnMut() -> O {
    // A closure may change what it captured in any way.
    open spec fn mut_step(&self, next: &Self) -> bool {
        true
    }

    fn call_mut(&mut self, args: ()) -> (output: O) {
        let () = args;
        self()
    }
}

impl<F, O> CallRef<()> for F where F: Fn() -> O {
    fn call(&self, args: ()) -> (output: O) {
        let () = args;
        self()
    }
}

impl<F, O, T1> CallOnce<(T1,)> for F where F: FnOnce(T1) -> O {
    type Output = O;

    open spec fn pre(&self, args: (T1,)) -> bool {
        call_requires(*self, args)
    }

    open spec fn post(&self, args: (T1,), output: O) -> bool {
        call_ensures(*self, args, output)
    }

    fn call_once(self, args: (T1,)) -> (output: O) {
        let (a1,) = args;
        self(a1)
    }
}

impl<F, O, T1> CallMut<(T1,)> for F where F: FnMut(T1) -> O {
    // A closure may change what it captured in any way.
    open spec fn mut_step(&self, next: &Self) -> bool {
        true
    }

    fn call_mut(&mut self, args: (T1,)) -> (output: O) {
        let (a1,) = args;
        self(a1)
    }
}

impl<F, O, T1> CallRef<(T1,)> for F where F: Fn(T1) -> O {
    fn call(&self, args: (T1,)) -> (output: O) {
        let (a1,) = args;
        self(a1)
    }
}

impl<F, O, T1, T2> CallOnce<(T1, T2)> for F where F: FnOnce(T1, T2) -> O {
    type Output = O;

    open spec fn pre(&self, args: (T1, T2)) -> bool {
        call_requires(*self, args)
    }

    open spec fn post(&self, args: (T1, T2), output: O) -> bool {
        call_ensures(*self, args, output)
    }

    fn call_once(self, args: (T1, T2)) -> (output: O) {
        let (a1, a2) = args;
        self(a1, a2)
    }
}

impl<F, O, T1, T2> CallMut<(T1, T2)> for F where F: FnMut(T1, T2) -> O {
    // A closure may change what it captured in any way.
    open spec fn mut_step(&self, next: &Self) -> bool {
        true
    }

    fn call_mut(&mut self, args: (T1, T2)) -> (output: O) {
        let (a1, a2) = args;
        self(a1, a2)
    }
}

impl<F, O, T1, T2> CallRef<(T1, T2)> for F where F: Fn(T1, T2) -> O {
    fn call(&self, args: (T1, T2)) -> (output: O) {
        let (a1, a2) = args;
        self(a1, a2)
    }
}

impl<F, O, T1, T2, T3> CallOnce<(T1, T2, T3)> for F where F: FnOnce(T1, T2, T3) -> O {
    type Output = O;

    open spec fn pre(&self, args: (T1, T2, T3)) -> bool {
        call_requires(*self, args)
    }

    open spec fn post(&self, args: (T1, T2, T3), output: O) -> bool {
        call_ensures(*self, args, output)
    }

    fn call_once(self, args: (T1, T2, T3)) -> (output: O) {
        let (a1, a2, a3) = args;
        self(a1, a2, a3)
    }
}

impl<F, O, T1, T2, T3> CallMut<(T1, T2, T3)> for F where F: FnMut(T1, T2, T3) -> O {
    // A closure may change what it captured in any way.
    open spec fn mut_step(&self, next: &Self) -> bool {
        true
    }

    fn call_mut(&mut self, args: (T1, T2, T3)) -> (output: O) {
        let (a1, a2, a3) = args;
        self(a1, a2, a3)
    }
}

impl<F, O, T1, T2, T3> CallRef<(T1, T2, T3)> for F where F: Fn(T1, T2, T3) -> O {
    fn call(&self, args: (T1, T2, T3)) -> (output: O) {
        let (a1, a2, a3) = args;
        self(a1, a2, a3)
    }
}

impl<F, O, T1, T2, T3, T4> CallOnce<(T1, T2, T3, T4)> for F where F: FnOnce(T1, T2, T3, T4) -> O {
    type Output = O;

    open spec fn pre(&self, args: (T1, T2, T3, T4)) -> bool {
        call_requires(*self, args)
    }

    open spec fn post(&self, args: (T1, T2, T3, T4), output: O) -> bool {
        call_ensures(*self, args, output)
    }

    fn call_once(self, args: (T1, T2, T3, T4)) -> (output: O) {
        let (a1, a2, a3, a4) = args;
        self(a1, a2, a3, a4)
    }
}

impl<F, O, T1, T2, T3, T4> CallMut<(T1, T2, T3, T4)> for F where F: FnMut(T1, T2, T3, T4) -> O {
    // A closure may change what it captured in any way.
    open spec fn mut_step(&self, next: &Self) -> bool {
        true
    }

    fn call_mut(&mut self, args: (T1, T2, T3, T4)) -> (output: O) {
        let (a1, a2, a3, a4) = args;
        self(a1, a2, a3, a4)
    }
}

impl<F, O, T1, T2, T3, T4> CallRef<(T1, T2, T3, T4)> for F where F: Fn(T1, T2, T3, T4) -> O {
    fn call(&self, args: (T1, T2, T3, T4)) -> (output: O) {
        let (a1, a2, a3, a4) = args;
        self(a1, a2, a3, a4)
    }
}

impl<F, O, T1, T2, T3, T4, T5> CallOnce<(T1, T2, T3, T4, T5)> for F where F: FnOnce(T1, T2, T3, T4, T5) -> O {
    type Output = O;

    open spec fn pre(&self, args: (T1, T2, T3, T4, T5)) -> bool {
        call_requires(*self, args)
    }

    open spec fn post(&self, args: (T1, T2, T3, T4, T5), output: O) -> bool {
        call_ensures(*self, args, output)
    }

    fn call_once(self, args: (T1, T2, T3, T4, T5)) -> (output: O) {
        let (a1, a2, a3, a4, a5) = args;
        self(a1, a2, a3, a4, a5)
    }
}

impl<F, O, T1, T2, T3, T4, T5> CallMut<(T1, T2, T3, T4, T5)> for F where F: FnMut(T1, T2, T3, T4, T5) -> O {
    // A closure may change what it captured in any way.
    open spec fn mut_step(&self, next: &Self) -> bool {
        true
    }

    fn call_mut(&mut self, args: (T1, T2, T3, T4, T5)) -> (output: O) {
        let (a1, a2, a3, a4, a5) = args;
        self(a1, a2, a3, a4, a5)
    }
}

impl<F, O, T1, T2, T3, T4, T5> CallRef<(T1, T2, T3, T4, T5)> for F where F: Fn(T1, T2, T3, T4, T5) -> O {
    fn call(&self, args: (T1, T2, T3, T4, T5)) -> (output: O) {
        let (a1, a2, a3, a4, a5) = args;
        self(a1, a2, a3, a4, a5)
    }
}

impl<F, O, T1, T2, T3, T4, T5, T6> CallOnce<(T1, T2, T3, T4, T5, T6)> for F where F: FnOnce(T1, T2, T3, T4, T5, T6) -> O {
    type Output = O;

    open spec fn pre(&self, args: (T1, T2, T3, T4, T5, T6)) -> bool {
        call_requires(*self, args)
    }

    open spec fn post(&self, args: (T1, T2, T3, T4, T5, T6), output: O) -> bool {
        call_ensures(*self, args, output)
    }

    fn call_once(self, args: (T1, T2, T3, T4, T5, T6)) -> (output: O) {
        let (a1, a2, a3, a4, a5, a6) = args;
        self(a1, a2, a3, a4, a5, a6)
    }
}

impl<F, O, T1, T2, T3, T4, T5, T6> CallMut<(T1, T2, T3, T4, T5, T6)> for F where F: FnMut(T1, T2, T3, T4, T5, T6) -> O {
    // A closure may change what it captured in any way.
    open spec fn mut_step(&self, next: &Self) -> bool {
        true
    }

    fn call_mut(&mut self, args: (T1, T2, T3, T4, T5, T6)) -> (output: O) {
        let (a1, a2, a3, a4, a5, a6) = args;
        self(a1, a2, a3, a4, a5, a6)
    }
}

impl<F, O, T1, T2, T3, T4, T5, T6> CallRef<(T1, T2, T3, T4, T5, T6)> for F where F: Fn(T1, T2, T3, T4, T5, T6) -> O {
    fn call(&self, args: (T1, T2, T3, T4, T5, T6)) -> (output: O) {
        let (a1, a2, a3, a4, a5, a6) = args;
        self(a1, a2, a3, a4, a5, a6)
    }
}

} // verus!
