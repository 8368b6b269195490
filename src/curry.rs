//! Binding from the left.
use vstd::prelude::*;

use crate::curried::{bound_left, Curried};

verus! {

/// Binding a value as the first argument of a callable.
///
/// Every type has this trait; the wrapper it gives can be called when `Self`
/// takes a first argument of type `C` (see [`crate::CallOnce`]). Binding on a
/// [`Curried`] wrapper nests it in a new one, so that values bound one after
/// the other come first in the order in which they were bound.
pub trait Curry<C>: Sized {
    /// Binds `arg`, moving `self` into the wrapper, which can then be called
    /// by every discipline that `self` has.
    fn curry_once(self, arg: C) -> (c: Curried<(C,), (), Self>)
        ensures
            c == bound_left(self, arg),
    {
        Curried::curry(self, arg)
    }

    /// Binds `arg`, borrowing `self` mutably for as long as the wrapper lives.
    fn curry_mut(&mut self, arg: C) -> (c: Curried<(C,), (), &mut Self>)
        ensures
            c.args_left == (arg,),
            *c.func == *old(self),
            *final(c.func) == *final(self),
    {
        Curried::curry(self, arg)
    }

    /// Binds `arg`, borrowing `self` for as long as the wrapper lives.
    fn curry(&self, arg: C) -> (c: Curried<(C,), (), &Self>)
        ensures
            c == bound_left(self, arg),
    {
        Curried::curry(self, arg)
    }
}

impl<C, F> Curry<C> for F {}

} // verus!
