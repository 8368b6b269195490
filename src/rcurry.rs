//! Binding from the right.
use vstd::prelude::*;

use crate::curried::{bound_right, Curried};

verus! {

/// Binding a value as the last argument of a callable.
///
/// Every type has this trait; the wrapper it gives can be called when `Self`
/// takes a last argument of type `C` (see [`crate::CallOnce`]). Binding on a
/// [`Curried`] wrapper nests it in a new one, so that values bound one after
/// the other follow the arguments given at call time in the reverse of the
/// order in which they were bound.
pub trait RCurry<C>: Sized {
    /// Binds `arg`, moving `self` into the wrapper, which can then be called
    /// by every discipline that `self` has.
    fn rcurry_once(self, arg: C) -> (c: Curried<(), (C,), Self>)
        ensures
            c == bound_right(self, arg),
    {
        Curried::rcurry(self, arg)
    }

    /// Binds `arg`, borrowing `self` mutably for as long as the wrapper lives.
    fn rcurry_mut(&mut self, arg: C) -> (c: Curried<(), (C,), &mut Self>)
        ensures
            c.args_right == (arg,),
            *c.func == *old(self),
            *final(c.func) == *final(self),
    {
        Curried::rcurry(self, arg)
    }

    /// Binds `arg`, borrowing `self` for as long as the wrapper lives.
    fn rcurry(&self, arg: C) -> (c: Curried<(), (C,), &Self>)
        ensures
            c == bound_right(self, arg),
    {
        Curried::rcurry(self, arg)
    }
}

impl<C, F> RCurry<C> for F {}

} // verus!
