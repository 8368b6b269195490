//! Currying: binding some arguments of a callable ahead of the call.
//!
//! [`Curry`] binds a value as the first argument of any callable and
//! [`RCurry`] binds one as the last. Either gives a [`Curried`] wrapper, which
//! is itself a callable that takes the remaining arguments, and can be bound
//! again. A call of the wrapper merges its bound argument lists with the
//! arguments given (see [`ConcatArgs`]) and calls the wrapped callable with
//! the result, through the same calling discipline ([`CallOnce`], [`CallMut`]
//! or [`CallRef`]).
//!
//! Argument lists are tuples. Callables of up to six parameters are supported.
//!
//! A callable that returns a future is wrapped like any other: the wrapper
//! hands the future back as it is, and awaiting it is the caller's part.
pub mod call;
pub mod concat_args;
pub mod curried;
pub mod curry;
pub mod laws;
pub mod rcurry;

pub use call::{CallMut, CallOnce, CallRef};
pub use concat_args::ConcatArgs;
pub use curried::Curried;
pub use curry::Curry;
pub use rcurry::RCurry;
