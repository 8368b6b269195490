//! What binding does to the calls of a three-parameter callable.
//!
//! Each law says that a chain of bindings on `f`, called with the arguments
//! that are left, accepts exactly the calls that `f` accepts with `(x, y, z)`
//! and may return exactly what `f` may return there. The pre- and
//! postconditions are those of every calling discipline, so the laws hold of
//! `call_once`, `call_mut` and `call` alike.
use vstd::prelude::*;

use crate::call::{CallMut, CallOnce};
use crate::curried::{bound_left, bound_right, Curried};

verus! {

/// Binding `x` on the left and calling with `(y, z)` is calling `f` with
/// `(x, y, z)`.
pub proof fn lemma_curry<F, A, B, C>(f: F, x: A, y: B, z: C) where F: CallOnce<(A, B, C)>
    ensures
        bound_left(f, x).pre((y, z)) <==> f.pre((x, y, z)),
        forall|r: F::Output| #[trigger]
            bound_left(f, x).post((y, z), r) <==> f.post((x, y, z), r),
{
}

/// Binding `x`, then `y`, on the left and calling with `(z,)` is calling `f`
/// with `(x, y, z)`.
pub proof fn lemma_curry_curry<F, A, B, C>(f: F, x: A, y: B, z: C) where
    F: CallOnce<(A, B, C)>,
    ensures
        bound_left(bound_left(f, x), y).pre((z,)) <==> f.pre((x, y, z)),
        forall|r: F::Output| #[trigger]
            bound_left(bound_left(f, x), y).post((z,), r) <==> f.post((x, y, z), r),
{
}

/// Binding `x`, `y` and `z` on the left, one after the other, and calling
/// with no argument is calling `f` with `(x, y, z)`.
pub proof fn lemma_curry_curry_curry<F, A, B, C>(f: F, x: A, y: B, z: C) where
    F: CallOnce<(A, B, C)>,
    ensures
        bound_left(bound_left(bound_left(f, x), y), z).pre(()) <==> f.pre((x, y, z)),
        forall|r: F::Output| #[trigger]
            bound_left(bound_left(bound_left(f, x), y), z).post((), r) <==> f.post((x, y, z), r),
{
}

/// Binding `z` on the right and calling with `(x, y)` is calling `f` with
/// `(x, y, z)`.
pub proof fn lemma_rcurry<F, A, B, C>(f: F, x: A, y: B, z: C) where F: CallOnce<(A, B, C)>
    ensures
        bound_right(f, z).pre((x, y)) <==> f.pre((x, y, z)),
        forall|r: F::Output| #[trigger]
            bound_right(f, z).post((x, y), r) <==> f.post((x, y, z), r),
{
}

/// Binding `z`, then `y`, on the right and calling with `(x,)` is calling
/// `f` with `(x, y, z)`.
pub proof fn lemma_rcurry_rcurry<F, A, B, C>(f: F, x: A, y: B, z: C) where
    F: CallOnce<(A, B, C)>,
    ensures
        bound_right(bound_right(f, z), y).pre((x,)) <==> f.pre((x, y, z)),
        forall|r: F::Output| #[trigger]
            bound_right(bound_right(f, z), y).post((x,), r) <==> f.post((x, y, z), r),
{
}

/// Binding `x` on the left, then `z` on the right, and calling with `(y,)`
/// is calling `f` with `(x, y, z)`.
pub proof fn lemma_curry_rcurry<F, A, B, C>(f: F, x: A, y: B, z: C) where
    F: CallOnce<(A, B, C)>,
    ensures
        bound_right(bound_left(f, x), z).pre((y,)) <==> f.pre((x, y, z)),
        forall|r: F::Output| #[trigger]
            bound_right(bound_left(f, x), z).post((y,), r) <==> f.post((x, y, z), r),
{
}

/// A mutating call of a wrapper that binds `n` on the left is a mutating
/// call of the wrapped callable with `(n,)`, and leaves a wrapper that still
/// binds `n` around whatever state that call left the callable in.
pub proof fn lemma_curry_mut_step<F, N>(f: F, n: N, next: Curried<(N,), (), F>) where
    F: CallMut<(N,)>,
    N: Copy,
    ensures
        bound_left(f, n).pre(()) <==> f.pre((n,)),
        forall|r: F::Output| #[trigger] bound_left(f, n).post((), r) <==> f.post((n,), r),
        CallMut::<()>::mut_step(&bound_left(f, n), &next) <==> (next == bound_left(next.func, n)
            && f.mut_step(&next.func)),
{
}

} // verus!
