//! Concatenation of three argument lists into one.
//!
//! An argument list is a tuple. [`ConcatArgs`] is implemented for a triple
//! `(left, middle, right)` of argument lists where `left` and `right` hold at
//! most one value each, and the three together hold at most six values. The
//! result holds the values of `left`, then those of `middle`, then those of
//! `right`, in order.
use vstd::prelude::*;

verus! {

/// A triple of argument lists that can be merged into one argument list.
pub trait ConcatArgs: Sized {
    /// The merged argument list.
    type Type;

    /// The merged argument list: every value of the three lists, in order.
    spec fn concat_spec(self) -> Self::Type;

    /// Merges the three argument lists.
    fn concat_args(self) -> (merged: Self::Type)
        ensures
            merged == self.concat_spec(),
    ;
}

impl ConcatArgs for ((), (), ()) {
    type Type = ();

    open spec fn concat_spec(self) -> () {
        ()
    }

    fn concat_args(self) -> (merged: ()) {
        let ((), (), ()) = self;
        ()
    }
}

impl<M1> ConcatArgs for ((), (M1,), ()) {
    type Type = (M1,);

    open spec fn concat_spec(self) -> (M1,) {
        (self.1.0,)
    }

    fn concat_args(self) -> (merged: (M1,)) {
        let ((), (m1,), ()) = self;
        (m1,)
    }
}

impl<M1, M2> ConcatArgs for ((), (M1, M2), ()) {
    type Type = (M1, M2);

    open spec fn concat_spec(self) -> (M1, M2) {
        (self.1.0, self.1.1)
    }

    fn concat_args(self) -> (merged: (M1, M2)) {
        let ((), (m1, m2), ()) = self;
        (m1, m2)
    }
}

impl<M1, M2, M3> ConcatArgs for ((), (M1, M2, M3), ()) {
    type Type = (M1, M2, M3);

    open spec fn concat_spec(self) -> (M1, M2, M3) {
        (self.1.0, self.1.1, self.1.2)
    }

    fn concat_args(self) -> (merged: (M1, M2, M3)) {
        let ((), (m1, m2, m3), ()) = self;
        (m1, m2, m3)
    }
}

impl<M1, M2, M3, M4> ConcatArgs for ((), (M1, M2, M3, M4), ()) {
    type Type = (M1, M2, M3, M4);

    open spec fn concat_spec(self) -> (M1, M2, M3, M4) {
        (self.1.0, self.1.1, self.1.2, self.1.3)
    }

    fn concat_args(self) -> (merged: (M1, M2, M3, M4)) {
        let ((), (m1, m2, m3, m4), ()) = self;
        (m1, m2, m3, m4)
    }
}

impl<M1, M2, M3, M4, M5> ConcatArgs for ((), (M1, M2, M3, M4, M5), ()) {
    type Type = (M1, M2, M3, M4, M5);

    open spec fn concat_spec(self) -> (M1, M2, M3, M4, M5) {
        (self.1.0, self.1.1, self.1.2, self.1.3, self.1.4)
    }

    fn concat_args(self) -> (merged: (M1, M2, M3, M4, M5)) {
        let ((), (m1, m2, m3, m4, m5), ()) = self;
        (m1, m2, m3, m4, m5)
    }
}

impl<M1, M2, M3, M4, M5, M6> ConcatArgs for ((), (M1, M2, M3, M4, M5, M6), ()) {
    type Type = (M1, M2, M3, M4, M5, M6);

    open spec fn concat_spec(self) -> (M1, M2, M3, M4, M5, M6) {
        (self.1.0, self.1.1, self.1.2, self.1.3, self.1.4, self.1.5)
    }

    fn concat_args(self) -> (merged: (M1, M2, M3, M4, M5, M6)) {
        let ((), (m1, m2, m3, m4, m5, m6), ()) = self;
        (m1, m2, m3, m4, m5, m6)
    }
}

impl<R> ConcatArgs for ((), (), (R,)) {
    type Type = (R,);

    open spec fn concat_spec(self) -> (R,) {
        (self.2.0,)
    }

    fn concat_args(self) -> (merged: (R,)) {
        let ((), (), (r,)) = self;
        (r,)
    }
}

impl<M1, R> ConcatArgs for ((), (M1,), (R,)) {
    type Type = (M1, R);

    open spec fn concat_spec(self) -> (M1, R) {
        (self.1.0, self.2.0)
    }

    fn concat_args(self) -> (merged: (M1, R)) {
        let ((), (m1,), (r,)) = self;
        (m1, r)
    }
}

impl<M1, M2, R> ConcatArgs for ((), (M1, M2), (R,)) {
    type Type = (M1, M2, R);

    open spec fn concat_spec(self) -> (M1, M2, R) {
        (self.1.0, self.1.1, self.2.0)
    }

    fn concat_args(self) -> (merged: (M1, M2, R)) {
        let ((), (m1, m2), (r,)) = self;
        (m1, m2, r)
    }
}

impl<M1, M2, M3, R> ConcatArgs for ((), (M1, M2, M3), (R,)) {
    type Type = (M1, M2, M3, R);

    open spec fn concat_spec(self) -> (M1, M2, M3, R) {
        (self.1.0, self.1.1, self.1.2, self.2.0)
    }

    fn concat_args(self) -> (merged: (M1, M2, M3, R)) {
        let ((), (m1, m2, m3), (r,)) = self;
        (m1, m2, m3, r)
    }
}

impl<M1, M2, M3, M4, R> ConcatArgs for ((), (M1, M2, M3, M4), (R,)) {
    type Type = (M1, M2, M3, M4, R);

    open spec fn concat_spec(self) -> (M1, M2, M3, M4, R) {
        (self.1.0, self.1.1, self.1.2, self.1.3, self.2.0)
    }

    fn concat_args(self) -> (merged: (M1, M2, M3, M4, R)) {
        let ((), (m1, m2, m3, m4), (r,)) = self;
        (m1, m2, m3, m4, r)
    }
}

impl<M1, M2, M3, M4, M5, R> ConcatArgs for ((), (M1, M2, M3, M4, M5), (R,)) {
    type Type = (M1, M2, M3, M4, M5, R);

    open spec fn concat_spec(self) -> (M1, M2, M3, M4, M5, R) {
        (self.1.0, self.1.1, self.1.2, self.1.3, self.1.4, self.2.0)
    }

    fn concat_args(self) -> (merged: (M1, M2, M3, M4, M5, R)) {
        let ((), (m1, m2, m3, m4, m5), (r,)) = self;
        (m1, m2, m3, m4, m5, r)
    }
}

impl<L> ConcatArgs for ((L,), (), ()) {
    type Type = (L,);

    open spec fn concat_spec(self) -> (L,) {
        (self.0.0,)
    }

    fn concat_args(self) -> (merged: (L,)) {
        let ((l,), (), ()) = self;
        (l,)
    }
}

impl<L, M1> ConcatArgs for ((L,), (M1,), ()) {
    type Type = (L, M1);

    open spec fn concat_spec(self) -> (L, M1) {
        (self.0.0, self.1.0)
    }

    fn concat_args(self) -> (merged: (L, M1)) {
        let ((l,), (m1,), ()) = self;
        (l, m1)
    }
}

impl<L, M1, M2> ConcatArgs for ((L,), (M1, M2), ()) {
    type Type = (L, M1, M2);

    open spec fn concat_spec(self) -> (L, M1, M2) {
        (self.0.0, self.1.0, self.1.1)
    }

    fn concat_args(self) -> (merged: (L, M1, M2)) {
        let ((l,), (m1, m2), ()) = self;
        (l, m1, m2)
    }
}

impl<L, M1, M2, M3> ConcatArgs for ((L,), (M1, M2, M3), ()) {
    type Type = (L, M1, M2, M3);

    open spec fn concat_spec(self) -> (L, M1, M2, M3) {
        (self.0.0, self.1.0, self.1.1, self.1.2)
    }

    fn concat_args(self) -> (merged: (L, M1, M2, M3)) {
        let ((l,), (m1, m2, m3), ()) = self;
        (l, m1, m2, m3)
    }
}

impl<L, M1, M2, M3, M4> ConcatArgs for ((L,), (M1, M2, M3, M4), ()) {
    type Type = (L, M1, M2, M3, M4);

    open spec fn concat_spec(self) -> (L, M1, M2, M3, M4) {
        (self.0.0, self.1.0, self.1.1, self.1.2, self.1.3)
    }

    fn concat_args(self) -> (merged: (L, M1, M2, M3, M4)) {
        let ((l,), (m1, m2, m3, m4), ()) = self;
        (l, m1, m2, m3, m4)
    }
}

impl<L, M1, M2, M3, M4, M5> ConcatArgs for ((L,), (M1, M2, M3, M4, M5), ()) {
    type Type = (L, M1, M2, M3, M4, M5);

    open spec fn concat_spec(self) -> (L, M1, M2, M3, M4, M5) {
        (self.0.0, self.1.0, self.1.1, self.1.2, self.1.3, self.1.4)
    }

    fn concat_args(self) -> (merged: (L, M1, M2, M3, M4, M5)) {
        let ((l,), (m1, m2, m3, m4, m5), ()) = self;
        (l, m1, m2, m3, m4, m5)
    }
}

impl<L, R> ConcatArgs for ((L,), (), (R,)) {
    type Type = (L, R);

    open spec fn concat_spec(self) -> (L, R) {
        (self.0.0, self.2.0)
    }

    fn concat_args(self) -> (merged: (L, R)) {
        let ((l,), (), (r,)) = self;
        (l, r)
    }
}

impl<L, M1, R> ConcatArgs for ((L,), (M1,), (R,)) {
    type Type = (L, M1, R);

    open spec fn concat_spec(self) -> (L, M1, R) {
        (self.0.0, self.1.0, self.2.0)
    }

    fn concat_args(self) -> (merged: (L, M1, R)) {
        let ((l,), (m1,), (r,)) = self;
        (l, m1, r)
    }
}

impl<L, M1, M2, R> ConcatArgs for ((L,), (M1, M2), (R,)) {
    type Type = (L, M1, M2, R);

    open spec fn concat_spec(self) -> (L, M1, M2, R) {
        (self.0.0, self.1.0, self.1.1, self.2.0)
    }

    fn concat_args(self) -> (merged: (L, M1, M2, R)) {
        let ((l,), (m1, m2), (r,)) = self;
        (l, m1, m2, r)
    }
}

impl<L, M1, M2, M3, R> ConcatArgs for ((L,), (M1, M2, M3), (R,)) {
    type Type = (L, M1, M2, M3, R);

    open spec fn concat_spec(self) -> (L, M1, M2, M3, R) {
        (self.0.0, self.1.0, self.1.1, self.1.2, self.2.0)
    }

    fn concat_args(self) -> (merged: (L, M1, M2, M3, R)) {
        let ((l,), (m1, m2, m3), (r,)) = self;
        (l, m1, m2, m3, r)
    }
}

impl<L, M1, M2, M3, M4, R> ConcatArgs for ((L,), (M1, M2, M3, M4), (R,)) {
    type Type = (L, M1, M2, M3, M4, R);

    open spec fn concat_spec(self) -> (L, M1, M2, M3, M4, R) {
        (self.0.0, self.1.0, self.1.1, self.1.2, self.1.3, self.2.0)
    }

    fn concat_args(self) -> (merged: (L, M1, M2, M3, M4, R)) {
        let ((l,), (m1, m2, m3, m4), (r,)) = self;
        (l, m1, m2, m3, m4, r)
    }
}

} // verus!
