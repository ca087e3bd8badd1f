use vstd::prelude::*;

mod tuples;

verus! {

/// A vector type that a function mapped over a stream may hand out: it knows
/// the size of one of its scalars and has a neutral value that exists
/// without any stream. A tuple of such vectors is one too; the size of its
/// scalars is that of its first member's, as the size of a zip is its
/// leader's.
pub trait Packed: Sized {
    type Scalar;

    /// Size in bytes of one scalar of this vector type.
    spec fn spec_size() -> nat;

    /// Whether `v` is the neutral vector of this type.
    spec fn is_default(v: &Self) -> bool;

    /// Return the size in bytes of one scalar of this vector type.
    fn size() -> (s: usize)
        ensures
            s == Self::spec_size(),
    ;

    /// Return the neutral vector of this type.
    fn default() -> (v: Self)
        ensures
            Self::is_default(&v),
    ;
}

/// An array of `W` lanes is a vector; its neutral value holds a default
/// scalar in every lane.
impl<T: Copy + Default, const W: usize> Packed for [T; W] {
    type Scalar = T;

    open spec fn spec_size() -> nat {
        vstd::layout::size_of::<T>()
    }

    open spec fn is_default(v: &Self) -> bool {
        exists|d: T| call_ensures(T::default, (), d) && v@ == Seq::new(W as nat, |i: int| d)
    }

    fn size() -> (s: usize) {
        std::mem::size_of::<T>()
    }

    fn default() -> (v: Self) {
        let d = T::default();
        let v = [d; W];
        assert(v@ =~= Seq::new(W as nat, |i: int| d));
        v
    }
}

} // verus!
