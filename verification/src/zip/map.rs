use super::{
    step_at, SIMDZipMap, SIMDZippedIterable, SIMDZippedIterator, SIMDZippedObject,
};
use crate::vecs::Packed;
use vstd::prelude::*;

verus! {

impl<I, F, A> SIMDZippedObject for SIMDZipMap<I, F> where
    I: SIMDZippedIterator,
    F: FnMut(I::Vectors) -> A,
    A: Packed,
 {
    type Scalars = A::Scalar;

    type Vectors = A;

    /// The wrapped stream is valid, the function may be called on every
    /// vector-tuple that the wrapped stream hands out from where it stands
    /// on, and the valid lanes of a tail can be counted in scalars of the
    /// function's result.
    open spec fn wf(&self) -> bool {
        &&& self.inner().wf()
        &&& A::spec_size() > 0
        &&& forall|n: nat|
            0 < n <= self.inner().spec_width() ==> #[trigger] self.inner().valid_lanes(n)
                * self.inner().spec_size() <= usize::MAX
        &&& forall|pos: nat, n: nat, x: I::Vectors|
            self.inner().spec_scalar_pos() <= pos && n > 0 && n == step_at(&self.inner(), pos)
                && #[trigger] self.inner().packs(pos, n, x) ==> call_requires(
                self.transform(),
                (x,),
            )
    }

    open spec fn spec_width(&self) -> nat {
        self.inner().spec_width()
    }

    open spec fn spec_size(&self) -> nat {
        A::spec_size()
    }

    open spec fn spec_scalar_len(&self) -> nat {
        self.inner().spec_scalar_len()
    }

    open spec fn spec_scalar_pos(&self) -> nat {
        self.inner().spec_scalar_pos()
    }

    open spec fn packs(&self, pos: nat, n: nat, v: A) -> bool {
        exists|x: I::Vectors|
            self.inner().packs(pos, n, x) && call_ensures(self.transform(), (x,), v)
    }

    open spec fn valid_lanes(&self, n: nat) -> nat {
        self.inner().valid_lanes(n) * self.inner().spec_size() / A::spec_size()
    }

    open spec fn is_default(&self, v: A) -> bool {
        A::is_default(&v)
    }

    proof fn lemma_wf(&self) {
        self.inner().lemma_wf();
    }

    /// The width of the wrapped stream: a step of the map is a step of the
    /// wrapped stream.
    fn width(&self) -> (w: usize) {
        self.iter.width()
    }

    /// The size of one scalar of the function's result.
    fn size(&self) -> (s: usize) {
        A::size()
    }
}

impl<I, F, A> SIMDZippedIterable for SIMDZipMap<I, F> where
    I: SIMDZippedIterator,
    F: FnMut(I::Vectors) -> A,
    A: Packed,
 {
    fn scalar_pos(&self) -> (pos: usize) {
        self.iter.scalar_pos()
    }

    fn len(&self) -> (len: usize) {
        self.iter.len()
    }

    /// Return the length of this iterator, measured in scalars.
    fn scalar_len(&self) -> (len: usize) {
        self.iter.scalar_len()
    }

    /// Return the length of this iterator, measured in vectors.
    fn vector_len(&self) -> (len: usize) {
        self.iter.vector_len()
    }

    fn advance(&mut self, amount: usize) {
        self.iter.advance(amount)
    }

    /// The neutral value of the function's result type: the function is not
    /// called to make one.
    fn default(&self) -> (v: A) {
        A::default()
    }

    fn next(&mut self) -> (r: Option<A>) {
        proof {
            self.inner().lemma_wf();
        }
        match self.iter.next() {
            Some(x) => Some((self.func)(x)),
            None => None,
        }
    }
}

impl<I, F, A> SIMDZippedIterator for SIMDZipMap<I, F> where
    I: SIMDZippedIterator,
    F: FnMut(I::Vectors) -> A,
    A: Packed,
 {
    /// The tail of the wrapped stream, mapped. Its valid lanes are counted
    /// in scalars of the function's result: as many as fit into the bytes
    /// of the wrapped stream's valid lanes.
    fn end(&mut self) -> (r: Option<(A, usize)>) {
        proof {
            self.inner().lemma_wf();
        }
        match self.iter.end() {
            Some((x, n)) => {
                let nr = n * self.iter.size() / A::size();
                Some(((self.func)(x), nr))
            },
            None => None,
        }
    }
}

} // verus!
