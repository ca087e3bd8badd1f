use super::{IntoSIMDZip, SIMDZippedIterable, SIMDZippedIterator, SIMDZippedObject, Zip};
use crate::iters::{packed, same_stream, UncheckedIterator};
use vstd::prelude::*;

verus! {

/// Eleven streams of one length and one width zip into one. The first is
/// the leader.
impl<A, B, C, D, E, F, G, H, I, J, K> IntoSIMDZip for (A, B, C, D, E, F, G, H, I, J, K) where
    A: UncheckedIterator,
    B: UncheckedIterator,
    C: UncheckedIterator,
    D: UncheckedIterator,
    E: UncheckedIterator,
    F: UncheckedIterator,
    G: UncheckedIterator,
    H: UncheckedIterator,
    I: UncheckedIterator,
    J: UncheckedIterator,
    K: UncheckedIterator,
 {
    open spec fn members_wf(&self) -> bool {
        &&& self.0.wf()
        &&& self.1.wf()
        &&& self.2.wf()
        &&& self.3.wf()
        &&& self.4.wf()
        &&& self.5.wf()
        &&& self.6.wf()
        &&& self.7.wf()
        &&& self.8.wf()
        &&& self.9.wf()
        &&& self.10.wf()
        &&& self.1.spec_width() == self.0.spec_width()
        &&& self.2.spec_width() == self.0.spec_width()
        &&& self.3.spec_width() == self.0.spec_width()
        &&& self.4.spec_width() == self.0.spec_width()
        &&& self.5.spec_width() == self.0.spec_width()
        &&& self.6.spec_width() == self.0.spec_width()
        &&& self.7.spec_width() == self.0.spec_width()
        &&& self.8.spec_width() == self.0.spec_width()
        &&& self.9.spec_width() == self.0.spec_width()
        &&& self.10.spec_width() == self.0.spec_width()
    }

    open spec fn same_length(&self) -> bool {
        &&& self.1.elements().len() == self.0.elements().len()
        &&& self.2.elements().len() == self.0.elements().len()
        &&& self.3.elements().len() == self.0.elements().len()
        &&& self.4.elements().len() == self.0.elements().len()
        &&& self.5.elements().len() == self.0.elements().len()
        &&& self.6.elements().len() == self.0.elements().len()
        &&& self.7.elements().len() == self.0.elements().len()
        &&& self.8.elements().len() == self.0.elements().len()
        &&& self.9.elements().len() == self.0.elements().len()
        &&& self.10.elements().len() == self.0.elements().len()
    }

    open spec fn in_lockstep(&self) -> bool {
        &&& self.1.spec_scalar_pos() == self.0.spec_scalar_pos()
        &&& self.2.spec_scalar_pos() == self.0.spec_scalar_pos()
        &&& self.3.spec_scalar_pos() == self.0.spec_scalar_pos()
        &&& self.4.spec_scalar_pos() == self.0.spec_scalar_pos()
        &&& self.5.spec_scalar_pos() == self.0.spec_scalar_pos()
        &&& self.6.spec_scalar_pos() == self.0.spec_scalar_pos()
        &&& self.7.spec_scalar_pos() == self.0.spec_scalar_pos()
        &&& self.8.spec_scalar_pos() == self.0.spec_scalar_pos()
        &&& self.9.spec_scalar_pos() == self.0.spec_scalar_pos()
        &&& self.10.spec_scalar_pos() == self.0.spec_scalar_pos()
    }

    open spec fn same_streams(&self, other: &Self) -> bool {
        &&& same_stream(&self.0, &other.0)
        &&& same_stream(&self.1, &other.1)
        &&& same_stream(&self.2, &other.2)
        &&& same_stream(&self.3, &other.3)
        &&& same_stream(&self.4, &other.4)
        &&& same_stream(&self.5, &other.5)
        &&& same_stream(&self.6, &other.6)
        &&& same_stream(&self.7, &other.7)
        &&& same_stream(&self.8, &other.8)
        &&& same_stream(&self.9, &other.9)
        &&& same_stream(&self.10, &other.10)
    }

    open spec fn positions(&self) -> Seq<nat> {
        seq![
            self.0.spec_scalar_pos(),
            self.1.spec_scalar_pos(),
            self.2.spec_scalar_pos(),
            self.3.spec_scalar_pos(),
            self.4.spec_scalar_pos(),
            self.5.spec_scalar_pos(),
            self.6.spec_scalar_pos(),
            self.7.spec_scalar_pos(),
            self.8.spec_scalar_pos(),
            self.9.spec_scalar_pos(),
            self.10.spec_scalar_pos(),
        ]
    }

    fn lengths_match(&self) -> (b: bool) {
        let len = self.0.scalar_len();
        len == self.1.scalar_len()
            && len == self.2.scalar_len()
            && len == self.3.scalar_len()
            && len == self.4.scalar_len()
            && len == self.5.scalar_len()
            && len == self.6.scalar_len()
            && len == self.7.scalar_len()
            && len == self.8.scalar_len()
            && len == self.9.scalar_len()
            && len == self.10.scalar_len()
    }

    fn zip(self) -> (z: Zip<Self>)
        ensures
            z.wf(),
            z.spec_scalar_len() == self.0.elements().len(),
            z.spec_scalar_pos() == self.0.spec_scalar_pos(),
            z.spec_width() == self.0.spec_width(),
            z.spec_size() == self.0.spec_size(),
    {
        Zip { iters: self }
    }
}

impl<A, B, C, D, E, F, G, H, I, J, K> SIMDZippedObject for Zip<(A, B, C, D, E, F, G, H, I, J, K)> where
    A: UncheckedIterator,
    B: UncheckedIterator,
    C: UncheckedIterator,
    D: UncheckedIterator,
    E: UncheckedIterator,
    F: UncheckedIterator,
    G: UncheckedIterator,
    H: UncheckedIterator,
    I: UncheckedIterator,
    J: UncheckedIterator,
    K: UncheckedIterator,
 {
    type Scalars = (A::Scalar, B::Scalar, C::Scalar, D::Scalar, E::Scalar, F::Scalar, G::Scalar, H::Scalar, I::Scalar, J::Scalar, K::Scalar);

    type Vectors = (A::Vector, B::Vector, C::Vector, D::Vector, E::Vector, F::Vector, G::Vector, H::Vector, I::Vector, J::Vector, K::Vector);

    open spec fn wf(&self) -> bool {
        self.members().members_wf() && self.members().same_length()
    }

    open spec fn spec_width(&self) -> nat {
        self.members().0.spec_width()
    }

    open spec fn spec_size(&self) -> nat {
        self.members().0.spec_size()
    }

    open spec fn spec_scalar_len(&self) -> nat {
        self.members().0.elements().len()
    }

    open spec fn spec_scalar_pos(&self) -> nat {
        self.members().0.spec_scalar_pos()
    }

    open spec fn packs(&self, pos: nat, n: nat, v: Self::Vectors) -> bool {
        &&& A::lanes(&v.0) == packed(&self.members().0, pos, n)
        &&& B::lanes(&v.1) == packed(&self.members().1, pos, n)
        &&& C::lanes(&v.2) == packed(&self.members().2, pos, n)
        &&& D::lanes(&v.3) == packed(&self.members().3, pos, n)
        &&& E::lanes(&v.4) == packed(&self.members().4, pos, n)
        &&& F::lanes(&v.5) == packed(&self.members().5, pos, n)
        &&& G::lanes(&v.6) == packed(&self.members().6, pos, n)
        &&& H::lanes(&v.7) == packed(&self.members().7, pos, n)
        &&& I::lanes(&v.8) == packed(&self.members().8, pos, n)
        &&& J::lanes(&v.9) == packed(&self.members().9, pos, n)
        &&& K::lanes(&v.10) == packed(&self.members().10, pos, n)
    }

    open spec fn valid_lanes(&self, n: nat) -> nat {
        n
    }

    open spec fn is_default(&self, v: Self::Vectors) -> bool {
        &&& A::lanes(&v.0) == self.members().0.default_lanes()
        &&& B::lanes(&v.1) == self.members().1.default_lanes()
        &&& C::lanes(&v.2) == self.members().2.default_lanes()
        &&& D::lanes(&v.3) == self.members().3.default_lanes()
        &&& E::lanes(&v.4) == self.members().4.default_lanes()
        &&& F::lanes(&v.5) == self.members().5.default_lanes()
        &&& G::lanes(&v.6) == self.members().6.default_lanes()
        &&& H::lanes(&v.7) == self.members().7.default_lanes()
        &&& I::lanes(&v.8) == self.members().8.default_lanes()
        &&& J::lanes(&v.9) == self.members().9.default_lanes()
        &&& K::lanes(&v.10) == self.members().10.default_lanes()
    }

    proof fn lemma_wf(&self) {
        self.members().0.lemma_wf();
    }

    fn width(&self) -> (w: usize) {
        self.iters.0.width()
    }

    fn size(&self) -> (s: usize) {
        self.iters.0.size()
    }
}

impl<A, B, C, D, E, F, G, H, I, J, K> SIMDZippedIterable for Zip<(A, B, C, D, E, F, G, H, I, J, K)> where
    A: UncheckedIterator,
    B: UncheckedIterator,
    C: UncheckedIterator,
    D: UncheckedIterator,
    E: UncheckedIterator,
    F: UncheckedIterator,
    G: UncheckedIterator,
    H: UncheckedIterator,
    I: UncheckedIterator,
    J: UncheckedIterator,
    K: UncheckedIterator,
 {
    fn scalar_pos(&self) -> (pos: usize) {
        self.iters.0.scalar_pos()
    }

    fn len(&self) -> (len: usize) {
        self.iters.0.scalar_len()
    }

    /// Only the leader moves. The next vector-tuple that the zip hands out
    /// brings the others to the leader's position.
    fn advance(&mut self, amount: usize)
        ensures
            final(self).members().same_streams(&old(self).members()),
            final(self).members().positions() == old(self).members().positions().update(
                0,
                final(self).spec_scalar_pos(),
            ),
            old(self).members().in_lockstep() ==> (final(self).members().in_lockstep() <==> amount
                == 0),
    {
        self.iters.0.advance(amount);
    }

    fn default(&self) -> (v: Self::Vectors) {
        (
            self.iters.0.default(),
            self.iters.1.default(),
            self.iters.2.default(),
            self.iters.3.default(),
            self.iters.4.default(),
            self.iters.5.default(),
            self.iters.6.default(),
            self.iters.7.default(),
            self.iters.8.default(),
            self.iters.9.default(),
            self.iters.10.default(),
        )
    }

    /// The leader is asked first. The others read at the position that the
    /// leader had, and all end one vector further.
    fn next(&mut self) -> (r: Option<Self::Vectors>)
        ensures
            final(self).members().same_streams(&old(self).members()),
            r is Some ==> final(self).members().in_lockstep(),
            r is None ==> final(self).members().positions() == old(self).members().positions(),
    {
        let pos = self.iters.0.scalar_pos();
        match self.iters.0.next() {
            Some(v) => Some(
                (
                    v,
                    self.iters.1.next_unchecked(pos),
                    self.iters.2.next_unchecked(pos),
                    self.iters.3.next_unchecked(pos),
                    self.iters.4.next_unchecked(pos),
                    self.iters.5.next_unchecked(pos),
                    self.iters.6.next_unchecked(pos),
                    self.iters.7.next_unchecked(pos),
                    self.iters.8.next_unchecked(pos),
                    self.iters.9.next_unchecked(pos),
                    self.iters.10.next_unchecked(pos),
                ),
            ),
            None => None,
        }
    }
}

impl<A, B, C, D, E, F, G, H, I, J, K> SIMDZippedIterator for Zip<(A, B, C, D, E, F, G, H, I, J, K)> where
    A: UncheckedIterator,
    B: UncheckedIterator,
    C: UncheckedIterator,
    D: UncheckedIterator,
    E: UncheckedIterator,
    F: UncheckedIterator,
    G: UncheckedIterator,
    H: UncheckedIterator,
    I: UncheckedIterator,
    J: UncheckedIterator,
    K: UncheckedIterator,
 {
    /// The leader is asked first. The others fill as many lanes as the leader
    /// did, from the position that the leader had, and all end where the
    /// streams end.
    fn end(&mut self) -> (r: Option<(Self::Vectors, usize)>)
        ensures
            final(self).members().same_streams(&old(self).members()),
            r is Some ==> final(self).members().in_lockstep(),
            r is None ==> final(self).members().positions() == old(self).members().positions(),
    {
        let pos = self.iters.0.scalar_pos();
        match self.iters.0.end() {
            Some((v, n)) => Some(
                (
                    (
                        v,
                        self.iters.1.end_unchecked(pos, n),
                        self.iters.2.end_unchecked(pos, n),
                        self.iters.3.end_unchecked(pos, n),
                        self.iters.4.end_unchecked(pos, n),
                        self.iters.5.end_unchecked(pos, n),
                        self.iters.6.end_unchecked(pos, n),
                        self.iters.7.end_unchecked(pos, n),
                        self.iters.8.end_unchecked(pos, n),
                        self.iters.9.end_unchecked(pos, n),
                        self.iters.10.end_unchecked(pos, n),
                    ),
                    n,
                ),
            ),
            None => None,
        }
    }
}

} // verus!
