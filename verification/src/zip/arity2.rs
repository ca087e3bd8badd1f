use super::{IntoSIMDZip, SIMDZippedIterable, SIMDZippedIterator, SIMDZippedObject, Zip};
use crate::iters::{packed, same_stream, UncheckedIterator};
use vstd::prelude::*;

verus! {

/// Two streams of one length and one width zip into one. The first is
/// the leader.
impl<A, B> IntoSIMDZip for (A, B) where
    A: UncheckedIterator,
    B: UncheckedIterator,
 {
    open spec fn members_wf(&self) -> bool {
        &&& self.0.wf()
        &&& self.1.wf()
        &&& self.1.spec_width() == self.0.spec_width()
    }

    open spec fn same_length(&self) -> bool {
        self.1.elements().len() == self.0.elements().len()
    }

    open spec fn in_lockstep(&self) -> bool {
        self.1.spec_scalar_pos() == self.0.spec_scalar_pos()
    }

    open spec fn same_streams(&self, other: &Self) -> bool {
        &&& same_stream(&self.0, &other.0)
        &&& same_stream(&self.1, &other.1)
    }

    open spec fn positions(&self) -> Seq<nat> {
        seq![self.0.spec_scalar_pos(), self.1.spec_scalar_pos()]
    }

    fn lengths_match(&self) -> (b: bool) {
        let len = self.0.scalar_len();
        len == self.1.scalar_len()
    }

    fn zip(self) -> (z: Zip<Self>)
        ensures
            z.wf(),
            z.spec_scalar_len() == self.0.elements().len(),
            z.spec_scalar_pos() == self.0.spec_scalar_pos(),
            z.spec_width() == self.0.spec_width(),
            z.spec_size() == self.0.spec_size(),
    {
        Zip { iters: self }
    }
}

impl<A, B> SIMDZippedObject for Zip<(A, B)> where
    A: UncheckedIterator,
    B: UncheckedIterator,
 {
    type Scalars = (A::Scalar, B::Scalar);

    type Vectors = (A::Vector, B::Vector);

    open spec fn wf(&self) -> bool {
        self.members().members_wf() && self.members().same_length()
    }

    open spec fn spec_width(&self) -> nat {
        self.members().0.spec_width()
    }

    open spec fn spec_size(&self) -> nat {
        self.members().0.spec_size()
    }

    open spec fn spec_scalar_len(&self) -> nat {
        self.members().0.elements().len()
    }

    open spec fn spec_scalar_pos(&self) -> nat {
        self.members().0.spec_scalar_pos()
    }

    open spec fn packs(&self, pos: nat, n: nat, v: Self::Vectors) -> bool {
        &&& A::lanes(&v.0) == packed(&self.members().0, pos, n)
        &&& B::lanes(&v.1) == packed(&self.members().1, pos, n)
    }

    open spec fn valid_lanes(&self, n: nat) -> nat {
        n
    }

    open spec fn is_default(&self, v: Self::Vectors) -> bool {
        &&& A::lanes(&v.0) == self.members().0.default_lanes()
        &&& B::lanes(&v.1) == self.members().1.default_lanes()
    }

    proof fn lemma_wf(&self) {
        self.members().0.lemma_wf();
    }

    fn width(&self) -> (w: usize) {
        self.iters.0.width()
    }

    fn size(&self) -> (s: usize) {
        self.iters.0.size()
    }
}

impl<A, B> SIMDZippedIterable for Zip<(A, B)> where
    A: UncheckedIterator,
    B: UncheckedIterator,
 {
    fn scalar_pos(&self) -> (pos: usize) {
        self.iters.0.scalar_pos()
    }

    fn len(&self) -> (len: usize) {
        self.iters.0.scalar_len()
    }

    /// Only the leader moves. The next vector-tuple that the zip hands out
    /// brings the others to the leader's position.
    fn advance(&mut self, amount: usize)
        ensures
            final(self).members().same_streams(&old(self).members()),
            final(self).members().positions() == old(self).members().positions().update(
                0,
                final(self).spec_scalar_pos(),
            ),
            old(self).members().in_lockstep() ==> (final(self).members().in_lockstep() <==> amount
                == 0),
    {
        self.iters.0.advance(amount);
    }

    fn default(&self) -> (v: Self::Vectors) {
        (self.iters.0.default(), self.iters.1.default())
    }

    /// The leader is asked first. The others read at the position that the
    /// leader had, and all end one vector further.
    fn next(&mut self) -> (r: Option<Self::Vectors>)
        ensures
            final(self).members().same_streams(&old(self).members()),
            r is Some ==> final(self).members().in_lockstep(),
            r is None ==> final(self).members().positions() == old(self).members().positions(),
    {
        let pos = self.iters.0.scalar_pos();
        match self.iters.0.next() {
            Some(v) => Some((v, self.iters.1.next_unchecked(pos))),
            None => None,
        }
    }
}

impl<A, B> SIMDZippedIterator for Zip<(A, B)> where
    A: UncheckedIterator,
    B: UncheckedIterator,
 {
    /// The leader is asked first. The others fill as many lanes as the leader
    /// did, from the position that the leader had, and all end where the
    /// streams end.
    fn end(&mut self) -> (r: Option<(Self::Vectors, usize)>)
        ensures
            final(self).members().same_streams(&old(self).members()),
            r is Some ==> final(self).members().in_lockstep(),
            r is None ==> final(self).members().positions() == old(self).members().positions(),
    {
        let pos = self.iters.0.scalar_pos();
        match self.iters.0.end() {
            Some((v, n)) => Some(((v, self.iters.1.end_unchecked(pos, n)), n)),
            None => None,
        }
    }
}

} // verus!
