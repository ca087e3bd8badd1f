use crate::iters::step_len;
use crate::vecs::Packed;
use vstd::prelude::*;

mod arity2;
mod arity3;
mod arity4;
mod arity5;
mod arity6;
mod arity7;
mod arity8;
mod arity9;
mod arity10;
mod arity11;
mod arity12;
mod arity13;
mod map;

verus! {

/// A lazy iterator which returns tuples of the elements of its contained
/// iterators.
#[derive(Debug)]
pub struct Zip<T> {
    iters: T,
}

/// A lazy mapping iterator which applies its function to a stream of tuples of
/// vectors.
pub struct SIMDZipMap<I, F> {
    iter: I,
    func: F,
}

/// A trait which can transform a collection of iterators into a `Zip`. The
/// collections are the tuples of two to thirteen streams; the first stream
/// of a tuple is its leader.
pub trait IntoSIMDZip: Sized {
    /// Every member is a valid stream, and all have one vector width.
    spec fn members_wf(&self) -> bool;

    /// All members hold the same number of scalars.
    spec fn same_length(&self) -> bool;

    /// All members stand at the same scalar position.
    spec fn in_lockstep(&self) -> bool;

    /// Every member of `self` is the member of `other` in its place, at a
    /// position of its own.
    spec fn same_streams(&self, other: &Self) -> bool;

    /// The scalar positions of the members, the leader's first.
    spec fn positions(&self) -> Seq<nat>;

    /// Whether all members hold the same number of scalars.
    fn lengths_match(&self) -> (b: bool)
        requires
            self.members_wf(),
        ensures
            b == self.same_length(),
    ;

    /// Return an iterator which may iterate over `self` in lockstep. The
    /// members must be of one length.
    fn zip(self) -> (z: Zip<Self>)
        requires
            self.members_wf(),
            self.same_length(),
        ensures
            z.members() == self,
    ;

    /// Return an iterator which may iterate over `self` in lockstep, or hand
    /// the members back untouched if they are not of one length.
    fn try_zip(self) -> (r: Result<Zip<Self>, Self>)
        requires
            self.members_wf(),
        ensures
            match r {
                Ok(z) => self.same_length() && z.members() == self,
                Err(members) => !self.same_length() && members == self,
            },
    {
        if self.lengths_match() {
            Ok(self.zip())
        } else {
            Err(self)
        }
    }
}

/// What a stream of vector-tuples is, as far as contracts are concerned:
/// it has a length and a position in scalars and a width, and says which
/// vector-tuples it hands out for which scalars.
pub trait SIMDZippedObject: Sized {
    type Scalars;

    type Vectors;

    /// The stream is in a valid state.
    spec fn wf(&self) -> bool;

    /// Scalars that one full vector-tuple takes from each zipped stream.
    spec fn spec_width(&self) -> nat;

    /// Size in bytes of one scalar.
    spec fn spec_size(&self) -> nat;

    /// Number of scalars in each zipped stream.
    spec fn spec_scalar_len(&self) -> nat;

    /// Number of scalars consumed so far.
    spec fn spec_scalar_pos(&self) -> nat;

    /// Whether `v` is a vector-tuple that the stream hands out for the `n`
    /// scalars at `pos`.
    spec fn packs(&self, pos: nat, n: nat, v: Self::Vectors) -> bool;

    /// The number of valid lanes that `end` reports for a vector-tuple that
    /// holds `n` scalars.
    spec fn valid_lanes(&self, n: nat) -> nat;

    /// Whether `v` is a default vector-tuple of the stream.
    spec fn is_default(&self, v: Self::Vectors) -> bool;

    /// A valid stream has a width, and stands within its scalars.
    proof fn lemma_wf(&self)
        requires
            self.wf(),
        ensures
            self.spec_width() > 0,
            self.spec_scalar_pos() <= self.spec_scalar_len() <= usize::MAX,
    ;

    /// Return the vector length of this object.
    fn width(&self) -> (w: usize)
        requires
            self.wf(),
        ensures
            w == self.spec_width(),
    ;

    /// Return the size in bytes of one scalar of this object.
    fn size(&self) -> (s: usize)
        requires
            self.wf(),
        ensures
            s == self.spec_size(),
    ;
}

/// `a` and `b` are one stream at two positions: they hand out the same
/// vector-tuples at the same places.
pub open spec fn same_source<I: SIMDZippedObject>(a: &I, b: &I) -> bool {
    &&& a.spec_width() == b.spec_width()
    &&& a.spec_size() == b.spec_size()
    &&& a.spec_scalar_len() == b.spec_scalar_len()
    &&& forall|pos: nat, n: nat, v: I::Vectors|
        #![trigger a.packs(pos, n, v)]
        #![trigger b.packs(pos, n, v)]
        a.packs(pos, n, v) == b.packs(pos, n, v)
    &&& forall|n: nat|
        #![trigger a.valid_lanes(n)]
        #![trigger b.valid_lanes(n)]
        a.valid_lanes(n) == b.valid_lanes(n)
    &&& forall|v: I::Vectors|
        #![trigger a.is_default(v)]
        #![trigger b.is_default(v)]
        a.is_default(v) == b.is_default(v)
}

/// Number of scalars that the step at `pos` takes from each zipped stream.
pub open spec fn step_at<I: SIMDZippedObject>(it: &I, pos: nat) -> nat {
    step_len(it.spec_scalar_len(), pos, it.spec_width())
}

/// Whether `func` may be called on every vector-tuple that `it` hands out
/// from `pos` to its end.
pub open spec fn each_ok<I: SIMDZippedObject, F: FnMut(I::Vectors) -> ()>(
    it: &I,
    func: &F,
    pos: nat,
) -> bool
    decreases it.spec_scalar_len() - pos,
{
    let n = step_at(it, pos);
    n > 0 ==> {
        &&& forall|v: I::Vectors| it.packs(pos, n, v) ==> call_requires(*func, (v,))
        &&& each_ok(it, func, pos + n)
    }
}

/// Whether `func` has run once on a vector-tuple of every step of `it`
/// from `pos` to its end.
pub open spec fn each_done<I: SIMDZippedObject, F: FnMut(I::Vectors) -> ()>(
    it: &I,
    func: &F,
    pos: nat,
) -> bool
    decreases it.spec_scalar_len() - pos,
{
    let n = step_at(it, pos);
    n > 0 ==> {
        &&& exists|v: I::Vectors| it.packs(pos, n, v) && call_ensures(*func, (v,), ())
        &&& each_done(it, func, pos + n)
    }
}

/// Whether `func` may be called, with `acc` and then with each of its own
/// results in turn, on every vector-tuple that `it` hands out from `pos` to
/// its end.
pub open spec fn reduce_ok<I: SIMDZippedObject, A, F: FnMut(A, I::Vectors) -> A>(
    it: &I,
    func: &F,
    pos: nat,
    acc: A,
) -> bool
    decreases it.spec_scalar_len() - pos,
{
    let n = step_at(it, pos);
    n > 0 ==> forall|v: I::Vectors|
        it.packs(pos, n, v) ==> {
            &&& call_requires(*func, (acc, v))
            &&& forall|mid: A|
                call_ensures(*func, (acc, v), mid) ==> reduce_ok(it, func, pos + n, mid)
        }
}

/// Whether `out` is a result of threading `acc` through `func` over the
/// vector-tuples that `it` hands out from `pos` to its end, one per step
/// and in order.
pub open spec fn reduces<I: SIMDZippedObject, A, F: FnMut(A, I::Vectors) -> A>(
    it: &I,
    func: &F,
    pos: nat,
    acc: A,
    out: A,
) -> bool
    decreases it.spec_scalar_len() - pos,
{
    let n = step_at(it, pos);
    if n > 0 {
        exists|v: I::Vectors, mid: A|
            it.packs(pos, n, v) && call_ensures(*func, (acc, v), mid) && reduces(
                it,
                func,
                pos + n,
                mid,
                out,
            )
    } else {
        out == acc
    }
}

/// An iterator which automatically packs the values it iterates over into SIMD
/// vectors.
pub trait SIMDZippedIterable: SIMDZippedObject {
    /// Return the current position of this iterator, measured in scalars
    fn scalar_pos(&self) -> (pos: usize)
        requires
            self.wf(),
        ensures
            pos == self.spec_scalar_pos(),
    ;

    /// Return the current position of this iterator, measured in vectors.
    fn vector_pos(&self) -> (pos: usize)
        requires
            self.wf(),
        ensures
            pos == self.spec_scalar_pos() / self.spec_width(),
    {
        proof {
            self.lemma_wf();
        }
        self.scalar_pos() / self.width()
    }

    /// Return the number of scalars in each zipped stream.
    fn len(&self) -> (len: usize)
        requires
            self.wf(),
        ensures
            len == self.spec_scalar_len(),
    ;

    /// Return the length of this iterator, measured in scalars.
    fn scalar_len(&self) -> (len: usize)
        requires
            self.wf(),
        ensures
            len == self.spec_scalar_len(),
    {
        self.len()
    }

    /// Return the length of this iterator, measured in vectors.
    fn vector_len(&self) -> (len: usize)
        requires
            self.wf(),
        ensures
            len == self.spec_scalar_len() / self.spec_width(),
    {
        proof {
            self.lemma_wf();
        }
        self.scalar_len() / self.width()
    }

    /// Advance the iterable by `amount` scalars.
    fn advance(&mut self, amount: usize)
        requires
            old(self).wf(),
            old(self).spec_scalar_pos() + amount <= old(self).spec_scalar_len(),
        ensures
            final(self).wf(),
            same_source(final(self), old(self)),
            final(self).spec_scalar_pos() == old(self).spec_scalar_pos() + amount,
    ;

    /// Advance the iterable such that it produces no more items.
    fn finalize(&mut self)
        requires
            old(self).wf(),
        ensures
            final(self).wf(),
            same_source(final(self), old(self)),
            final(self).spec_scalar_pos() == old(self).spec_scalar_len(),
    {
        proof {
            self.lemma_wf();
        }
        let end = self.scalar_len() - self.scalar_pos();
        self.advance(end);
    }

    /// Return the default vector for this iterable.
    fn default(&self) -> (v: Self::Vectors)
        requires
            self.wf(),
        ensures
            self.is_default(v),
    ;

    /// Pack and return the next full vector-tuple, or `None` if fewer
    /// scalars than a vector holds are left.
    fn next(&mut self) -> (r: Option<Self::Vectors>)
        requires
            old(self).wf(),
        ensures
            final(self).wf(),
            same_source(final(self), old(self)),
            match r {
                Some(v) => {
                    &&& old(self).spec_scalar_pos() + old(self).spec_width() <= old(
                        self,
                    ).spec_scalar_len()
                    &&& old(self).packs(old(self).spec_scalar_pos(), old(self).spec_width(), v)
                    &&& final(self).spec_scalar_pos() == old(self).spec_scalar_pos() + old(
                        self,
                    ).spec_width()
                },
                None => {
                    &&& old(self).spec_scalar_pos() + old(self).spec_width() > old(
                        self,
                    ).spec_scalar_len()
                    &&& final(self).spec_scalar_pos() == old(self).spec_scalar_pos()
                },
            },
    ;
}

/// An iterator which automatically packs the values it iterates over into SIMD
/// vectors, and can handle collections which do not fit into the system's
/// vectors natively.
pub trait SIMDZippedIterator: SIMDZippedIterable {
    /// Pack and return the tail: a partially full vector-tuple containing
    /// the elements that are left where they are fewer than `self.width()`,
    /// and the number of its valid lanes. Lanes which are not filled are
    /// instead initialized to default. `None` if no elements are left or a
    /// full vector-tuple still is.
    fn end(&mut self) -> (r: Option<(Self::Vectors, usize)>)
        requires
            old(self).wf(),
        ensures
            final(self).wf(),
            same_source(final(self), old(self)),
            match r {
                Some((v, n)) => {
                    &&& old(self).spec_scalar_pos() < old(self).spec_scalar_len() < old(
                        self,
                    ).spec_scalar_pos() + old(self).spec_width()
                    &&& old(self).packs(
                        old(self).spec_scalar_pos(),
                        step_at(old(self), old(self).spec_scalar_pos()),
                        v,
                    )
                    &&& n == old(self).valid_lanes(step_at(old(self), old(self).spec_scalar_pos()))
                    &&& final(self).spec_scalar_pos() == old(self).spec_scalar_len()
                },
                None => {
                    &&& old(self).spec_scalar_pos() == old(self).spec_scalar_len() || old(
                        self,
                    ).spec_scalar_pos() + old(self).spec_width() <= old(self).spec_scalar_len()
                    &&& final(self).spec_scalar_pos() == old(self).spec_scalar_pos()
                },
            },
    ;

    /// Return an iterator which calls `func` on vectors of elements.
    fn simd_map<A, F>(self, func: F) -> (m: SIMDZipMap<Self, F>) where
        F: FnMut(Self::Vectors) -> A,
        A: Packed,

        ensures
            m.inner() == self,
            m.transform() == func,
    {
        SIMDZipMap { iter: self, func: func }
    }

    /// Pack and run `func` over what is left of the iterator, the full
    /// vector-tuples and then the tail, returning no value. No lane of the
    /// tail is masked: `func` sees the padding like any other lane.
    fn simd_do_each<F>(&mut self, func: F) where F: FnMut(Self::Vectors) -> ()
        requires
            old(self).wf(),
            each_ok(old(self), &func, old(self).spec_scalar_pos()),
        ensures
            final(self).wf(),
            same_source(final(self), old(self)),
            final(self).spec_scalar_pos() == old(self).spec_scalar_len(),
            each_done(old(self), &func, old(self).spec_scalar_pos()),
    {
        let mut f = func;
        loop
            invariant
                self.wf(),
                f == func,
                same_source(self, old(self)),
                each_ok(old(self), &func, self.spec_scalar_pos()),
                each_done(old(self), &func, self.spec_scalar_pos()) ==> each_done(
                    old(self),
                    &func,
                    old(self).spec_scalar_pos(),
                ),
            ensures
                self.spec_scalar_pos() + self.spec_width() > self.spec_scalar_len(),
            decreases self.spec_scalar_len() - self.spec_scalar_pos(),
        {
            proof {
                self.lemma_wf();
            }
            match self.next() {
                Some(v) => {
                    f(v);
                },
                None => {
                    break ;
                },
            }
        }
        proof {
            self.lemma_wf();
        }
        let ghost pos = self.spec_scalar_pos();
        match self.end() {
            Some((v, _)) => {
                f(v);
                assert(each_done(old(self), &func, self.spec_scalar_pos()));
            },
            None => {},
        }
        assert(each_done(old(self), &func, pos));
    }

    /// Return the vector that results from reducing `func` over accumulator `start`
    /// and the values of this iterator, initializing all vectors to `default`
    /// before populating them with elements of the iterator.
    ///
    /// The lanes of the last vector-tuple that hold no scalar of the streams
    /// hold the default, and `func` sees them like any other lane: what the
    /// reduction leaves in those lanes depends on the vector width.
    fn simd_reduce<A, F>(&mut self, start: A, func: F) -> (out: A) where
        F: FnMut(A, Self::Vectors) -> A,

        requires
            old(self).wf(),
            reduce_ok(old(self), &func, old(self).spec_scalar_pos(), start),
        ensures
            final(self).wf(),
            same_source(final(self), old(self)),
            final(self).spec_scalar_pos() == old(self).spec_scalar_len(),
            reduces(old(self), &func, old(self).spec_scalar_pos(), start, out),
    {
        let mut acc = start;
        let mut f = func;
        loop
            invariant
                self.wf(),
                f == func,
                same_source(self, old(self)),
                reduce_ok(old(self), &func, self.spec_scalar_pos(), acc),
                forall|o: A|
                    reduces(old(self), &func, self.spec_scalar_pos(), acc, o) ==> reduces(
                        old(self),
                        &func,
                        old(self).spec_scalar_pos(),
                        start,
                        o,
                    ),
            ensures
                self.spec_scalar_pos() + self.spec_width() > self.spec_scalar_len(),
            decreases self.spec_scalar_len() - self.spec_scalar_pos(),
        {
            proof {
                self.lemma_wf();
            }
            let ghost pos = self.spec_scalar_pos();
            match self.next() {
                Some(v) => {
                    assert(old(self).packs(pos, step_at(old(self), pos), v));
                    acc = f(acc, v);
                },
                None => {
                    break ;
                },
            }
        }
        proof {
            self.lemma_wf();
        }
        let ghost pos = self.spec_scalar_pos();
        let ghost before = acc;
        match self.end() {
            Some((v, _)) => {
                assert(old(self).packs(pos, step_at(old(self), pos), v));
                acc = f(acc, v);
                assert forall|o: A|
                    reduces(old(self), &func, self.spec_scalar_pos(), acc, o) implies reduces(
                        old(self),
                        &func,
                        pos,
                        before,
                        o,
                    ) by {}
            },
            None => {},
        }
        acc
    }
}

impl<T> Zip<T> {
    /// The streams that the zip owns.
    pub closed spec fn members(&self) -> T {
        self.iters
    }

    /// The streams that the zip owns.
    pub fn iters(&self) -> (members: &T)
        ensures
            *members == self.members(),
    {
        &self.iters
    }
}

impl<I, F> SIMDZipMap<I, F> {
    /// The stream that the map wraps.
    pub closed spec fn inner(&self) -> I {
        self.iter
    }

    /// The function that the map applies.
    pub closed spec fn transform(&self) -> F {
        self.func
    }
}

} // verus!
