use vstd::prelude::*;

verus! {

/// What a vectorized stream is, as far as contracts are concerned: a fixed
/// sequence of scalars, a position in it, a vector width and the lanes of a
/// default vector that pads a partly filled one.
pub trait SIMDObject: Sized {
    type Scalar;

    type Vector;

    /// The stream is in a valid state.
    spec fn wf(&self) -> bool;

    /// Lanes per vector.
    spec fn spec_width(&self) -> nat;

    /// Size in bytes of one scalar.
    spec fn spec_size(&self) -> nat;

    /// All scalars of the stream, consumed or not.
    spec fn elements(&self) -> Seq<Self::Scalar>;

    /// Number of scalars consumed so far.
    spec fn spec_scalar_pos(&self) -> nat;

    /// The lanes of the stream's default vector.
    spec fn default_lanes(&self) -> Seq<Self::Scalar>;

    /// The lanes of a vector of this stream.
    spec fn lanes(v: &Self::Vector) -> Seq<Self::Scalar>;

    /// A valid stream has a width, stands within its scalars, and pads with
    /// a vector of that width.
    proof fn lemma_wf(&self)
        requires
            self.wf(),
        ensures
            self.spec_width() > 0,
            self.spec_scalar_pos() <= self.elements().len() <= usize::MAX,
            self.default_lanes().len() == self.spec_width(),
    ;

    /// Return the vector length of this object.
    fn width(&self) -> (w: usize)
        requires
            self.wf(),
        ensures
            w == self.spec_width(),
    ;

    /// Return the size in bytes of one scalar of this object.
    fn size(&self) -> (s: usize)
        requires
            self.wf(),
        ensures
            s == self.spec_size(),
    ;
}

/// Number of scalars that one step takes from a stream of `len` scalars at
/// `pos`: a full vector's worth, or what is left when that is less.
pub open spec fn step_len(len: nat, pos: nat, width: nat) -> nat {
    if pos + width <= len {
        width
    } else if pos <= len {
        (len - pos) as nat
    } else {
        0
    }
}

/// The lanes of the vector that holds the `n` scalars at `pos` in its first
/// `n` lanes and the default vector's lanes in the others.
pub open spec fn packed<S: SIMDObject>(s: &S, pos: nat, n: nat) -> Seq<S::Scalar> {
    Seq::new(
        s.spec_width(),
        |i: int|
            if i < n {
                s.elements()[pos + i]
            } else {
                s.default_lanes()[i]
            },
    )
}

/// `a` and `b` are one stream at two positions.
pub open spec fn same_stream<S: SIMDObject>(a: &S, b: &S) -> bool {
    &&& a.spec_width() == b.spec_width()
    &&& a.spec_size() == b.spec_size()
    &&& a.elements() == b.elements()
    &&& a.default_lanes() == b.default_lanes()
}

/// A stream that packs the scalars it iterates over into vectors.
pub trait SIMDIterator: SIMDObject {
    /// Return the length of this iterator, measured in scalars.
    fn scalar_len(&self) -> (len: usize)
        requires
            self.wf(),
        ensures
            len == self.elements().len(),
    ;

    /// Return the current position of this iterator, measured in scalars.
    fn scalar_pos(&self) -> (pos: usize)
        requires
            self.wf(),
        ensures
            pos == self.spec_scalar_pos(),
    ;

    /// Skip `amount` scalars without producing them.
    fn advance(&mut self, amount: usize)
        requires
            old(self).wf(),
            old(self).spec_scalar_pos() + amount <= old(self).elements().len(),
        ensures
            final(self).wf(),
            same_stream(final(self), old(self)),
            final(self).spec_scalar_pos() == old(self).spec_scalar_pos() + amount,
    ;

    /// Return the default vector of this stream.
    fn default(&self) -> (v: Self::Vector)
        requires
            self.wf(),
        ensures
            Self::lanes(&v) == self.default_lanes(),
    ;

    /// Pack and return the next full vector, or `None` if fewer scalars than
    /// a vector holds are left.
    fn next(&mut self) -> (r: Option<Self::Vector>)
        requires
            old(self).wf(),
        ensures
            final(self).wf(),
            same_stream(final(self), old(self)),
            match r {
                Some(v) => {
                    &&& old(self).spec_scalar_pos() + old(self).spec_width() <= old(
                        self,
                    ).elements().len()
                    &&& Self::lanes(&v) == packed(
                        old(self),
                        old(self).spec_scalar_pos(),
                        old(self).spec_width(),
                    )
                    &&& final(self).spec_scalar_pos() == old(self).spec_scalar_pos() + old(
                        self,
                    ).spec_width()
                },
                None => {
                    &&& old(self).spec_scalar_pos() + old(self).spec_width() > old(
                        self,
                    ).elements().len()
                    &&& final(self).spec_scalar_pos() == old(self).spec_scalar_pos()
                },
            },
    ;

    /// Pack and return the tail: a vector with the scalars that are left
    /// where they are fewer than a vector holds, and their number. The
    /// other lanes hold the default. `None` where no scalar is left or a full
    /// vector still is.
    fn end(&mut self) -> (r: Option<(Self::Vector, usize)>)
        requires
            old(self).wf(),
        ensures
            final(self).wf(),
            same_stream(final(self), old(self)),
            match r {
                Some((v, n)) => {
                    &&& 0 < n < old(self).spec_width()
                    &&& old(self).spec_scalar_pos() + n == old(self).elements().len()
                    &&& Self::lanes(&v) == packed(old(self), old(self).spec_scalar_pos(), n as nat)
                    &&& final(self).spec_scalar_pos() == old(self).elements().len()
                },
                None => {
                    &&& old(self).spec_scalar_pos() == old(self).elements().len() || old(
                        self,
                    ).spec_scalar_pos() + old(self).spec_width() <= old(self).elements().len()
                    &&& final(self).spec_scalar_pos() == old(self).spec_scalar_pos()
                },
            },
    ;
}

/// The variants of `next` and `end` that read at a position the caller
/// supplies. The caller answers for the bounds.
pub trait UncheckedIterator: SIMDIterator {
    /// Pack the full vector at `pos` and move to its end.
    fn next_unchecked(&mut self, pos: usize) -> (v: Self::Vector)
        requires
            old(self).wf(),
            pos + old(self).spec_width() <= old(self).elements().len(),
        ensures
            final(self).wf(),
            same_stream(final(self), old(self)),
            Self::lanes(&v) == packed(old(self), pos as nat, old(self).spec_width()),
            final(self).spec_scalar_pos() == pos + old(self).spec_width(),
    ;

    /// Pack the `n` scalars at `pos` into a vector padded with the default
    /// and move to their end.
    fn end_unchecked(&mut self, pos: usize, n: usize) -> (v: Self::Vector)
        requires
            old(self).wf(),
            n <= old(self).spec_width(),
            pos + n <= old(self).elements().len(),
        ensures
            final(self).wf(),
            same_stream(final(self), old(self)),
            Self::lanes(&v) == packed(old(self), pos as nat, n as nat),
            final(self).spec_scalar_pos() == pos + n,
    ;
}

/// A stream over a slice of scalars, packed into arrays of `W` lanes.
#[derive(Debug)]
pub struct SIMDRefIter<'a, T, const W: usize> {
    data: &'a [T],
    position: usize,
    default: [T; W],
}

impl<'a, T: Copy, const W: usize> SIMDRefIter<'a, T, W> {
    /// A stream at the start of `data` whose partly filled vector is padded
    /// from `default`.
    pub fn new(data: &'a [T], default: [T; W]) -> (it: Self)
        requires
            W > 0,
        ensures
            it.wf(),
            it.elements() == data@,
            it.default_lanes() == default@,
            it.spec_scalar_pos() == 0,
            it.spec_width() == W,
    {
        assert(data@.len() == data.len());
        SIMDRefIter { data, position: 0, default }
    }

    fn pack(&self, pos: usize, n: usize) -> (v: [T; W])
        requires
            self.wf(),
            n <= W,
            pos + n <= self.data@.len(),
        ensures
            v@ == packed(self, pos as nat, n as nat),
    {
        let mut v = self.default;
        let mut i: usize = 0;
        while i < n
            invariant
                i <= n <= W,
                pos + n <= self.data@.len() <= usize::MAX,
                forall|j: int| 0 <= j < i ==> v@[j] == self.data@[pos + j],
                forall|j: int| i <= j < W ==> v@[j] == self.default@[j],
            decreases n - i,
        {
            v[i] = self.data[pos + i];
            i += 1;
        }
        v
    }
}

impl<'a, T: Copy, const W: usize> SIMDObject for SIMDRefIter<'a, T, W> {
    type Scalar = T;

    type Vector = [T; W];

    closed spec fn wf(&self) -> bool {
        &&& W > 0
        &&& self.position <= self.data@.len() <= usize::MAX
    }

    open spec fn spec_width(&self) -> nat {
        W as nat
    }

    open spec fn spec_size(&self) -> nat {
        vstd::layout::size_of::<T>()
    }

    closed spec fn elements(&self) -> Seq<T> {
        self.data@
    }

    closed spec fn spec_scalar_pos(&self) -> nat {
        self.position as nat
    }

    closed spec fn default_lanes(&self) -> Seq<T> {
        self.default@
    }

    open spec fn lanes(v: &[T; W]) -> Seq<T> {
        v@
    }

    proof fn lemma_wf(&self) {
    }

    fn width(&self) -> (w: usize) {
        W
    }

    fn size(&self) -> (s: usize) {
        std::mem::size_of::<T>()
    }
}

impl<'a, T: Copy, const W: usize> SIMDIterator for SIMDRefIter<'a, T, W> {
    fn scalar_len(&self) -> (len: usize) {
        self.data.len()
    }

    fn scalar_pos(&self) -> (pos: usize) {
        self.position
    }

    fn advance(&mut self, amount: usize) {
        self.position = self.position + amount;
    }

    fn default(&self) -> (v: [T; W]) {
        self.default
    }

    fn next(&mut self) -> (r: Option<[T; W]>) {
        if W <= self.data.len() - self.position {
            let v = self.pack(self.position, W);
            self.position = self.position + W;
            Some(v)
        } else {
            None
        }
    }

    fn end(&mut self) -> (r: Option<([T; W], usize)>) {
        let left = self.data.len() - self.position;
        if 0 < left && left < W {
            let v = self.pack(self.position, left);
            self.position = self.data.len();
            Some((v, left))
        } else {
            None
        }
    }
}

impl<'a, T: Copy, const W: usize> UncheckedIterator for SIMDRefIter<'a, T, W> {
    fn next_unchecked(&mut self, pos: usize) -> (v: [T; W]) {
        let v = self.pack(pos, W);
        self.position = pos + W;
        v
    }

    fn end_unchecked(&mut self, pos: usize, n: usize) -> (v: [T; W]) {
        let v = self.pack(pos, n);
        self.position = pos + n;
        v
    }
}

} // verus!
