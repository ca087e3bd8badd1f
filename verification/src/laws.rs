use crate::iters::{packed, step_len, SIMDObject};
use crate::vecs::Packed;
use crate::zip::{
    each_done, each_ok, reduce_ok, reduces, step_at, SIMDZipMap, SIMDZippedIterator,
    SIMDZippedObject,
};
use vstd::arithmetic::div_mod::{
    lemma_basic_div, lemma_div_by_multiple, lemma_div_plus_one, lemma_mod_add_multiples_vanish,
    lemma_small_mod,
};
use vstd::prelude::*;

verus! {

/// Number of vectors that `next`, called again and again on a stream of
/// `len` scalars at `pos`, hands out before it hands out `None`.
pub open spec fn full_vectors(len: nat, pos: nat, width: nat) -> nat
    decreases len - pos,
{
    if width > 0 && pos + width <= len {
        1 + full_vectors(len, pos + width, width)
    } else {
        0
    }
}

/// The position at which `next`, called again and again on a stream of `len`
/// scalars at `pos`, hands out `None`.
pub open spec fn tail_pos(len: nat, pos: nat, width: nat) -> nat
    decreases len - pos,
{
    if width > 0 && pos + width <= len {
        tail_pos(len, pos + width, width)
    } else {
        pos
    }
}

/// Number of scalars that the steps of a traversal take from a stream of
/// `len` scalars at `pos`, the full vectors and the tail together.
pub open spec fn scalars_taken(len: nat, pos: nat, width: nat) -> nat
    decreases len - pos,
{
    let n = step_len(len, pos, width);
    if n > 0 {
        n + scalars_taken(len, pos + n, width)
    } else {
        0
    }
}

/// The valid lanes of the vectors that a traversal of `s` from `pos` hands
/// out, step after step, one after the other.
pub open spec fn lanes_taken<S: SIMDObject>(s: &S, pos: nat) -> Seq<S::Scalar>
    decreases s.elements().len() - pos,
{
    let n = step_len(s.elements().len(), pos, s.spec_width());
    if n > 0 {
        packed(s, pos, n).take(n as int) + lanes_taken(s, pos + n)
    } else {
        Seq::empty()
    }
}

/// From `pos` on, `next` hands out as many full vectors as fit into the
/// scalars that are left, and stops where fewer than a vector's worth are
/// left: the remainder of the division.
pub proof fn lemma_full_vectors(len: nat, pos: nat, width: nat)
    requires
        width > 0,
        pos <= len,
    ensures
        full_vectors(len, pos, width) == ((len - pos) as nat) / width,
        tail_pos(len, pos, width) == pos + full_vectors(len, pos, width) * width,
        step_len(len, tail_pos(len, pos, width), width) == ((len - pos) as nat) % width,
    decreases len - pos,
{
    let left = (len - pos) as nat;
    if pos + width <= len {
        lemma_full_vectors(len, pos + width, width);
        let rest = full_vectors(len, pos + width, width);
        lemma_div_plus_one(left - width, width as int);
        lemma_mod_add_multiples_vanish(left - width, width as int);
        assert((1 + rest) * width == width + rest * width) by (nonlinear_arith);
    } else {
        lemma_basic_div(left as int, width as int);
        lemma_small_mod(left, width);
    }
}

/// A stream of `L` scalars and width `W`, traversed from its start, hands
/// out `L / W` full vector-tuples by `next`. After them `end` hands out a
/// tail if and only if `L % W` is not zero, and that tail holds `L % W`
/// scalars.
pub proof fn lemma_length_invariant<I: SIMDZippedObject>(it: &I)
    requires
        it.wf(),
    ensures
        full_vectors(it.spec_scalar_len(), 0, it.spec_width()) == it.spec_scalar_len()
            / it.spec_width(),
        tail_pos(it.spec_scalar_len(), 0, it.spec_width()) < it.spec_scalar_len()
            <==> it.spec_scalar_len() % it.spec_width() != 0,
        step_at(it, tail_pos(it.spec_scalar_len(), 0, it.spec_width())) == it.spec_scalar_len()
            % it.spec_width(),
{
    it.lemma_wf();
    lemma_full_vectors(it.spec_scalar_len(), 0, it.spec_width());
}

/// The steps of a traversal take every scalar that is left, and none
/// twice: their sizes add up to `len - pos`.
pub proof fn lemma_scalars_taken(len: nat, pos: nat, width: nat)
    requires
        width > 0,
        pos <= len,
    ensures
        scalars_taken(len, pos, width) == len - pos,
    decreases len - pos,
{
    let n = step_len(len, pos, width);
    if n > 0 {
        lemma_scalars_taken(len, pos + n, width);
    }
}

/// The first `n` lanes of the vector packed from the `n` scalars at `pos`
/// are those scalars, and its other lanes are the default vector's.
pub proof fn lemma_packed_lanes<S: SIMDObject>(s: &S, pos: nat, n: nat)
    requires
        s.wf(),
        n <= s.spec_width(),
        pos + n <= s.elements().len(),
    ensures
        packed(s, pos, n).len() == s.spec_width(),
        packed(s, pos, n).take(n as int) == s.elements().subrange(pos as int, (pos + n) as int),
        packed(s, pos, n).skip(n as int) == s.default_lanes().skip(n as int),
{
    s.lemma_wf();
}

/// The valid lanes of the vectors that a traversal of a stream hands out
/// are the scalars of the stream from the starting position on, each once
/// and in order.
pub proof fn lemma_lanes_taken<S: SIMDObject>(s: &S, pos: nat)
    requires
        s.wf(),
        pos <= s.elements().len(),
    ensures
        lanes_taken(s, pos) == s.elements().subrange(pos as int, s.elements().len() as int),
    decreases s.elements().len() - pos,
{
    s.lemma_wf();
    let len = s.elements().len();
    let n = step_len(len, pos, s.spec_width());
    if n > 0 {
        lemma_lanes_taken(s, pos + n);
        lemma_packed_lanes(s, pos, n);
    }
}

/// Where the function of a map hands back what it is given, every
/// vector-tuple that the map hands out is one that the wrapped stream hands
/// out at the same place. The map also stands where the wrapped stream
/// stands and is as long, and where its scalars are of the wrapped stream's
/// size it counts the valid lanes of a tail as the wrapped stream does.
pub proof fn lemma_identity_map<I, F>(m: &SIMDZipMap<I, F>, pos: nat, n: nat, v: I::Vectors) where
    I: SIMDZippedIterator,
    F: FnMut(I::Vectors) -> I::Vectors,
    I::Vectors: Packed,

    requires
        forall|x: I::Vectors, y: I::Vectors| call_ensures(m.transform(), (x,), y) ==> y == x,
        m.packs(pos, n, v),
    ensures
        m.inner().packs(pos, n, v),
        m.spec_scalar_pos() == m.inner().spec_scalar_pos(),
        m.spec_scalar_len() == m.inner().spec_scalar_len(),
        m.spec_width() == m.inner().spec_width(),
        m.spec_size() == m.inner().spec_size() && m.spec_size() > 0 ==> m.valid_lanes(n)
            == m.inner().valid_lanes(n),
{
    if m.spec_size() == m.inner().spec_size() && m.spec_size() > 0 {
        lemma_div_by_multiple(m.inner().valid_lanes(n) as int, m.spec_size() as int);
    }
}

/// What `each_ok` says of the step at `pos`. A caller that holds a closure
/// walks through a traversal with it, step by step.
pub proof fn lemma_each_ok_step<I: SIMDZippedObject, F: FnMut(I::Vectors) -> ()>(
    it: &I,
    func: &F,
    pos: nat,
)
    ensures
        each_ok(it, func, pos) <==> (step_at(it, pos) > 0 ==> {
            &&& forall|v: I::Vectors|
                it.packs(pos, step_at(it, pos), v) ==> call_requires(*func, (v,))
            &&& each_ok(it, func, pos + step_at(it, pos))
        }),
{
}

/// What `each_done` says of the step at `pos`.
pub proof fn lemma_each_done_step<I: SIMDZippedObject, F: FnMut(I::Vectors) -> ()>(
    it: &I,
    func: &F,
    pos: nat,
)
    ensures
        each_done(it, func, pos) <==> (step_at(it, pos) > 0 ==> {
            &&& exists|v: I::Vectors|
                it.packs(pos, step_at(it, pos), v) && call_ensures(*func, (v,), ())
            &&& each_done(it, func, pos + step_at(it, pos))
        }),
{
}

/// What `reduce_ok` says of the step at `pos`.
pub proof fn lemma_reduce_ok_step<I: SIMDZippedObject, A, F: FnMut(A, I::Vectors) -> A>(
    it: &I,
    func: &F,
    pos: nat,
    acc: A,
)
    ensures
        reduce_ok(it, func, pos, acc) <==> (step_at(it, pos) > 0 ==> forall|v: I::Vectors|
            it.packs(pos, step_at(it, pos), v) ==> {
                &&& call_requires(*func, (acc, v))
                &&& forall|mid: A|
                    call_ensures(*func, (acc, v), mid) ==> reduce_ok(
                        it,
                        func,
                        pos + step_at(it, pos),
                        mid,
                    )
            }),
{
}

/// What `reduces` says of the step at `pos`.
pub proof fn lemma_reduces_step<I: SIMDZippedObject, A, F: FnMut(A, I::Vectors) -> A>(
    it: &I,
    func: &F,
    pos: nat,
    acc: A,
    out: A,
)
    ensures
        reduces(it, func, pos, acc, out) <==> (if step_at(it, pos) > 0 {
            exists|v: I::Vectors, mid: A|
                it.packs(pos, step_at(it, pos), v) && call_ensures(*func, (acc, v), mid)
                    && reduces(it, func, pos + step_at(it, pos), mid, out)
        } else {
            out == acc
        }),
{
}

/// A function that may be called on every vector-tuple may be run over
/// every stream.
pub proof fn lemma_each_ok_total<I: SIMDZippedObject, F: FnMut(I::Vectors) -> ()>(
    it: &I,
    func: &F,
    pos: nat,
)
    requires
        forall|v: I::Vectors| call_requires(*func, (v,)),
    ensures
        each_ok(it, func, pos),
    decreases it.spec_scalar_len() - pos,
{
    let n = step_at(it, pos);
    if n > 0 {
        lemma_each_ok_total(it, func, pos + n);
    }
}

/// A function that may be called on every accumulator and vector-tuple may
/// be reduced over every stream.
pub proof fn lemma_reduce_ok_total<I: SIMDZippedObject, A, F: FnMut(A, I::Vectors) -> A>(
    it: &I,
    func: &F,
    pos: nat,
    acc: A,
)
    requires
        forall|a: A, v: I::Vectors| call_requires(*func, (a, v)),
    ensures
        reduce_ok(it, func, pos, acc),
    decreases it.spec_scalar_len() - pos,
{
    let n = step_at(it, pos);
    if n > 0 {
        assert forall|v: I::Vectors| it.packs(pos, n, v) implies {
            &&& call_requires(*func, (acc, v))
            &&& forall|mid: A|
                call_ensures(*func, (acc, v), mid) ==> reduce_ok(it, func, pos + n, mid)
        } by {
            assert forall|mid: A| call_ensures(*func, (acc, v), mid) implies reduce_ok(
                it,
                func,
                pos + n,
                mid,
            ) by {
                lemma_reduce_ok_total(it, func, pos + n, mid);
            }
        }
    }
}

} // verus!
