use super::Packed;
use vstd::prelude::*;

verus! {

impl<A: Packed, B: Packed> Packed for (A, B) {
    type Scalar = (A::Scalar, B::Scalar);

    open spec fn spec_size() -> nat {
        A::spec_size()
    }

    open spec fn is_default(v: &Self) -> bool {
        &&& A::is_default(&v.0)
        &&& B::is_default(&v.1)
    }

    fn size() -> (s: usize) {
        A::size()
    }

    fn default() -> (v: Self) {
        (A::default(), B::default())
    }
}

impl<A: Packed, B: Packed, C: Packed> Packed for (A, B, C) {
    type Scalar = (A::Scalar, B::Scalar, C::Scalar);

    open spec fn spec_size() -> nat {
        A::spec_size()
    }

    open spec fn is_default(v: &Self) -> bool {
        &&& A::is_default(&v.0)
        &&& B::is_default(&v.1)
        &&& C::is_default(&v.2)
    }

    fn size() -> (s: usize) {
        A::size()
    }

    fn default() -> (v: Self) {
        (A::default(), B::default(), C::default())
    }
}

impl<A: Packed, B: Packed, C: Packed, D: Packed> Packed for (A, B, C, D) {
    type Scalar = (A::Scalar, B::Scalar, C::Scalar, D::Scalar);

    open spec fn spec_size() -> nat {
        A::spec_size()
    }

    open spec fn is_default(v: &Self) -> bool {
        &&& A::is_default(&v.0)
        &&& B::is_default(&v.1)
        &&& C::is_default(&v.2)
        &&& D::is_default(&v.3)
    }

    fn size() -> (s: usize) {
        A::size()
    }

    fn default() -> (v: Self) {
        (A::default(), B::default(), C::default(), D::default())
    }
}

impl<A: Packed, B: Packed, C: Packed, D: Packed, E: Packed> Packed for (A, B, C, D, E) {
    type Scalar = (A::Scalar, B::Scalar, C::Scalar, D::Scalar, E::Scalar);

    open spec fn spec_size() -> nat {
        A::spec_size()
    }

    open spec fn is_default(v: &Self) -> bool {
        &&& A::is_default(&v.0)
        &&& B::is_default(&v.1)
        &&& C::is_default(&v.2)
        &&& D::is_default(&v.3)
        &&& E::is_default(&v.4)
    }

    fn size() -> (s: usize) {
        A::size()
    }

    fn default() -> (v: Self) {
        (
            A::default(),
            B::default(),
            C::default(),
            D::default(),
            E::default(),
        )
    }
}

impl<A: Packed, B: Packed, C: Packed, D: Packed, E: Packed, F: Packed> Packed for (A, B, C, D, E, F) {
    type Scalar = (A::Scalar, B::Scalar, C::Scalar, D::Scalar, E::Scalar, F::Scalar);

    open spec fn spec_size() -> nat {
        A::spec_size()
    }

    open spec fn is_default(v: &Self) -> bool {
        &&& A::is_default(&v.0)
        &&& B::is_default(&v.1)
        &&& C::is_default(&v.2)
        &&& D::is_default(&v.3)
        &&& E::is_default(&v.4)
        &&& F::is_default(&v.5)
    }

    fn size() -> (s: usize) {
        A::size()
    }

    fn default() -> (v: Self) {
        (
            A::default(),
            B::default(),
            C::default(),
            D::default(),
            E::default(),
            F::default(),
        )
    }
}

impl<
    A: Packed,
    B: Packed,
    C: Packed,
    D: Packed,
    E: Packed,
    F: Packed,
    G: Packed,
> Packed for (A, B, C, D, E, F, G) {
    type Scalar = (A::Scalar, B::Scalar, C::Scalar, D::Scalar, E::Scalar, F::Scalar, G::Scalar);

    open spec fn spec_size() -> nat {
        A::spec_size()
    }

    open spec fn is_default(v: &Self) -> bool {
        &&& A::is_default(&v.0)
        &&& B::is_default(&v.1)
        &&& C::is_default(&v.2)
        &&& D::is_default(&v.3)
        &&& E::is_default(&v.4)
        &&& F::is_default(&v.5)
        &&& G::is_default(&v.6)
    }

    fn size() -> (s: usize) {
        A::size()
    }

    fn default() -> (v: Self) {
        (
            A::default(),
            B::default(),
            C::default(),
            D::default(),
            E::default(),
            F::default(),
            G::default(),
        )
    }
}

impl<
    A: Packed,
    B: Packed,
    C: Packed,
    D: Packed,
    E: Packed,
    F: Packed,
    G: Packed,
    H: Packed,
> Packed for (A, B, C, D, E, F, G, H) {
    type Scalar = (
        A::Scalar,
        B::Scalar,
        C::Scalar,
        D::Scalar,
        E::Scalar,
        F::Scalar,
        G::Scalar,
        H::Scalar,
    );

    open spec fn spec_size() -> nat {
        A::spec_size()
    }

    open spec fn is_default(v: &Self) -> bool {
        &&& A::is_default(&v.0)
        &&& B::is_default(&v.1)
        &&& C::is_default(&v.2)
        &&& D::is_default(&v.3)
        &&& E::is_default(&v.4)
        &&& F::is_default(&v.5)
        &&& G::is_default(&v.6)
        &&& H::is_default(&v.7)
    }

    fn size() -> (s: usize) {
        A::size()
    }

    fn default() -> (v: Self) {
        (
            A::default(),
            B::default(),
            C::default(),
            D::default(),
            E::default(),
            F::default(),
            G::default(),
            H::default(),
        )
    }
}

impl<
    A: Packed,
    B: Packed,
    C: Packed,
    D: Packed,
    E: Packed,
    F: Packed,
    G: Packed,
    H: Packed,
    I: Packed,
> Packed for (A, B, C, D, E, F, G, H, I) {
    type Scalar = (
        A::Scalar,
        B::Scalar,
        C::Scalar,
        D::Scalar,
        E::Scalar,
        F::Scalar,
        G::Scalar,
        H::Scalar,
        I::Scalar,
    );

    open spec fn spec_size() -> nat {
        A::spec_size()
    }

    open spec fn is_default(v: &Self) -> bool {
        &&& A::is_default(&v.0)
        &&& B::is_default(&v.1)
        &&& C::is_default(&v.2)
        &&& D::is_default(&v.3)
        &&& E::is_default(&v.4)
        &&& F::is_default(&v.5)
        &&& G::is_default(&v.6)
        &&& H::is_default(&v.7)
        &&& I::is_default(&v.8)
    }

    fn size() -> (s: usize) {
        A::size()
    }

    fn default() -> (v: Self) {
        (
            A::default(),
            B::default(),
            C::default(),
            D::default(),
            E::default(),
            F::default(),
            G::default(),
            H::default(),
            I::default(),
        )
    }
}

impl<
    A: Packed,
    B: Packed,
    C: Packed,
    D: Packed,
    E: Packed,
    F: Packed,
    G: Packed,
    H: Packed,
    I: Packed,
    J: Packed,
> Packed for (A, B, C, D, E, F, G, H, I, J) {
    type Scalar = (
        A::Scalar,
        B::Scalar,
        C::Scalar,
        D::Scalar,
        E::Scalar,
        F::Scalar,
        G::Scalar,
        H::Scalar,
        I::Scalar,
        J::Scalar,
    );

    open spec fn spec_size() -> nat {
        A::spec_size()
    }

    open spec fn is_default(v: &Self) -> bool {
        &&& A::is_default(&v.0)
        &&& B::is_default(&v.1)
        &&& C::is_default(&v.2)
        &&& D::is_default(&v.3)
        &&& E::is_default(&v.4)
        &&& F::is_default(&v.5)
        &&& G::is_default(&v.6)
        &&& H::is_default(&v.7)
        &&& I::is_default(&v.8)
        &&& J::is_default(&v.9)
    }

    fn size() -> (s: usize) {
        A::size()
    }

    fn default() -> (v: Self) {
        (
            A::default(),
            B::default(),
            C::default(),
            D::default(),
            E::default(),
            F::default(),
            G::default(),
            H::default(),
            I::default(),
            J::default(),
        )
    }
}

impl<
    A: Packed,
    B: Packed,
    C: Packed,
    D: Packed,
    E: Packed,
    F: Packed,
    G: Packed,
    H: Packed,
    I: Packed,
    J: Packed,
    K: Packed,
> Packed for (A, B, C, D, E, F, G, H, I, J, K) {
    type Scalar = (
        A::Scalar,
        B::Scalar,
        C::Scalar,
        D::Scalar,
        E::Scalar,
        F::Scalar,
        G::Scalar,
        H::Scalar,
        I::Scalar,
        J::Scalar,
        K::Scalar,
    );

    open spec fn spec_size() -> nat {
        A::spec_size()
    }

    open spec fn is_default(v: &Self) -> bool {
        &&& A::is_default(&v.0)
        &&& B::is_default(&v.1)
        &&& C::is_default(&v.2)
        &&& D::is_default(&v.3)
        &&& E::is_default(&v.4)
        &&& F::is_default(&v.5)
        &&& G::is_default(&v.6)
        &&& H::is_default(&v.7)
        &&& I::is_default(&v.8)
        &&& J::is_default(&v.9)
        &&& K::is_default(&v.10)
    }

    fn size() -> (s: usize) {
        A::size()
    }

    fn default() -> (v: Self) {
        (
            A::default(),
            B::default(),
            C::default(),
            D::default(),
            E::default(),
            F::default(),
            G::default(),
            H::default(),
            I::default(),
            J::default(),
            K::default(),
        )
    }
}

impl<
    A: Packed,
    B: Packed,
    C: Packed,
    D: Packed,
    E: Packed,
    F: Packed,
    G: Packed,
    H: Packed,
    I: Packed,
    J: Packed,
    K: Packed,
    L: Packed,
> Packed for (A, B, C, D, E, F, G, H, I, J, K, L) {
    type Scalar = (
        A::Scalar,
        B::Scalar,
        C::Scalar,
        D::Scalar,
        E::Scalar,
        F::Scalar,
        G::Scalar,
        H::Scalar,
        I::Scalar,
        J::Scalar,
        K::Scalar,
        L::Scalar,
    );

    open spec fn spec_size() -> nat {
        A::spec_size()
    }

    open spec fn is_default(v: &Self) -> bool {
        &&& A::is_default(&v.0)
        &&& B::is_default(&v.1)
        &&& C::is_default(&v.2)
        &&& D::is_default(&v.3)
        &&& E::is_default(&v.4)
        &&& F::is_default(&v.5)
        &&& G::is_default(&v.6)
        &&& H::is_default(&v.7)
        &&& I::is_default(&v.8)
        &&& J::is_default(&v.9)
        &&& K::is_default(&v.10)
        &&& L::is_default(&v.11)
    }

    fn size() -> (s: usize) {
        A::size()
    }

    fn default() -> (v: Self) {
        (
            A::default(),
            B::default(),
            C::default(),
            D::default(),
            E::default(),
            F::default(),
            G::default(),
            H::default(),
            I::default(),
            J::default(),
            K::default(),
            L::default(),
        )
    }
}

impl<
    A: Packed,
    B: Packed,
    C: Packed,
    D: Packed,
    E: Packed,
    F: Packed,
    G: Packed,
    H: Packed,
    I: Packed,
    J: Packed,
    K: Packed,
    L: Packed,
    M: Packed,
> Packed for (A, B, C, D, E, F, G, H, I, J, K, L, M) {
    type Scalar = (
        A::Scalar,
        B::Scalar,
        C::Scalar,
        D::Scalar,
        E::Scalar,
        F::Scalar,
        G::Scalar,
        H::Scalar,
        I::Scalar,
        J::Scalar,
        K::Scalar,
        L::Scalar,
        M::Scalar,
    );

    open spec fn spec_size() -> nat {
        A::spec_size()
    }

    open spec fn is_default(v: &Self) -> bool {
        &&& A::is_default(&v.0)
        &&& B::is_default(&v.1)
        &&& C::is_default(&v.2)
        &&& D::is_default(&v.3)
        &&& E::is_default(&v.4)
        &&& F::is_default(&v.5)
        &&& G::is_default(&v.6)
        &&& H::is_default(&v.7)
        &&& I::is_default(&v.8)
        &&& J::is_default(&v.9)
        &&& K::is_default(&v.10)
        &&& L::is_default(&v.11)
        &&& M::is_default(&v.12)
    }

    fn size() -> (s: usize) {
        A::size()
    }

    fn default() -> (v: Self) {
        (
            A::default(),
            B::default(),
            C::default(),
            D::default(),
            E::default(),
            F::default(),
            G::default(),
            H::default(),
            I::default(),
            J::default(),
            K::default(),
            L::default(),
            M::default(),
        )
    }
}

} // verus!
