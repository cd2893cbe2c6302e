//! Propagation of the capabilities through composite types: fixed-size
//! arrays and fixed-size tuples inherit them from their elements, and the
//! 0- and 1-element composites inherit an element's conversion directly.

use vstd::prelude::*;
use vstd::arithmetic::mul::lemma_mul_ordering;
use crate::layout::Layout;
use crate::marker::Unaligned;
use crate::marker::Packed;
use crate::aligned::Aligned;

verus! {

impl<T: Layout, const N: usize> Layout for [T; N] {
    open spec fn spec_align() -> nat {
        T::spec_align()
    }

    open spec fn spec_size() -> nat {
        N as nat * T::spec_size()
    }

    proof fn align_facts() {
        T::align_facts();
    }

    fn align_of() -> usize {
        T::align_of()
    }

    fn size_of() -> (r: usize)
    {
        if N == 0 {
            0
        } else {
            proof {
                if T::spec_size() > 0 {
                    lemma_mul_ordering(N as int, T::spec_size() as int);
                }
            }
            N * T::size_of()
        }
    }
}

/// A fixed-size array of alignment-1 elements is itself alignment-1.
impl<T: Unaligned, const N: usize> Unaligned for [T; N] {
    proof fn align_is_one() {
        T::align_is_one();
    }
}

/// A fixed-size array of packed elements is itself packed: the elements
/// follow one another with no padding, `N` times the element size in all.
impl<T: Packed, const N: usize> Packed for [T; N] {
}

impl<A: Layout> Layout for (A,) {
    open spec fn spec_align() -> nat {
        A::spec_align()
    }

    open spec fn spec_size() -> nat {
        A::spec_size()
    }

    proof fn align_facts() {
        A::align_facts();
    }

    fn align_of() -> usize {
        A::align_of()
    }

    fn size_of() -> usize {
        A::size_of()
    }
}

/// A 1-tuple of an alignment-1 member is itself alignment-1.
impl<A: Unaligned> Unaligned for (A,) {
    proof fn align_is_one() {
        A::align_is_one();
    }
}

/// A 1-tuple of an alignment-1 member is packed: there is nothing to pad.
impl<A: Unaligned> Packed for (A,) {
}

impl<A: Layout, B: Layout> Layout for (A, B) {
    open spec fn spec_align() -> nat {
        if A::spec_align() >= B::spec_align() {
            A::spec_align()
        } else {
            B::spec_align()
        }
    }

    open spec fn spec_size() -> nat {
        A::spec_size() + B::spec_size()
    }

    proof fn align_facts() {
        A::align_facts();
        B::align_facts();
    }

    fn align_of() -> usize {
        let a = A::align_of();
        let b = B::align_of();
        if a >= b {
            a
        } else {
            b
        }
    }

    fn size_of() -> usize {
        A::size_of() + B::size_of()
    }
}

/// A pair of alignment-1 members is itself alignment-1.
impl<A: Unaligned, B: Unaligned> Unaligned for (A, B) {
    proof fn align_is_one() {
        A::align_is_one();
        B::align_is_one();
    }
}

/// A pair of alignment-1 members is declared packed: its members stand in
/// declaration order with no padding, so its size is the exact sum of the
/// member sizes.
impl<A: Unaligned, B: Unaligned> Packed for (A, B) {
}

impl<A: Layout, B: Layout, C: Layout> Layout for (A, B, C) {
    open spec fn spec_align() -> nat {
        if <(A, B)>::spec_align() >= C::spec_align() {
            <(A, B)>::spec_align()
        } else {
            C::spec_align()
        }
    }

    open spec fn spec_size() -> nat {
        A::spec_size() + B::spec_size() + C::spec_size()
    }

    proof fn align_facts() {
        <(A, B)>::align_facts();
        C::align_facts();
    }

    fn align_of() -> usize {
        let ab = <(A, B)>::align_of();
        let c = C::align_of();
        if ab >= c {
            ab
        } else {
            c
        }
    }

    fn size_of() -> usize {
        A::size_of() + B::size_of() + C::size_of()
    }
}

/// A triple of alignment-1 members is itself alignment-1.
impl<A: Unaligned, B: Unaligned, C: Unaligned> Unaligned for (A, B, C) {
    proof fn align_is_one() {
        <(A, B)>::align_is_one();
        C::align_is_one();
    }
}

/// A triple of alignment-1 members is declared packed, as the pair is.
impl<A: Unaligned, B: Unaligned, C: Unaligned> Packed for (A, B, C) {
}

impl<A: Layout, B: Layout, C: Layout, D: Layout> Layout for (A, B, C, D) {
    open spec fn spec_align() -> nat {
        if <(A, B, C)>::spec_align() >= D::spec_align() {
            <(A, B, C)>::spec_align()
        } else {
            D::spec_align()
        }
    }

    open spec fn spec_size() -> nat {
        A::spec_size() + B::spec_size() + C::spec_size() + D::spec_size()
    }

    proof fn align_facts() {
        <(A, B, C)>::align_facts();
        D::align_facts();
    }

    fn align_of() -> usize {
        let abc = <(A, B, C)>::align_of();
        let d = D::align_of();
        if abc >= d {
            abc
        } else {
            d
        }
    }

    fn size_of() -> usize {
        A::size_of() + B::size_of() + C::size_of() + D::size_of()
    }
}

/// A 4-tuple of alignment-1 members is itself alignment-1.
impl<A: Unaligned, B: Unaligned, C: Unaligned, D: Unaligned> Unaligned for (A, B, C, D) {
    proof fn align_is_one() {
        <(A, B, C)>::align_is_one();
        D::align_is_one();
    }
}

/// A 4-tuple of alignment-1 members is declared packed, as the pair is.
impl<A: Unaligned, B: Unaligned, C: Unaligned, D: Unaligned> Packed for (A, B, C, D) {
}

/// A 1-element tuple of an `Aligned` type inherits that type's unaligned
/// representation directly, with no wrapping.
impl<A: Aligned> Aligned for (A,) {
    type Unaligned = A::Unaligned;

    open spec fn as_bytes(self) -> Seq<u8> {
        self.0.as_bytes()
    }

    open spec fn un_bytes(u: A::Unaligned) -> Seq<u8> {
        A::un_bytes(u)
    }

    open spec fn from_ok(u: A::Unaligned) -> bool {
        A::from_ok(u)
    }

    proof fn lemma_as_bytes_len(self) {
        self.0.lemma_as_bytes_len();
    }

    proof fn lemma_un_bytes_len(u: A::Unaligned) {
        A::lemma_un_bytes_len(u);
    }

    proof fn lemma_size_eq() {
        A::lemma_size_eq();
    }

    proof fn lemma_as_bytes_inj(a: (A,), b: (A,)) {
        A::lemma_as_bytes_inj(a.0, b.0);
    }

    fn as_unaligned(&self) -> A::Unaligned {
        self.0.as_unaligned()
    }

    fn check_from(u: &A::Unaligned) -> bool {
        A::check_from(u)
    }

    fn from_unaligned(u: A::Unaligned) -> ((A,)) {
        (A::from_unaligned(u),)
    }
}

/// A 1-element array of an `Aligned` element inherits the element's unaligned
/// representation directly, with no wrapping.
impl<A: Aligned + Copy> Aligned for [A; 1] {
    type Unaligned = A::Unaligned;

    open spec fn as_bytes(self) -> Seq<u8> {
        self@[0].as_bytes()
    }

    open spec fn un_bytes(u: A::Unaligned) -> Seq<u8> {
        A::un_bytes(u)
    }

    open spec fn from_ok(u: A::Unaligned) -> bool {
        A::from_ok(u)
    }

    proof fn lemma_as_bytes_len(self) {
        self@[0].lemma_as_bytes_len();
    }

    proof fn lemma_un_bytes_len(u: A::Unaligned) {
        A::lemma_un_bytes_len(u);
    }

    proof fn lemma_size_eq() {
        A::lemma_size_eq();
    }

    proof fn lemma_as_bytes_inj(a: [A; 1], b: [A; 1]) {
        A::lemma_as_bytes_inj(a@[0], b@[0]);
        assert(a@ =~= b@);
    }

    fn as_unaligned(&self) -> A::Unaligned {
        self[0].as_unaligned()
    }

    fn check_from(u: &A::Unaligned) -> bool {
        A::check_from(u)
    }

    fn from_unaligned(u: A::Unaligned) -> (t: [A; 1])
    {
        let t = [A::from_unaligned(u)];
        proof {
            assert(t@[0].as_bytes() == <[A; 1] as Aligned>::un_bytes(u));
        }
        t
    }
}

/// A 0-element array stores nothing: its unaligned representation is the
/// unit type's.
impl<A: Aligned + Copy> Aligned for [A; 0] {
    type Unaligned = ();

    open spec fn as_bytes(self) -> Seq<u8> {
        Seq::empty()
    }

    open spec fn un_bytes(u: ()) -> Seq<u8> {
        Seq::empty()
    }

    open spec fn from_ok(u: ()) -> bool {
        true
    }

    proof fn lemma_as_bytes_len(self) {
    }

    proof fn lemma_un_bytes_len(u: ()) {
    }

    proof fn lemma_size_eq() {
    }

    proof fn lemma_as_bytes_inj(a: [A; 0], b: [A; 0]) {
        assert(a@ =~= b@);
    }

    fn as_unaligned(&self) -> () {
        ()
    }

    fn check_from(u: &()) -> bool {
        true
    }

    fn from_unaligned(u: ()) -> [A; 0] {
        []
    }
}

} // verus!
