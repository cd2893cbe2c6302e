//! The laws the conversion interface obeys, each stated over the byte model
//! and proved for every implementation at once.

use vstd::prelude::*;
use vstd::arithmetic::div_mod::lemma_fundamental_div_mod;
use vstd::arithmetic::div_mod::lemma_mod_multiples_vanish;
use vstd::arithmetic::div_mod::lemma_small_mod;
use crate::layout::Layout;
use crate::layout::spec_is_aligned_for;
use crate::marker::Unaligned;
use crate::aligned::Aligned;

verus! {

/// Round trip by value: reconstructing a value from its unaligned form
/// yields the value itself, bit for bit.
///
/// `u` is what [`Aligned::into_unaligned`] ensures of its result on `v`, and
/// `w` what [`Aligned::from_unaligned`] ensures of its result on `u`; the
/// reconstruction `w` is exactly `v`.
pub proof fn lemma_round_trip_value<T: Aligned>(v: T, u: T::Unaligned, w: T)
    requires
        T::un_bytes(u) == v.as_bytes(),
        w.as_bytes() == T::un_bytes(u),
    ensures
        w == v,
{
    T::lemma_as_bytes_inj(v, w);
}

/// Size invariant: for every declared `Aligned` mapping, the aligned type and
/// its unaligned representation have identical byte size, and every byte
/// image on either side has exactly that length.
pub proof fn lemma_size_invariant<T: Aligned>(v: T, u: T::Unaligned)
    ensures
        T::spec_size() == <T::Unaligned as Layout>::spec_size(),
        v.as_bytes().len() == T::spec_size(),
        T::un_bytes(u).len() == T::spec_size(),
{
    T::lemma_size_eq();
    T::lemma_as_bytes_len(v);
    T::lemma_un_bytes_len(u);
}

/// Predicate correctness at an aligned address: every multiple of the
/// alignment satisfies the predicate.
pub proof fn lemma_aligned_at_multiple<T: Layout>(k: usize)
    requires
        k as nat * T::spec_align() <= usize::MAX,
    ensures
        spec_is_aligned_for::<T>((k as nat * T::spec_align()) as usize),
{
    T::align_facts();
    let a = T::spec_align() as int;
    lemma_mod_multiples_vanish(k as int, 0, a);
    lemma_small_mod(0, T::spec_align());
}

/// Predicate correctness one byte off: where a type requires an alignment
/// greater than 1, the address one past an aligned one never satisfies the
/// predicate.
pub proof fn lemma_misaligned_at_offset_one<T: Layout>(addr: usize)
    requires
        spec_is_aligned_for::<T>(addr),
        T::spec_align() > 1,
        addr < usize::MAX,
    ensures
        !spec_is_aligned_for::<T>((addr + 1) as usize),
{
    let a = T::spec_align() as int;
    lemma_fundamental_div_mod(addr as int, a);
    lemma_mod_multiples_vanish(addr as int / a, 1, a);
    lemma_small_mod(1, T::spec_align());
}

/// Composite propagation for pairs: a fixed-size tuple of two types carrying
/// the `Unaligned` capability carries it too (the `Unaligned` and `Packed`
/// implementations for the pair exist exactly under these bounds), and in
/// particular has alignment 1 and the exact sum of the member sizes, with no
/// inserted padding.
pub proof fn lemma_pair_propagation<A: Unaligned, B: Unaligned>()
    ensures
        <(A, B) as Layout>::spec_align() == 1,
        <(A, B) as Layout>::spec_size() == A::spec_size() + B::spec_size(),
{
    <(A, B)>::align_is_one();
}

/// Composite propagation for arrays: a fixed-size array of elements carrying
/// the `Unaligned` capability carries it too (as above, the array's
/// `Unaligned` and `Packed` implementations exist under these bounds), with
/// alignment 1 and exactly `N` times the element size, no padding between
/// elements.
pub proof fn lemma_array_propagation<T: Unaligned, const N: usize>()
    ensures
        <[T; N] as Layout>::spec_align() == 1,
        <[T; N] as Layout>::spec_size() == N as nat * T::spec_size(),
{
    <[T; N]>::align_is_one();
}

/// A 0-element array stores nothing: its byte image and its unaligned
/// representation, the unit type's, both have size 0.
pub proof fn lemma_zero_array_size<A: Aligned + Copy>(v: [A; 0])
    ensures
        v.as_bytes().len() == 0,
        <<[A; 0] as Aligned>::Unaligned as Layout>::spec_size() == 0,
{
    <[A; 0]>::lemma_size_eq();
    v.lemma_as_bytes_len();
}

/// A 1-element array's unaligned representation is its element's, with no
/// wrapping: the byte images coincide on both sides of the mapping.
pub proof fn lemma_one_array_matches_element<A: Aligned + Copy>(v: [A; 1], u: A::Unaligned)
    ensures
        v.as_bytes() == v@[0].as_bytes(),
        <[A; 1] as Aligned>::un_bytes(u) == A::un_bytes(u),
{
}

/// A 1-element tuple's unaligned representation is its member's, with no
/// wrapping: the byte images coincide on both sides of the mapping.
pub proof fn lemma_one_tuple_matches_element<A: Aligned>(v: (A,), u: A::Unaligned)
    ensures
        v.as_bytes() == v.0.as_bytes(),
        <(A,) as Aligned>::un_bytes(u) == A::un_bytes(u),
{
}

/// For a type carrying the `Unaligned` capability, every address satisfies
/// the alignment predicate.
pub proof fn lemma_unaligned_accepts_every_address<T: Unaligned>(addr: usize)
    ensures
        spec_is_aligned_for::<T>(addr),
{
    T::align_is_one();
    lemma_small_mod(0, 1);
    assert(addr as nat % 1 == 0) by {
        lemma_fundamental_div_mod(addr as int, 1);
    };
}

} // verus!
