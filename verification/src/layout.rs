//! The base layout facts every participating type declares: its alignment and
//! its byte size, together with the free alignment predicates.

use vstd::prelude::*;

verus! {

/// Layout facts of a type in this crate's memory model: its required
/// alignment and its byte size. Addresses are modeled as plain `usize`
/// values; the model fixes each type's alignment and size once, the way a
/// 64-bit target lays the primitives out.
pub trait Layout: Sized {
    /// The alignment every address holding a value of this type must satisfy.
    spec fn spec_align() -> nat;

    /// The byte size of one value of this type.
    spec fn spec_size() -> nat;

    /// An alignment is at least 1 and representable as an address.
    proof fn align_facts()
        ensures
            1 <= Self::spec_align() <= usize::MAX,
    ;

    /// The alignment, as a runtime value.
    fn align_of() -> (r: usize)
        ensures
            r as nat == Self::spec_align(),
    ;

    /// The byte size, as a runtime value.
    fn size_of() -> (r: usize)
        requires
            Self::spec_size() <= usize::MAX,
        ensures
            r as nat == Self::spec_size(),
    ;
}

/// Whether `addr` satisfies the alignment that type `T` requires.
pub open spec fn spec_is_aligned_for<T: Layout>(addr: usize) -> bool {
    addr as nat % T::spec_align() == 0
}

/// Determines whether an address is correctly aligned for type `T`.
pub fn is_aligned_for<T: Layout>(addr: usize) -> (r: bool)
    ensures
        r == spec_is_aligned_for::<T>(addr),
{
    proof {
        T::align_facts();
    }
    addr % T::align_of() == 0
}

/// Determines whether a slice whose first element sits at `addr` is
/// correctly aligned for type `T`.
pub fn is_aligned_for_slice<T: Layout>(addr: usize) -> (r: bool)
    ensures
        r == spec_is_aligned_for::<T>(addr),
{
    is_aligned_for::<T>(addr)
}

/// Calculates the total byte size of a slice.
pub fn size_of_slice<T: Layout>(slice: &[T]) -> (r: usize)
    requires
        T::spec_size() <= usize::MAX,
        slice@.len() * T::spec_size() <= usize::MAX,
    ensures
        r as nat == slice@.len() * T::spec_size(),
{
    slice.len() * T::size_of()
}

} // verus!
