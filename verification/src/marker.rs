//! The capability markers: `Unaligned` for types whose alignment is 1, and
//! `Packed` for composites additionally laid out in declaration order with no
//! padding.

use vstd::prelude::*;
use crate::layout::Layout;

verus! {

/// A marker trait indicating that a type has an alignment of `1`, and is
/// therefore safe to place at any byte offset.
///
/// In general, only applies to `()`, `bool`, `i8`, `u8`, and composites built
/// only from such types. Each implementation owes a proof that its declared
/// alignment really is 1.
pub trait Unaligned: Layout {
    /// The defining obligation: the type's alignment is exactly 1.
    proof fn align_is_one()
        ensures
            Self::spec_align() == 1,
    ;
}

/// A marker trait indicating that a composite type's members occupy memory
/// contiguously, in declaration order, with no inserted padding, the whole
/// having alignment 1.
///
/// The ordering claim cannot be observed from inside this crate's value
/// model; a declaration of this marker is trusted from the declaring context.
/// The crate itself declares it only for the unit type, the 8-bit integer and
/// boolean types, tag types, fixed arrays of `Packed` elements, and small
/// tuples of `Unaligned` members; for those, the byte-size bookkeeping of
/// [`Layout`] (a tuple's size is the exact sum of its members' sizes, an
/// array's the exact multiple) is the model-level shadow of the no-padding
/// claim.
pub trait Packed: Unaligned {
}

impl<T> Layout for core::marker::PhantomData<T> {
    open spec fn spec_align() -> nat {
        1
    }

    open spec fn spec_size() -> nat {
        0
    }

    proof fn align_facts() {
    }

    fn align_of() -> usize {
        1
    }

    fn size_of() -> usize {
        0
    }
}

/// A zero-sized tag type occupies no memory at all, so it is trivially safe
/// at any byte offset.
impl<T> Unaligned for core::marker::PhantomData<T> {
    proof fn align_is_one() {
    }
}

/// A zero-sized tag type is trivially packed.
impl<T> Packed for core::marker::PhantomData<T> {
}

} // verus!
