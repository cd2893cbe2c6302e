//! Working with densely packed, potentially misaligned in-memory data as
//! strongly typed values.
//!
//! A value's *aligned* form is its natural representation, which may demand an
//! address divisible by its alignment; its *unaligned* form is a same-sized
//! byte-array stand-in with alignment 1, safe to place at any byte offset.
//! This crate models addresses as plain `usize` values and byte images as
//! `Seq<u8>`, so every conversion between the two forms carries a proved
//! contract: conversions are byte-identical relabelings, checked conversions
//! succeed exactly when the address satisfies the alignment predicate, and
//! every declared mapping preserves size.

pub mod layout;
pub mod marker;
pub mod aligned;
pub mod prim;
pub mod composite;
pub mod laws;

pub use layout::Layout;
pub use layout::is_aligned_for;
pub use layout::is_aligned_for_slice;
pub use layout::size_of_slice;
pub use layout::spec_is_aligned_for;
pub use marker::Unaligned;
pub use marker::Packed;
pub use aligned::Aligned;
pub use aligned::Un;
pub use prim::F32Bits;
pub use prim::F64Bits;
