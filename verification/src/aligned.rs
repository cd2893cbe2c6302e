//! The conversion interface between a type's aligned form and its unaligned,
//! alignment-1 representation.

use vstd::prelude::*;
use crate::layout::Layout;
use crate::layout::spec_is_aligned_for;
use crate::layout::is_aligned_for;
use crate::marker::Unaligned;

verus! {

/// A type alias that represents the unaligned type of `T`.
pub type Un<T> = <T as Aligned>::Unaligned;

/// A trait for converting types with alignments greater than `1` into their
/// unaligned equivalent.
///
/// Both forms are modeled by their byte image, a `Seq<u8>`; every conversion
/// is a byte-identical relabeling, never a reencoding. Addresses are plain
/// `usize` values supplied by the caller, standing for where the unaligned
/// representation sits in memory; the checked conversions succeed exactly
/// when that address satisfies the alignment predicate (and the bytes denote
/// a value at all, see [`Aligned::from_ok`]).
pub trait Aligned: Layout {
    /// An unaligned representation of this type. Usually a `u8` array of the
    /// same size.
    type Unaligned: Unaligned;

    /// The byte image of a value of this type.
    spec fn as_bytes(self) -> Seq<u8>;

    /// The byte image of an unaligned representation.
    spec fn un_bytes(u: Self::Unaligned) -> Seq<u8>;

    /// Whether an unaligned representation denotes a value of this type at
    /// all. For byte-array representations of the fixed-width integers this
    /// is every representation; a representation wider than the platform's
    /// pointer, or one that is no valid scalar, is excluded here rather than
    /// trusted blindly.
    spec fn from_ok(u: Self::Unaligned) -> bool;

    /// A value's byte image has exactly the declared size.
    proof fn lemma_as_bytes_len(self)
        ensures
            self.as_bytes().len() == Self::spec_size(),
    ;

    /// An unaligned representation's byte image has exactly the
    /// representation's declared size.
    proof fn lemma_un_bytes_len(u: Self::Unaligned)
        ensures
            Self::un_bytes(u).len() == <Self::Unaligned as Layout>::spec_size(),
    ;

    /// The size-equality invariant: the aligned type and its unaligned
    /// representation have identical byte size.
    proof fn lemma_size_eq()
        ensures
            Self::spec_size() == <Self::Unaligned as Layout>::spec_size(),
    ;

    /// The byte image determines the value: conversion loses nothing.
    proof fn lemma_as_bytes_inj(a: Self, b: Self)
        requires
            a.as_bytes() == b.as_bytes(),
        ensures
            a == b,
    ;

    /// Every value's byte image is realized by some admissible
    /// representation; [`Aligned::into_unaligned`] produces it.
    fn as_unaligned(&self) -> (u: Self::Unaligned)
        ensures
            Self::un_bytes(u) == self.as_bytes(),
            Self::from_ok(u),
    ;

    /// Decides [`Aligned::from_ok`] at runtime.
    fn check_from(u: &Self::Unaligned) -> (b: bool)
        ensures
            b == Self::from_ok(*u),
    ;

    /// Creates a value from its unaligned representation.
    fn from_unaligned(u: Self::Unaligned) -> (t: Self)
        requires
            Self::from_ok(u),
        ensures
            t.as_bytes() == Self::un_bytes(u),
    ;

    /// Determines whether an unaligned representation sitting at `addr` is
    /// aligned for this type.
    fn is_aligned(addr: usize) -> (r: bool)
        ensures
            r == spec_is_aligned_for::<Self>(addr),
    {
        is_aligned_for::<Self>(addr)
    }

    /// Converts a value to its unaligned representation.
    fn into_unaligned(self) -> (u: Self::Unaligned)
        ensures
            Self::un_bytes(u) == self.as_bytes(),
            Self::from_ok(u),
    {
        self.as_unaligned()
    }

    /// Overwrites this value in place from an unaligned representation: the
    /// in-place editing path of the byte form.
    fn set_unaligned(&mut self, u: Self::Unaligned)
        requires
            Self::from_ok(u),
        ensures
            final(self).as_bytes() == Self::un_bytes(u),
    {
        *self = Self::from_unaligned(u);
    }

    /// Reads an unaligned representation sitting at `addr` back as an aligned
    /// value, after checking the alignment.
    ///
    /// Returns `None` if `addr` is not aligned for this type (or the bytes
    /// denote no value): never a view of misaligned memory.
    fn from_unaligned_ref(u: Self::Unaligned, addr: usize) -> (r: Option<Self>)
        ensures
            (r is Some) <==> (spec_is_aligned_for::<Self>(addr) && Self::from_ok(u)),
            r is Some ==> (r->0).as_bytes() == Self::un_bytes(u),
    {
        if Self::is_aligned(addr) && Self::check_from(&u) {
            Some(Self::from_unaligned(u))
        } else {
            None
        }
    }

    /// The mutable counterpart of [`Aligned::from_unaligned_ref`]: overwrites
    /// `self` from an unaligned representation sitting at `addr`, but only
    /// after checking the alignment.
    ///
    /// Returns `false`, leaving `self` untouched, if `addr` is not aligned
    /// for this type (or the bytes denote no value).
    fn from_unaligned_mut(&mut self, u: Self::Unaligned, addr: usize) -> (ok: bool)
        ensures
            ok <==> (spec_is_aligned_for::<Self>(addr) && Self::from_ok(u)),
            ok ==> final(self).as_bytes() == Self::un_bytes(u),
            !ok ==> *final(self) == *old(self),
    {
        if Self::is_aligned(addr) && Self::check_from(&u) {
            self.set_unaligned(u);
            true
        } else {
            false
        }
    }

    /// Reads an unaligned representation back as an aligned value without
    /// checking the alignment at runtime: the caller owes the proof that
    /// `addr` is aligned.
    fn from_unaligned_unchecked(u: Self::Unaligned, addr: usize) -> (t: Self)
        requires
            spec_is_aligned_for::<Self>(addr),
            Self::from_ok(u),
        ensures
            t.as_bytes() == Self::un_bytes(u),
    {
        Self::from_unaligned(u)
    }

    /// The mutable counterpart of [`Aligned::from_unaligned_unchecked`]: the
    /// caller owes the proof that `addr` is aligned.
    fn from_unaligned_mut_unchecked(&mut self, u: Self::Unaligned, addr: usize)
        requires
            spec_is_aligned_for::<Self>(addr),
            Self::from_ok(u),
        ensures
            final(self).as_bytes() == Self::un_bytes(u),
    {
        self.set_unaligned(u);
    }
}

} // verus!
