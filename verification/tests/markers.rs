//! The capability markers propagate through composites exactly as declared.

use core::marker::PhantomData;
use unalign::Packed;
use unalign::Unaligned;
use unalign::Layout;

fn is<T: Packed>() {}

fn is_unaligned<T: Unaligned>() {}

#[test]
fn assert_packed() {
    is::<()>();
    is::<u8>();
    is::<i8>();
    is::<bool>();
    is_unaligned::<(bool, u8)>();
}

#[test]
fn packed_composites() {
    is::<(bool, u8)>();
    is::<(u8, bool, i8)>();
    is::<(u8, (bool, i8))>();
    is::<(u8, bool, i8, ())>();
    is::<[u8; 16]>();
    is::<[bool; 4]>();
    is::<[(u8, i8); 3]>();
    is::<PhantomData<u64>>();
    is_unaligned::<[i8; 0]>();
    is_unaligned::<((), u8)>();
}

#[test]
fn unaligned_types_have_alignment_one() {
    assert_eq!(<u8 as Layout>::align_of(), 1);
    assert_eq!(<i8 as Layout>::align_of(), 1);
    assert_eq!(<bool as Layout>::align_of(), 1);
    assert_eq!(<() as Layout>::align_of(), 1);
    assert_eq!(<(bool, u8) as Layout>::align_of(), 1);
    assert_eq!(<[u8; 8] as Layout>::align_of(), 1);
    assert_eq!(<PhantomData<u32> as Layout>::align_of(), 1);
}

#[test]
fn composite_sizes_are_exact() {
    assert_eq!(<(bool, u8) as Layout>::size_of(), 2);
    assert_eq!(<(u8, bool, i8) as Layout>::size_of(), 3);
    assert_eq!(<[u8; 16] as Layout>::size_of(), 16);
    assert_eq!(<[(u8, i8); 3] as Layout>::size_of(), 6);
    assert_eq!(<[i8; 0] as Layout>::size_of(), 0);
    assert_eq!(<PhantomData<u64> as Layout>::size_of(), 0);
}
