//! Round trips between the aligned and unaligned forms, the checked
//! conversions' alignment behavior, and the exact little-endian byte images.

use unalign::Aligned;
use unalign::F32Bits;
use unalign::F64Bits;

#[test]
fn unaligned_conversion() {
    let f = F32Bits { bits: 0.5f32.to_bits() };
    let x = Aligned::into_unaligned(f);
    assert!(<F32Bits as Aligned>::is_aligned(4));
    assert_eq!(f, <F32Bits as Aligned>::from_unaligned_ref(x, 4).unwrap());
}

#[test]
fn half_round_trips_exactly() {
    let f = F32Bits { bits: 0.5f32.to_bits() };
    let u = f.into_unaligned();
    assert_eq!(u, [0x00, 0x00, 0x00, 0x3F]);
    let back = F32Bits::from_unaligned(u);
    assert_eq!(f32::from_bits(back.bits), 0.5f32);
    let d = F64Bits { bits: 0.5f64.to_bits() };
    let v = d.into_unaligned();
    assert_eq!(v, [0x00, 0x00, 0x00, 0x00, 0x00, 0x00, 0xE0, 0x3F]);
    assert_eq!(f64::from_bits(F64Bits::from_unaligned(v).bits), 0.5f64);
}

#[test]
fn unsigned_round_trips_and_byte_images() {
    let a: u16 = 0x1234;
    assert_eq!(a.into_unaligned(), [0x34, 0x12]);
    assert_eq!(u16::from_unaligned([0x34, 0x12]), a);

    let b: u32 = 0x12345678;
    assert_eq!(b.into_unaligned(), [0x78, 0x56, 0x34, 0x12]);
    assert_eq!(u32::from_unaligned([0x78, 0x56, 0x34, 0x12]), b);

    let c: u64 = 0x0102030405060708;
    assert_eq!(c.into_unaligned(), [8, 7, 6, 5, 4, 3, 2, 1]);
    assert_eq!(u64::from_unaligned([8, 7, 6, 5, 4, 3, 2, 1]), c);
}

#[test]
fn signed_round_trips_and_byte_images() {
    let a: i16 = -2;
    assert_eq!(a.into_unaligned(), [0xFE, 0xFF]);
    assert_eq!(i16::from_unaligned([0xFE, 0xFF]), a);

    let b: i32 = -1;
    assert_eq!(b.into_unaligned(), [0xFF, 0xFF, 0xFF, 0xFF]);
    assert_eq!(i32::from_unaligned([0xFF, 0xFF, 0xFF, 0xFF]), b);

    let c: i64 = i64::MIN;
    let u = c.into_unaligned();
    assert_eq!(u, [0, 0, 0, 0, 0, 0, 0, 0x80]);
    assert_eq!(i64::from_unaligned(u), c);
}

#[test]
fn self_mapped_round_trips() {
    assert_eq!(u8::from_unaligned(7u8.into_unaligned()), 7u8);
    assert_eq!(i8::from_unaligned((-7i8).into_unaligned()), -7i8);
    assert_eq!(bool::from_unaligned(true.into_unaligned()), true);
    assert_eq!(bool::from_unaligned(false.into_unaligned()), false);
    assert_eq!(<() as Aligned>::from_unaligned(().into_unaligned()), ());
}

#[test]
fn pointer_width_round_trips() {
    let a: usize = 0xABCDE;
    let u = a.into_unaligned();
    assert!(usize::check_from(&u));
    assert_eq!(usize::from_unaligned(u), a);

    let b: isize = -12345;
    let v = b.into_unaligned();
    assert!(isize::check_from(&v));
    assert_eq!(isize::from_unaligned(v), b);
}

#[test]
fn char_round_trips() {
    for c in ['A', 'é', '𝄞', char::MAX] {
        let u = c.into_unaligned();
        assert!(char::check_from(&u));
        assert_eq!(char::from_unaligned(u), c);
    }
    assert_eq!('A'.into_unaligned(), [0x41, 0, 0, 0]);
}

#[test]
fn char_rejects_non_scalar_bytes() {
    // 0xD800, the first surrogate, little-endian.
    let surrogate = [0x00, 0xD8, 0x00, 0x00];
    assert!(!char::check_from(&surrogate));
    assert_eq!(char::from_unaligned_ref(surrogate, 4), None);
    // 0x110000, one past the character range.
    let beyond = [0x00, 0x00, 0x11, 0x00];
    assert!(!char::check_from(&beyond));
    assert_eq!(char::from_unaligned_ref(beyond, 8), None);
}

#[test]
fn checked_reference_conversion_respects_alignment() {
    let x: u32 = 0xDEADBEEF;
    let u = x.as_unaligned();
    assert_eq!(u32::from_unaligned_ref(u, 0), Some(x));
    assert_eq!(u32::from_unaligned_ref(u, 8), Some(x));
    assert_eq!(u32::from_unaligned_ref(u, 1), None);
    assert_eq!(u32::from_unaligned_ref(u, 2), None);
    assert_eq!(u32::from_unaligned_ref(u, 7), None);
}

#[test]
fn checked_mutable_conversion_respects_alignment() {
    let mut x: u16 = 1;
    assert!(x.from_unaligned_mut([0x22, 0x11], 6));
    assert_eq!(x, 0x1122);
    assert!(!x.from_unaligned_mut([0x44, 0x33], 5));
    assert_eq!(x, 0x1122);
}

#[test]
fn unchecked_conversions_relabel_the_bytes() {
    let x = u32::from_unaligned_unchecked([1, 0, 0, 0], 4);
    assert_eq!(x, 1);
    let mut y: u64 = 0;
    y.from_unaligned_mut_unchecked([2, 0, 0, 0, 0, 0, 0, 0], 16);
    assert_eq!(y, 2);
}

#[test]
fn set_unaligned_edits_in_place() {
    let mut x: i32 = 5;
    x.set_unaligned([0xFE, 0xFF, 0xFF, 0xFF]);
    assert_eq!(x, -2);
}

#[test]
fn composite_conversions_inherit_the_element() {
    let t: (u32,) = (0x01020304,);
    let u = t.into_unaligned();
    assert_eq!(u, [4, 3, 2, 1]);
    assert_eq!(<(u32,)>::from_unaligned(u), t);

    let a: [u16; 1] = [0x0910];
    let v = a.into_unaligned();
    assert_eq!(v, [0x10, 0x09]);
    assert_eq!(<[u16; 1]>::from_unaligned(v), a);

    let e: [u64; 0] = [];
    assert_eq!(e.into_unaligned(), ());
    assert_eq!(<[u64; 0]>::from_unaligned(()), e);
}
