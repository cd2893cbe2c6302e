//! The free alignment predicates and the byte-size computation.

use unalign::F32Bits;
use unalign::Layout;
use unalign::is_aligned_for;
use unalign::is_aligned_for_slice;
use unalign::size_of_slice;

#[test]
fn pointer_alignment() {
    let addr: usize = 8;
    assert!(is_aligned_for::<F32Bits>(addr));
    assert!(is_aligned_for::<u8>(addr));
    if <F32Bits as Layout>::align_of() > 1 {
        assert!(!is_aligned_for::<F32Bits>(addr + 1));
    }
}

#[test]
fn alignment_one_accepts_every_address() {
    for addr in 0..64usize {
        assert!(is_aligned_for::<u8>(addr));
        assert!(is_aligned_for::<i8>(addr));
        assert!(is_aligned_for::<bool>(addr));
        assert!(is_aligned_for::<()>(addr));
    }
}

#[test]
fn alignment_four_accepts_multiples_of_four() {
    assert!(is_aligned_for::<u32>(0));
    assert!(is_aligned_for::<u32>(4));
    assert!(is_aligned_for::<u32>(64));
    assert!(!is_aligned_for::<u32>(1));
    assert!(!is_aligned_for::<u32>(2));
    assert!(!is_aligned_for::<u32>(3));
    assert!(!is_aligned_for::<u32>(6));
}

#[test]
fn alignment_eight_accepts_multiples_of_eight() {
    assert!(is_aligned_for::<u64>(16));
    assert!(!is_aligned_for::<u64>(17));
    assert!(!is_aligned_for::<u64>(20));
    assert!(is_aligned_for::<usize>(8));
    assert!(!is_aligned_for::<usize>(12));
}

#[test]
fn slice_alignment_uses_the_start_address() {
    assert!(is_aligned_for_slice::<u32>(8));
    assert!(!is_aligned_for_slice::<u32>(9));
    assert!(is_aligned_for_slice::<u8>(9));
}

#[test]
fn size_of_slice_multiplies_length_by_element_size() {
    let words: [u32; 3] = [1, 2, 3];
    assert_eq!(size_of_slice(&words), 12);
    let none: [u64; 0] = [];
    assert_eq!(size_of_slice(&none), 0);
    let bytes: [u8; 5] = [0, 1, 2, 3, 4];
    assert_eq!(size_of_slice(&bytes), 5);
    let pairs: [(bool, u8); 4] = [(true, 0), (false, 1), (true, 2), (false, 3)];
    assert_eq!(size_of_slice(&pairs), 8);
}

#[test]
fn declared_sizes_match_the_platform_widths() {
    assert_eq!(<u16 as Layout>::size_of(), 2);
    assert_eq!(<i16 as Layout>::size_of(), 2);
    assert_eq!(<u32 as Layout>::size_of(), 4);
    assert_eq!(<i32 as Layout>::size_of(), 4);
    assert_eq!(<u64 as Layout>::size_of(), 8);
    assert_eq!(<i64 as Layout>::size_of(), 8);
    assert_eq!(<char as Layout>::size_of(), 4);
    assert_eq!(<F32Bits as Layout>::size_of(), 4);
    assert_eq!(<unalign::F64Bits as Layout>::size_of(), 8);
}

#[test]
fn mapping_preserves_size() {
    assert_eq!(<[u8; 2] as Layout>::size_of(), <u16 as Layout>::size_of());
    assert_eq!(<[u8; 4] as Layout>::size_of(), <u32 as Layout>::size_of());
    assert_eq!(<[u8; 8] as Layout>::size_of(), <u64 as Layout>::size_of());
    assert_eq!(<[u8; 4] as Layout>::size_of(), <char as Layout>::size_of());
    assert_eq!(<[u8; 8] as Layout>::size_of(), <usize as Layout>::size_of());
}
