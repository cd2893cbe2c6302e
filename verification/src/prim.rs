//! The registry of primitive instances: each fixed-width numeric type mapped
//! to a same-sized little-endian byte array, and the alignment-1 types mapped
//! to themselves.

use vstd::prelude::*;
use vstd::bytes::spec_u16_to_le_bytes;
use vstd::bytes::spec_u32_to_le_bytes;
use vstd::bytes::spec_u64_to_le_bytes;
use vstd::bytes::lemma_auto_spec_u16_to_from_le_bytes;
use vstd::bytes::lemma_auto_spec_u32_to_from_le_bytes;
use vstd::bytes::lemma_auto_spec_u64_to_from_le_bytes;
use vstd::bytes::u16_to_le_bytes;
use vstd::bytes::u32_to_le_bytes;
use vstd::bytes::u64_to_le_bytes;
use vstd::bytes::u16_from_le_bytes;
use vstd::bytes::u32_from_le_bytes;
use vstd::bytes::u64_from_le_bytes;
use crate::layout::Layout;
use crate::marker::Unaligned;
use crate::marker::Packed;
use crate::aligned::Aligned;

verus! {

broadcast use vstd::seq::group_seq_axioms;

impl Layout for () {
    open spec fn spec_align() -> nat {
        1
    }

    open spec fn spec_size() -> nat {
        0
    }

    proof fn align_facts() {
    }

    fn align_of() -> usize {
        1
    }

    fn size_of() -> usize {
        0
    }
}

impl Unaligned for () {
    proof fn align_is_one() {
    }
}

impl Packed for () {
}

impl Layout for u8 {
    open spec fn spec_align() -> nat {
        1
    }

    open spec fn spec_size() -> nat {
        1
    }

    proof fn align_facts() {
    }

    fn align_of() -> usize {
        1
    }

    fn size_of() -> usize {
        1
    }
}

impl Unaligned for u8 {
    proof fn align_is_one() {
    }
}

impl Packed for u8 {
}

impl Layout for i8 {
    open spec fn spec_align() -> nat {
        1
    }

    open spec fn spec_size() -> nat {
        1
    }

    proof fn align_facts() {
    }

    fn align_of() -> usize {
        1
    }

    fn size_of() -> usize {
        1
    }
}

impl Unaligned for i8 {
    proof fn align_is_one() {
    }
}

impl Packed for i8 {
}

impl Layout for bool {
    open spec fn spec_align() -> nat {
        1
    }

    open spec fn spec_size() -> nat {
        1
    }

    proof fn align_facts() {
    }

    fn align_of() -> usize {
        1
    }

    fn size_of() -> usize {
        1
    }
}

impl Unaligned for bool {
    proof fn align_is_one() {
    }
}

impl Packed for bool {
}

impl Aligned for () {
    type Unaligned = ();

    open spec fn as_bytes(self) -> Seq<u8> {
        Seq::empty()
    }

    open spec fn un_bytes(u: ()) -> Seq<u8> {
        Seq::empty()
    }

    open spec fn from_ok(u: ()) -> bool {
        true
    }

    proof fn lemma_as_bytes_len(self) {
    }

    proof fn lemma_un_bytes_len(u: ()) {
    }

    proof fn lemma_size_eq() {
    }

    proof fn lemma_as_bytes_inj(a: (), b: ()) {
    }

    fn as_unaligned(&self) -> () {
        ()
    }

    fn check_from(u: &()) -> bool {
        true
    }

    fn from_unaligned(u: ()) -> () {
        ()
    }
}

impl Aligned for u8 {
    type Unaligned = u8;

    open spec fn as_bytes(self) -> Seq<u8> {
        seq![self]
    }

    open spec fn un_bytes(u: u8) -> Seq<u8> {
        seq![u]
    }

    open spec fn from_ok(u: u8) -> bool {
        true
    }

    proof fn lemma_as_bytes_len(self) {
    }

    proof fn lemma_un_bytes_len(u: u8) {
    }

    proof fn lemma_size_eq() {
    }

    proof fn lemma_as_bytes_inj(a: u8, b: u8) {
        assert(a.as_bytes() =~= seq![a]);
        assert(b.as_bytes() =~= seq![b]);
        assert(a == a.as_bytes()[0]);
        assert(b == b.as_bytes()[0]);
    }

    fn as_unaligned(&self) -> u8 {
        *self
    }

    fn check_from(u: &u8) -> bool {
        true
    }

    fn from_unaligned(u: u8) -> u8 {
        u
    }
}

impl Aligned for i8 {
    type Unaligned = i8;

    open spec fn as_bytes(self) -> Seq<u8> {
        seq![self as u8]
    }

    open spec fn un_bytes(u: i8) -> Seq<u8> {
        seq![u as u8]
    }

    open spec fn from_ok(u: i8) -> bool {
        true
    }

    proof fn lemma_as_bytes_len(self) {
    }

    proof fn lemma_un_bytes_len(u: i8) {
    }

    proof fn lemma_size_eq() {
    }

    proof fn lemma_as_bytes_inj(a: i8, b: i8) {
        assert(a.as_bytes() =~= seq![a as u8]);
        assert(b.as_bytes() =~= seq![b as u8]);
        assert(a as u8 == a.as_bytes()[0]);
        assert(b as u8 == b.as_bytes()[0]);
        assert(a as u8 == b as u8 ==> a == b) by (bit_vector);
    }

    fn as_unaligned(&self) -> i8 {
        *self
    }

    fn check_from(u: &i8) -> bool {
        true
    }

    fn from_unaligned(u: i8) -> i8 {
        u
    }
}

impl Aligned for bool {
    type Unaligned = bool;

    open spec fn as_bytes(self) -> Seq<u8> {
        seq![if self { 1u8 } else { 0u8 }]
    }

    open spec fn un_bytes(u: bool) -> Seq<u8> {
        seq![if u { 1u8 } else { 0u8 }]
    }

    open spec fn from_ok(u: bool) -> bool {
        true
    }

    proof fn lemma_as_bytes_len(self) {
    }

    proof fn lemma_un_bytes_len(u: bool) {
    }

    proof fn lemma_size_eq() {
    }

    proof fn lemma_as_bytes_inj(a: bool, b: bool) {
        assert(a.as_bytes() =~= seq![if a { 1u8 } else { 0u8 }]);
        assert(b.as_bytes() =~= seq![if b { 1u8 } else { 0u8 }]);
        assert((if a { 1u8 } else { 0u8 }) == a.as_bytes()[0]);
        assert((if b { 1u8 } else { 0u8 }) == b.as_bytes()[0]);
    }

    fn as_unaligned(&self) -> bool {
        *self
    }

    fn check_from(u: &bool) -> bool {
        true
    }

    fn from_unaligned(u: bool) -> bool {
        u
    }
}

impl Layout for u32 {
    open spec fn spec_align() -> nat {
        4
    }

    open spec fn spec_size() -> nat {
        4
    }

    proof fn align_facts() {
    }

    fn align_of() -> usize {
        4
    }

    fn size_of() -> usize {
        4
    }
}

impl Aligned for u32 {
    type Unaligned = [u8; 4];

    open spec fn as_bytes(self) -> Seq<u8> {
        spec_u32_to_le_bytes(self)
    }

    open spec fn un_bytes(u: [u8; 4]) -> Seq<u8> {
        u@
    }

    open spec fn from_ok(u: [u8; 4]) -> bool {
        true
    }

    proof fn lemma_as_bytes_len(self) {
        lemma_auto_spec_u32_to_from_le_bytes();
    }

    proof fn lemma_un_bytes_len(u: [u8; 4]) {
    }

    proof fn lemma_size_eq() {
    }

    proof fn lemma_as_bytes_inj(a: u32, b: u32) {
        lemma_auto_spec_u32_to_from_le_bytes();
        assert(spec_u32_to_le_bytes(a).len() == 4);
        assert(spec_u32_to_le_bytes(b).len() == 4);
        assert(vstd::bytes::spec_u32_from_le_bytes(spec_u32_to_le_bytes(a)) == a);
        assert(vstd::bytes::spec_u32_from_le_bytes(spec_u32_to_le_bytes(b)) == b);
    }

    fn as_unaligned(&self) -> (u: [u8; 4])
    {
        let v = u32_to_le_bytes(*self);
        let r = [v[0], v[1], v[2], v[3]];
        proof {
            lemma_auto_spec_u32_to_from_le_bytes();
            assert(r@ =~= spec_u32_to_le_bytes(*self));
        }
        r
    }

    fn check_from(u: &[u8; 4]) -> bool {
        true
    }

    fn from_unaligned(u: [u8; 4]) -> (t: u32)
    {
        let t = u32_from_le_bytes(u.as_slice());
        proof {
            lemma_auto_spec_u32_to_from_le_bytes();
            assert(spec_u32_to_le_bytes(t) =~= u@);
        }
        t
    }
}

impl Layout for u16 {
    open spec fn spec_align() -> nat {
        2
    }

    open spec fn spec_size() -> nat {
        2
    }

    proof fn align_facts() {
    }

    fn align_of() -> usize {
        2
    }

    fn size_of() -> usize {
        2
    }
}

impl Aligned for u16 {
    type Unaligned = [u8; 2];

    open spec fn as_bytes(self) -> Seq<u8> {
        spec_u16_to_le_bytes(self)
    }

    open spec fn un_bytes(u: [u8; 2]) -> Seq<u8> {
        u@
    }

    open spec fn from_ok(u: [u8; 2]) -> bool {
        true
    }

    proof fn lemma_as_bytes_len(self) {
        lemma_auto_spec_u16_to_from_le_bytes();
    }

    proof fn lemma_un_bytes_len(u: [u8; 2]) {
    }

    proof fn lemma_size_eq() {
    }

    proof fn lemma_as_bytes_inj(a: u16, b: u16) {
        lemma_auto_spec_u16_to_from_le_bytes();
        assert(spec_u16_to_le_bytes(a).len() == 2);
        assert(spec_u16_to_le_bytes(b).len() == 2);
        assert(vstd::bytes::spec_u16_from_le_bytes(spec_u16_to_le_bytes(a)) == a);
        assert(vstd::bytes::spec_u16_from_le_bytes(spec_u16_to_le_bytes(b)) == b);
    }

    fn as_unaligned(&self) -> (u: [u8; 2])
    {
        let v = u16_to_le_bytes(*self);
        let r = [v[0], v[1]];
        proof {
            lemma_auto_spec_u16_to_from_le_bytes();
            assert(r@ =~= spec_u16_to_le_bytes(*self));
        }
        r
    }

    fn check_from(u: &[u8; 2]) -> bool {
        true
    }

    fn from_unaligned(u: [u8; 2]) -> (t: u16)
    {
        let t = u16_from_le_bytes(u.as_slice());
        proof {
            lemma_auto_spec_u16_to_from_le_bytes();
            assert(spec_u16_to_le_bytes(t) =~= u@);
        }
        t
    }
}

impl Layout for i16 {
    open spec fn spec_align() -> nat {
        2
    }

    open spec fn spec_size() -> nat {
        2
    }

    proof fn align_facts() {
    }

    fn align_of() -> usize {
        2
    }

    fn size_of() -> usize {
        2
    }
}

impl Aligned for i16 {
    type Unaligned = [u8; 2];

    open spec fn as_bytes(self) -> Seq<u8> {
        spec_u16_to_le_bytes(self as u16)
    }

    open spec fn un_bytes(u: [u8; 2]) -> Seq<u8> {
        u@
    }

    open spec fn from_ok(u: [u8; 2]) -> bool {
        true
    }

    proof fn lemma_as_bytes_len(self) {
        lemma_auto_spec_u16_to_from_le_bytes();
    }

    proof fn lemma_un_bytes_len(u: [u8; 2]) {
    }

    proof fn lemma_size_eq() {
    }

    proof fn lemma_as_bytes_inj(a: i16, b: i16) {
        lemma_auto_spec_u16_to_from_le_bytes();
        let au = a as u16;
        let bu = b as u16;
        assert(spec_u16_to_le_bytes(au).len() == 2);
        assert(spec_u16_to_le_bytes(bu).len() == 2);
        assert(vstd::bytes::spec_u16_from_le_bytes(spec_u16_to_le_bytes(au)) == au);
        assert(vstd::bytes::spec_u16_from_le_bytes(spec_u16_to_le_bytes(bu)) == bu);
        assert(a as u16 == b as u16 ==> a == b) by (bit_vector);
    }

    fn as_unaligned(&self) -> (u: [u8; 2])
    {
        let v = u16_to_le_bytes(*self as u16);
        let r = [v[0], v[1]];
        proof {
            lemma_auto_spec_u16_to_from_le_bytes();
            assert(r@ =~= spec_u16_to_le_bytes(*self as u16));
        }
        r
    }

    fn check_from(u: &[u8; 2]) -> bool {
        true
    }

    fn from_unaligned(u: [u8; 2]) -> (t: i16)
    {
        let x = u16_from_le_bytes(u.as_slice());
        let t = x as i16;
        proof {
            lemma_auto_spec_u16_to_from_le_bytes();
            assert(spec_u16_to_le_bytes(x) =~= u@);
            assert(x as i16 as u16 == x) by (bit_vector);
        }
        t
    }
}

impl Layout for i32 {
    open spec fn spec_align() -> nat {
        4
    }

    open spec fn spec_size() -> nat {
        4
    }

    proof fn align_facts() {
    }

    fn align_of() -> usize {
        4
    }

    fn size_of() -> usize {
        4
    }
}

impl Aligned for i32 {
    type Unaligned = [u8; 4];

    open spec fn as_bytes(self) -> Seq<u8> {
        spec_u32_to_le_bytes(self as u32)
    }

    open spec fn un_bytes(u: [u8; 4]) -> Seq<u8> {
        u@
    }

    open spec fn from_ok(u: [u8; 4]) -> bool {
        true
    }

    proof fn lemma_as_bytes_len(self) {
        lemma_auto_spec_u32_to_from_le_bytes();
    }

    proof fn lemma_un_bytes_len(u: [u8; 4]) {
    }

    proof fn lemma_size_eq() {
    }

    proof fn lemma_as_bytes_inj(a: i32, b: i32) {
        lemma_auto_spec_u32_to_from_le_bytes();
        let au = a as u32;
        let bu = b as u32;
        assert(spec_u32_to_le_bytes(au).len() == 4);
        assert(spec_u32_to_le_bytes(bu).len() == 4);
        assert(vstd::bytes::spec_u32_from_le_bytes(spec_u32_to_le_bytes(au)) == au);
        assert(vstd::bytes::spec_u32_from_le_bytes(spec_u32_to_le_bytes(bu)) == bu);
        assert(a as u32 == b as u32 ==> a == b) by (bit_vector);
    }

    fn as_unaligned(&self) -> (u: [u8; 4])
    {
        let v = u32_to_le_bytes(*self as u32);
        let r = [v[0], v[1], v[2], v[3]];
        proof {
            lemma_auto_spec_u32_to_from_le_bytes();
            assert(r@ =~= spec_u32_to_le_bytes(*self as u32));
        }
        r
    }

    fn check_from(u: &[u8; 4]) -> bool {
        true
    }

    fn from_unaligned(u: [u8; 4]) -> (t: i32)
    {
        let x = u32_from_le_bytes(u.as_slice());
        let t = x as i32;
        proof {
            lemma_auto_spec_u32_to_from_le_bytes();
            assert(spec_u32_to_le_bytes(x) =~= u@);
            assert(x as i32 as u32 == x) by (bit_vector);
        }
        t
    }
}

impl Layout for u64 {
    open spec fn spec_align() -> nat {
        8
    }

    open spec fn spec_size() -> nat {
        8
    }

    proof fn align_facts() {
    }

    fn align_of() -> usize {
        8
    }

    fn size_of() -> usize {
        8
    }
}

impl Aligned for u64 {
    type Unaligned = [u8; 8];

    open spec fn as_bytes(self) -> Seq<u8> {
        spec_u64_to_le_bytes(self)
    }

    open spec fn un_bytes(u: [u8; 8]) -> Seq<u8> {
        u@
    }

    open spec fn from_ok(u: [u8; 8]) -> bool {
        true
    }

    proof fn lemma_as_bytes_len(self) {
        lemma_auto_spec_u64_to_from_le_bytes();
    }

    proof fn lemma_un_bytes_len(u: [u8; 8]) {
    }

    proof fn lemma_size_eq() {
    }

    proof fn lemma_as_bytes_inj(a: u64, b: u64) {
        lemma_auto_spec_u64_to_from_le_bytes();
        assert(spec_u64_to_le_bytes(a).len() == 8);
        assert(spec_u64_to_le_bytes(b).len() == 8);
        assert(vstd::bytes::spec_u64_from_le_bytes(spec_u64_to_le_bytes(a)) == a);
        assert(vstd::bytes::spec_u64_from_le_bytes(spec_u64_to_le_bytes(b)) == b);
    }

    fn as_unaligned(&self) -> (u: [u8; 8])
    {
        let v = u64_to_le_bytes(*self);
        let r = [v[0], v[1], v[2], v[3], v[4], v[5], v[6], v[7]];
        proof {
            lemma_auto_spec_u64_to_from_le_bytes();
            assert(r@ =~= spec_u64_to_le_bytes(*self));
        }
        r
    }

    fn check_from(u: &[u8; 8]) -> bool {
        true
    }

    fn from_unaligned(u: [u8; 8]) -> (t: u64)
    {
        let t = u64_from_le_bytes(u.as_slice());
        proof {
            lemma_auto_spec_u64_to_from_le_bytes();
            assert(spec_u64_to_le_bytes(t) =~= u@);
        }
        t
    }
}

impl Layout for i64 {
    open spec fn spec_align() -> nat {
        8
    }

    open spec fn spec_size() -> nat {
        8
    }

    proof fn align_facts() {
    }

    fn align_of() -> usize {
        8
    }

    fn size_of() -> usize {
        8
    }
}

impl Aligned for i64 {
    type Unaligned = [u8; 8];

    open spec fn as_bytes(self) -> Seq<u8> {
        spec_u64_to_le_bytes(self as u64)
    }

    open spec fn un_bytes(u: [u8; 8]) -> Seq<u8> {
        u@
    }

    open spec fn from_ok(u: [u8; 8]) -> bool {
        true
    }

    proof fn lemma_as_bytes_len(self) {
        lemma_auto_spec_u64_to_from_le_bytes();
    }

    proof fn lemma_un_bytes_len(u: [u8; 8]) {
    }

    proof fn lemma_size_eq() {
    }

    proof fn lemma_as_bytes_inj(a: i64, b: i64) {
        lemma_auto_spec_u64_to_from_le_bytes();
        let au = a as u64;
        let bu = b as u64;
        assert(spec_u64_to_le_bytes(au).len() == 8);
        assert(spec_u64_to_le_bytes(bu).len() == 8);
        assert(vstd::bytes::spec_u64_from_le_bytes(spec_u64_to_le_bytes(au)) == au);
        assert(vstd::bytes::spec_u64_from_le_bytes(spec_u64_to_le_bytes(bu)) == bu);
        assert(a as u64 == b as u64 ==> a == b) by (bit_vector);
    }

    fn as_unaligned(&self) -> (u: [u8; 8])
    {
        let v = u64_to_le_bytes(*self as u64);
        let r = [v[0], v[1], v[2], v[3], v[4], v[5], v[6], v[7]];
        proof {
            lemma_auto_spec_u64_to_from_le_bytes();
            assert(r@ =~= spec_u64_to_le_bytes(*self as u64));
        }
        r
    }

    fn check_from(u: &[u8; 8]) -> bool {
        true
    }

    fn from_unaligned(u: [u8; 8]) -> (t: i64)
    {
        let x = u64_from_le_bytes(u.as_slice());
        let t = x as i64;
        proof {
            lemma_auto_spec_u64_to_from_le_bytes();
            assert(spec_u64_to_le_bytes(x) =~= u@);
            assert(x as i64 as u64 == x) by (bit_vector);
        }
        t
    }
}

impl Layout for usize {
    open spec fn spec_align() -> nat {
        8
    }

    open spec fn spec_size() -> nat {
        8
    }

    proof fn align_facts() {
    }

    fn align_of() -> usize {
        8
    }

    fn size_of() -> usize {
        8
    }
}

/// The pointer-sized unsigned integer maps to an 8-byte array, the pointer
/// width this crate's model fixes. On a narrower target the representation
/// still holds every value losslessly; a representation whose value exceeds
/// the target's own range is rejected by [`Aligned::from_ok`] rather than
/// read back.
impl Aligned for usize {
    type Unaligned = [u8; 8];

    open spec fn as_bytes(self) -> Seq<u8> {
        spec_u64_to_le_bytes(self as u64)
    }

    open spec fn un_bytes(u: [u8; 8]) -> Seq<u8> {
        u@
    }

    open spec fn from_ok(u: [u8; 8]) -> bool {
        vstd::bytes::spec_u64_from_le_bytes(u@) <= usize::MAX as u64
    }

    proof fn lemma_as_bytes_len(self) {
        lemma_auto_spec_u64_to_from_le_bytes();
    }

    proof fn lemma_un_bytes_len(u: [u8; 8]) {
    }

    proof fn lemma_size_eq() {
    }

    proof fn lemma_as_bytes_inj(a: usize, b: usize) {
        lemma_auto_spec_u64_to_from_le_bytes();
        let au = a as u64;
        let bu = b as u64;
        assert(spec_u64_to_le_bytes(au).len() == 8);
        assert(spec_u64_to_le_bytes(bu).len() == 8);
        assert(vstd::bytes::spec_u64_from_le_bytes(spec_u64_to_le_bytes(au)) == au);
        assert(vstd::bytes::spec_u64_from_le_bytes(spec_u64_to_le_bytes(bu)) == bu);
    }

    fn as_unaligned(&self) -> (u: [u8; 8])
    {
        let v = u64_to_le_bytes(*self as u64);
        let r = [v[0], v[1], v[2], v[3], v[4], v[5], v[6], v[7]];
        proof {
            lemma_auto_spec_u64_to_from_le_bytes();
            assert(r@ =~= spec_u64_to_le_bytes(*self as u64));
        }
        r
    }

    fn check_from(u: &[u8; 8]) -> bool {
        let x = u64_from_le_bytes(u.as_slice());
        x <= usize::MAX as u64
    }

    fn from_unaligned(u: [u8; 8]) -> (t: usize)
    {
        let x = u64_from_le_bytes(u.as_slice());
        let t = x as usize;
        proof {
            lemma_auto_spec_u64_to_from_le_bytes();
            assert(spec_u64_to_le_bytes(x) =~= u@);
            assert(t as u64 == x);
        }
        t
    }
}

impl Layout for isize {
    open spec fn spec_align() -> nat {
        8
    }

    open spec fn spec_size() -> nat {
        8
    }

    proof fn align_facts() {
    }

    fn align_of() -> usize {
        8
    }

    fn size_of() -> usize {
        8
    }
}

/// The pointer-sized signed integer maps to an 8-byte array, as
/// [`usize`](#impl-Aligned-for-usize) does; a representation whose value the
/// target's own range cannot hold is rejected by [`Aligned::from_ok`].
impl Aligned for isize {
    type Unaligned = [u8; 8];

    open spec fn as_bytes(self) -> Seq<u8> {
        spec_u64_to_le_bytes(self as i64 as u64)
    }

    open spec fn un_bytes(u: [u8; 8]) -> Seq<u8> {
        u@
    }

    open spec fn from_ok(u: [u8; 8]) -> bool {
        isize::MIN as int <= vstd::bytes::spec_u64_from_le_bytes(u@) as i64 as int <= isize::MAX as int
    }

    proof fn lemma_as_bytes_len(self) {
        lemma_auto_spec_u64_to_from_le_bytes();
    }

    proof fn lemma_un_bytes_len(u: [u8; 8]) {
    }

    proof fn lemma_size_eq() {
    }

    proof fn lemma_as_bytes_inj(a: isize, b: isize) {
        lemma_auto_spec_u64_to_from_le_bytes();
        let au = a as i64 as u64;
        let bu = b as i64 as u64;
        assert(spec_u64_to_le_bytes(au).len() == 8);
        assert(spec_u64_to_le_bytes(bu).len() == 8);
        assert(vstd::bytes::spec_u64_from_le_bytes(spec_u64_to_le_bytes(au)) == au);
        assert(vstd::bytes::spec_u64_from_le_bytes(spec_u64_to_le_bytes(bu)) == bu);
        let ai = a as i64;
        let bi = b as i64;
        assert(ai as u64 == bi as u64 ==> ai == bi) by (bit_vector);
    }

    fn as_unaligned(&self) -> (u: [u8; 8])
    {
        let v = u64_to_le_bytes(*self as i64 as u64);
        let r = [v[0], v[1], v[2], v[3], v[4], v[5], v[6], v[7]];
        proof {
            lemma_auto_spec_u64_to_from_le_bytes();
            assert(r@ =~= spec_u64_to_le_bytes(*self as i64 as u64));
            let y = *self as i64;
            assert(spec_u64_to_le_bytes(y as u64).len() == 8);
            assert(vstd::bytes::spec_u64_from_le_bytes(spec_u64_to_le_bytes(y as u64)) == y as u64);
            assert(y as u64 as i64 == y) by (bit_vector);
        }
        r
    }

    fn check_from(u: &[u8; 8]) -> bool {
        let x = u64_from_le_bytes(u.as_slice());
        let xi = x as i64;
        isize::MIN as i64 <= xi && xi <= isize::MAX as i64
    }

    fn from_unaligned(u: [u8; 8]) -> (t: isize)
    {
        let x = u64_from_le_bytes(u.as_slice());
        let xi = x as i64;
        let t = xi as isize;
        proof {
            lemma_auto_spec_u64_to_from_le_bytes();
            assert(spec_u64_to_le_bytes(x) =~= u@);
            assert(t as i64 == xi);
            assert(x as i64 as u64 == x) by (bit_vector);
        }
        t
    }
}

/// Relies on char::from_u32: it returns the character with the given code
/// point exactly when the code point is a Unicode scalar value, that is,
/// neither a surrogate nor above the character range.
pub assume_specification[ char::from_u32 ](v: u32) -> (r: Option<char>)
    ensures
        (r is Some) <==> (v < 0xD800 || (0xE000 <= v && v <= 0x10FFFF)),
        (r is Some) ==> (r->0) as u32 == v,
;

impl Layout for char {
    open spec fn spec_align() -> nat {
        4
    }

    open spec fn spec_size() -> nat {
        4
    }

    proof fn align_facts() {
    }

    fn align_of() -> usize {
        4
    }

    fn size_of() -> usize {
        4
    }
}

/// The 4-byte character code maps to a 4-byte array. Not every 4-byte
/// pattern is a Unicode scalar value: the ones that are none are rejected by
/// [`Aligned::from_ok`] rather than read back.
impl Aligned for char {
    type Unaligned = [u8; 4];

    open spec fn as_bytes(self) -> Seq<u8> {
        spec_u32_to_le_bytes(self as u32)
    }

    open spec fn un_bytes(u: [u8; 4]) -> Seq<u8> {
        u@
    }

    open spec fn from_ok(u: [u8; 4]) -> bool {
        let v = vstd::bytes::spec_u32_from_le_bytes(u@);
        v < 0xD800 || (0xE000 <= v && v <= 0x10FFFF)
    }

    proof fn lemma_as_bytes_len(self) {
        lemma_auto_spec_u32_to_from_le_bytes();
    }

    proof fn lemma_un_bytes_len(u: [u8; 4]) {
    }

    proof fn lemma_size_eq() {
    }

    proof fn lemma_as_bytes_inj(a: char, b: char) {
        lemma_auto_spec_u32_to_from_le_bytes();
        let au = a as u32;
        let bu = b as u32;
        vstd::utf8::char_u32_cast(a, au);
        vstd::utf8::char_u32_cast(b, bu);
        assert(spec_u32_to_le_bytes(au).len() == 4);
        assert(spec_u32_to_le_bytes(bu).len() == 4);
        assert(vstd::bytes::spec_u32_from_le_bytes(spec_u32_to_le_bytes(au)) == au);
        assert(vstd::bytes::spec_u32_from_le_bytes(spec_u32_to_le_bytes(bu)) == bu);
    }

    fn as_unaligned(&self) -> (u: [u8; 4])
    {
        let c = *self as u32;
        let v = u32_to_le_bytes(c);
        let r = [v[0], v[1], v[2], v[3]];
        proof {
            lemma_auto_spec_u32_to_from_le_bytes();
            assert(r@ =~= spec_u32_to_le_bytes(c));
            assert(spec_u32_to_le_bytes(c).len() == 4);
            assert(vstd::bytes::spec_u32_from_le_bytes(spec_u32_to_le_bytes(c)) == c);
            vstd::utf8::char_is_scalar(*self);
            assert(c < 0xD800 || (0xE000 <= c && c <= 0x10FFFF));
        }
        r
    }

    fn check_from(u: &[u8; 4]) -> bool {
        let v = u32_from_le_bytes(u.as_slice());
        v < 0xD800 || (0xE000 <= v && v <= 0x10FFFF)
    }

    fn from_unaligned(u: [u8; 4]) -> (t: char)
    {
        let v = u32_from_le_bytes(u.as_slice());
        proof {
            lemma_auto_spec_u32_to_from_le_bytes();
            assert(spec_u32_to_le_bytes(v) =~= u@);
        }
        if let Some(c) = char::from_u32(v) {
            c
        } else {
            vstd::pervasive::unreached()
        }
    }
}

/// The bit pattern of a 4-byte IEEE 754 floating-point value, held as its
/// raw bits. A caller owning such a value moves it in and out through the
/// bit pattern, so the conversions stay within the fixed-width integers.
#[derive(Clone, Copy, PartialEq, Eq, Structural, Debug)]
pub struct F32Bits {
    /// The raw bit pattern.
    pub bits: u32,
}

/// The bit pattern of an 8-byte IEEE 754 floating-point value, held as its
/// raw bits.
#[derive(Clone, Copy, PartialEq, Eq, Structural, Debug)]
pub struct F64Bits {
    /// The raw bit pattern.
    pub bits: u64,
}

impl Layout for F32Bits {
    open spec fn spec_align() -> nat {
        4
    }

    open spec fn spec_size() -> nat {
        4
    }

    proof fn align_facts() {
    }

    fn align_of() -> usize {
        4
    }

    fn size_of() -> usize {
        4
    }
}

impl Aligned for F32Bits {
    type Unaligned = [u8; 4];

    open spec fn as_bytes(self) -> Seq<u8> {
        spec_u32_to_le_bytes(self.bits)
    }

    open spec fn un_bytes(u: [u8; 4]) -> Seq<u8> {
        u@
    }

    open spec fn from_ok(u: [u8; 4]) -> bool {
        true
    }

    proof fn lemma_as_bytes_len(self) {
        lemma_auto_spec_u32_to_from_le_bytes();
    }

    proof fn lemma_un_bytes_len(u: [u8; 4]) {
    }

    proof fn lemma_size_eq() {
    }

    proof fn lemma_as_bytes_inj(a: F32Bits, b: F32Bits) {
        lemma_auto_spec_u32_to_from_le_bytes();
        assert(spec_u32_to_le_bytes(a.bits).len() == 4);
        assert(spec_u32_to_le_bytes(b.bits).len() == 4);
        assert(vstd::bytes::spec_u32_from_le_bytes(spec_u32_to_le_bytes(a.bits)) == a.bits);
        assert(vstd::bytes::spec_u32_from_le_bytes(spec_u32_to_le_bytes(b.bits)) == b.bits);
    }

    fn as_unaligned(&self) -> (u: [u8; 4])
    {
        let v = u32_to_le_bytes(self.bits);
        let r = [v[0], v[1], v[2], v[3]];
        proof {
            lemma_auto_spec_u32_to_from_le_bytes();
            assert(r@ =~= spec_u32_to_le_bytes(self.bits));
        }
        r
    }

    fn check_from(u: &[u8; 4]) -> bool {
        true
    }

    fn from_unaligned(u: [u8; 4]) -> (t: F32Bits)
    {
        let x = u32_from_le_bytes(u.as_slice());
        proof {
            lemma_auto_spec_u32_to_from_le_bytes();
            assert(spec_u32_to_le_bytes(x) =~= u@);
        }
        F32Bits { bits: x }
    }
}

impl Layout for F64Bits {
    open spec fn spec_align() -> nat {
        8
    }

    open spec fn spec_size() -> nat {
        8
    }

    proof fn align_facts() {
    }

    fn align_of() -> usize {
        8
    }

    fn size_of() -> usize {
        8
    }
}

impl Aligned for F64Bits {
    type Unaligned = [u8; 8];

    open spec fn as_bytes(self) -> Seq<u8> {
        spec_u64_to_le_bytes(self.bits)
    }

    open spec fn un_bytes(u: [u8; 8]) -> Seq<u8> {
        u@
    }

    open spec fn from_ok(u: [u8; 8]) -> bool {
        true
    }

    proof fn lemma_as_bytes_len(self) {
        lemma_auto_spec_u64_to_from_le_bytes();
    }

    proof fn lemma_un_bytes_len(u: [u8; 8]) {
    }

    proof fn lemma_size_eq() {
    }

    proof fn lemma_as_bytes_inj(a: F64Bits, b: F64Bits) {
        lemma_auto_spec_u64_to_from_le_bytes();
        assert(spec_u64_to_le_bytes(a.bits).len() == 8);
        assert(spec_u64_to_le_bytes(b.bits).len() == 8);
        assert(vstd::bytes::spec_u64_from_le_bytes(spec_u64_to_le_bytes(a.bits)) == a.bits);
        assert(vstd::bytes::spec_u64_from_le_bytes(spec_u64_to_le_bytes(b.bits)) == b.bits);
    }

    fn as_unaligned(&self) -> (u: [u8; 8])
    {
        let v = u64_to_le_bytes(self.bits);
        let r = [v[0], v[1], v[2], v[3], v[4], v[5], v[6], v[7]];
        proof {
            lemma_auto_spec_u64_to_from_le_bytes();
            assert(r@ =~= spec_u64_to_le_bytes(self.bits));
        }
        r
    }

    fn check_from(u: &[u8; 8]) -> bool {
        true
    }

    fn from_unaligned(u: [u8; 8]) -> (t: F64Bits)
    {
        let x = u64_from_le_bytes(u.as_slice());
        proof {
            lemma_auto_spec_u64_to_from_le_bytes();
            assert(spec_u64_to_le_bytes(x) =~= u@);
        }
        F64Bits { bits: x }
    }
}

} // verus!
