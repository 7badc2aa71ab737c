//! [`Ix`] conformance for the fixed-width integer types.
//!
//! Every implementation embeds its values in the mathematical integers as
//! themselves, computes positions as `value - min` and sizes as
//! `max - min + 1` exactly (the subtraction is widened to 128 bits, or split
//! on the sign for 128-bit operands, so that it never wraps), and reports
//! the result only when it fits in a `usize`.
use vstd::prelude::*;

use crate::Ix;

verus! {

impl Ix for u8 {
    open spec fn ordinal(self) -> int {
        self as int
    }

    open spec fn from_ord(o: int) -> Self {
        o as u8
    }

    proof fn lemma_ord_roundtrip(self) {
    }

    proof fn lemma_ord_contiguous(lo: Self, hi: Self, o: int) {
    }

    fn le(self, other: Self) -> bool {
        self <= other
    }

    fn successor(self) -> Self {
        proof {
            let b = choose|b: u8| self.ordinal() < b.ordinal();
            assert(self < u8::MAX);
        }
        self + 1
    }

    fn in_range(self, min: Self, max: Self) -> bool {
        min <= self && self <= max
    }

    fn index_checked(self, min: Self, max: Self) -> Option<usize> {
        let d: u128 = self as u128 - min as u128;
        if d <= usize::MAX as u128 {
            Some(d as usize)
        } else {
            None
        }
    }

    fn range_size_checked(min: Self, max: Self) -> Option<usize> {
        let d: u128 = max as u128 - min as u128;
        if d < usize::MAX as u128 {
            Some(d as usize + 1)
        } else {
            None
        }
    }
}

impl Ix for u16 {
    open spec fn ordinal(self) -> int {
        self as int
    }

    open spec fn from_ord(o: int) -> Self {
        o as u16
    }

    proof fn lemma_ord_roundtrip(self) {
    }

    proof fn lemma_ord_contiguous(lo: Self, hi: Self, o: int) {
    }

    fn le(self, other: Self) -> bool {
        self <= other
    }

    fn successor(self) -> Self {
        proof {
            let b = choose|b: u16| self.ordinal() < b.ordinal();
            assert(self < u16::MAX);
        }
        self + 1
    }

    fn in_range(self, min: Self, max: Self) -> bool {
        min <= self && self <= max
    }

    fn index_checked(self, min: Self, max: Self) -> Option<usize> {
        let d: u128 = self as u128 - min as u128;
        if d <= usize::MAX as u128 {
            Some(d as usize)
        } else {
            None
        }
    }

    fn range_size_checked(min: Self, max: Self) -> Option<usize> {
        let d: u128 = max as u128 - min as u128;
        if d < usize::MAX as u128 {
            Some(d as usize + 1)
        } else {
            None
        }
    }
}

impl Ix for u32 {
    open spec fn ordinal(self) -> int {
        self as int
    }

    open spec fn from_ord(o: int) -> Self {
        o as u32
    }

    proof fn lemma_ord_roundtrip(self) {
    }

    proof fn lemma_ord_contiguous(lo: Self, hi: Self, o: int) {
    }

    fn le(self, other: Self) -> bool {
        self <= other
    }

    fn successor(self) -> Self {
        proof {
            let b = choose|b: u32| self.ordinal() < b.ordinal();
            assert(self < u32::MAX);
        }
        self + 1
    }

    fn in_range(self, min: Self, max: Self) -> bool {
        min <= self && self <= max
    }

    fn index_checked(self, min: Self, max: Self) -> Option<usize> {
        let d: u128 = self as u128 - min as u128;
        if d <= usize::MAX as u128 {
            Some(d as usize)
        } else {
            None
        }
    }

    fn range_size_checked(min: Self, max: Self) -> Option<usize> {
        let d: u128 = max as u128 - min as u128;
        if d < usize::MAX as u128 {
            Some(d as usize + 1)
        } else {
            None
        }
    }
}

impl Ix for u64 {
    open spec fn ordinal(self) -> int {
        self as int
    }

    open spec fn from_ord(o: int) -> Self {
        o as u64
    }

    proof fn lemma_ord_roundtrip(self) {
    }

    proof fn lemma_ord_contiguous(lo: Self, hi: Self, o: int) {
    }

    fn le(self, other: Self) -> bool {
        self <= other
    }

    fn successor(self) -> Self {
        proof {
            let b = choose|b: u64| self.ordinal() < b.ordinal();
            assert(self < u64::MAX);
        }
        self + 1
    }

    fn in_range(self, min: Self, max: Self) -> bool {
        min <= self && self <= max
    }

    fn index_checked(self, min: Self, max: Self) -> Option<usize> {
        let d: u128 = self as u128 - min as u128;
        if d <= usize::MAX as u128 {
            Some(d as usize)
        } else {
            None
        }
    }

    fn range_size_checked(min: Self, max: Self) -> Option<usize> {
        let d: u128 = max as u128 - min as u128;
        if d < usize::MAX as u128 {
            Some(d as usize + 1)
        } else {
            None
        }
    }
}

impl Ix for u128 {
    open spec fn ordinal(self) -> int {
        self as int
    }

    open spec fn from_ord(o: int) -> Self {
        o as u128
    }

    proof fn lemma_ord_roundtrip(self) {
    }

    proof fn lemma_ord_contiguous(lo: Self, hi: Self, o: int) {
    }

    fn le(self, other: Self) -> bool {
        self <= other
    }

    fn successor(self) -> Self {
        proof {
            let b = choose|b: u128| self.ordinal() < b.ordinal();
            assert(self < u128::MAX);
        }
        self + 1
    }

    fn in_range(self, min: Self, max: Self) -> bool {
        min <= self && self <= max
    }

    fn index_checked(self, min: Self, max: Self) -> Option<usize> {
        let d: u128 = self - min;
        if d <= usize::MAX as u128 {
            Some(d as usize)
        } else {
            None
        }
    }

    fn range_size_checked(min: Self, max: Self) -> Option<usize> {
        let d: u128 = max - min;
        if d < usize::MAX as u128 {
            Some(d as usize + 1)
        } else {
            None
        }
    }
}

impl Ix for usize {
    open spec fn ordinal(self) -> int {
        self as int
    }

    open spec fn from_ord(o: int) -> Self {
        o as usize
    }

    proof fn lemma_ord_roundtrip(self) {
    }

    proof fn lemma_ord_contiguous(lo: Self, hi: Self, o: int) {
    }

    fn le(self, other: Self) -> bool {
        self <= other
    }

    fn successor(self) -> Self {
        proof {
            let b = choose|b: usize| self.ordinal() < b.ordinal();
            assert(self < usize::MAX);
        }
        self + 1
    }

    fn in_range(self, min: Self, max: Self) -> bool {
        min <= self && self <= max
    }

    fn index_checked(self, min: Self, max: Self) -> Option<usize> {
        Some(self - min)
    }

    fn range_size_checked(min: Self, max: Self) -> Option<usize> {
        let d: usize = max - min;
        if d < usize::MAX {
            Some(d + 1)
        } else {
            None
        }
    }
}

impl Ix for i8 {
    open spec fn ordinal(self) -> int {
        self as int
    }

    open spec fn from_ord(o: int) -> Self {
        o as i8
    }

    proof fn lemma_ord_roundtrip(self) {
    }

    proof fn lemma_ord_contiguous(lo: Self, hi: Self, o: int) {
    }

    fn le(self, other: Self) -> bool {
        self <= other
    }

    fn successor(self) -> Self {
        proof {
            let b = choose|b: i8| self.ordinal() < b.ordinal();
            assert(self < i8::MAX);
        }
        self + 1
    }

    fn in_range(self, min: Self, max: Self) -> bool {
        min <= self && self <= max
    }

    fn index_checked(self, min: Self, max: Self) -> Option<usize> {
        let d: i128 = self as i128 - min as i128;
        if d <= usize::MAX as i128 {
            Some(d as usize)
        } else {
            None
        }
    }

    fn range_size_checked(min: Self, max: Self) -> Option<usize> {
        let d: i128 = max as i128 - min as i128;
        if d < usize::MAX as i128 {
            Some(d as usize + 1)
        } else {
            None
        }
    }
}

impl Ix for i16 {
    open spec fn ordinal(self) -> int {
        self as int
    }

    open spec fn from_ord(o: int) -> Self {
        o as i16
    }

    proof fn lemma_ord_roundtrip(self) {
    }

    proof fn lemma_ord_contiguous(lo: Self, hi: Self, o: int) {
    }

    fn le(self, other: Self) -> bool {
        self <= other
    }

    fn successor(self) -> Self {
        proof {
            let b = choose|b: i16| self.ordinal() < b.ordinal();
            assert(self < i16::MAX);
        }
        self + 1
    }

    fn in_range(self, min: Self, max: Self) -> bool {
        min <= self && self <= max
    }

    fn index_checked(self, min: Self, max: Self) -> Option<usize> {
        let d: i128 = self as i128 - min as i128;
        if d <= usize::MAX as i128 {
            Some(d as usize)
        } else {
            None
        }
    }

    fn range_size_checked(min: Self, max: Self) -> Option<usize> {
        let d: i128 = max as i128 - min as i128;
        if d < usize::MAX as i128 {
            Some(d as usize + 1)
        } else {
            None
        }
    }
}

impl Ix for i32 {
    open spec fn ordinal(self) -> int {
        self as int
    }

    open spec fn from_ord(o: int) -> Self {
        o as i32
    }

    proof fn lemma_ord_roundtrip(self) {
    }

    proof fn lemma_ord_contiguous(lo: Self, hi: Self, o: int) {
    }

    fn le(self, other: Self) -> bool {
        self <= other
    }

    fn successor(self) -> Self {
        proof {
            let b = choose|b: i32| self.ordinal() < b.ordinal();
            assert(self < i32::MAX);
        }
        self + 1
    }

    fn in_range(self, min: Self, max: Self) -> bool {
        min <= self && self <= max
    }

    fn index_checked(self, min: Self, max: Self) -> Option<usize> {
        let d: i128 = self as i128 - min as i128;
        if d <= usize::MAX as i128 {
            Some(d as usize)
        } else {
            None
        }
    }

    fn range_size_checked(min: Self, max: Self) -> Option<usize> {
        let d: i128 = max as i128 - min as i128;
        if d < usize::MAX as i128 {
            Some(d as usize + 1)
        } else {
            None
        }
    }
}

impl Ix for i64 {
    open spec fn ordinal(self) -> int {
        self as int
    }

    open spec fn from_ord(o: int) -> Self {
        o as i64
    }

    proof fn lemma_ord_roundtrip(self) {
    }

    proof fn lemma_ord_contiguous(lo: Self, hi: Self, o: int) {
    }

    fn le(self, other: Self) -> bool {
        self <= other
    }

    fn successor(self) -> Self {
        proof {
            let b = choose|b: i64| self.ordinal() < b.ordinal();
            assert(self < i64::MAX);
        }
        self + 1
    }

    fn in_range(self, min: Self, max: Self) -> bool {
        min <= self && self <= max
    }

    fn index_checked(self, min: Self, max: Self) -> Option<usize> {
        let d: i128 = self as i128 - min as i128;
        if d <= usize::MAX as i128 {
            Some(d as usize)
        } else {
            None
        }
    }

    fn range_size_checked(min: Self, max: Self) -> Option<usize> {
        let d: i128 = max as i128 - min as i128;
        if d < usize::MAX as i128 {
            Some(d as usize + 1)
        } else {
            None
        }
    }
}

impl Ix for i128 {
    open spec fn ordinal(self) -> int {
        self as int
    }

    open spec fn from_ord(o: int) -> Self {
        o as i128
    }

    proof fn lemma_ord_roundtrip(self) {
    }

    proof fn lemma_ord_contiguous(lo: Self, hi: Self, o: int) {
    }

    fn le(self, other: Self) -> bool {
        self <= other
    }

    fn successor(self) -> Self {
        proof {
            let b = choose|b: i128| self.ordinal() < b.ordinal();
            assert(self < i128::MAX);
        }
        self + 1
    }

    fn in_range(self, min: Self, max: Self) -> bool {
        min <= self && self <= max
    }

    fn index_checked(self, min: Self, max: Self) -> Option<usize> {
        let d: u128 = if min < 0 && self >= 0 {
            (self as u128) + ((-1 - min) as u128) + 1
        } else {
            (self - min) as u128
        };
        if d <= usize::MAX as u128 {
            Some(d as usize)
        } else {
            None
        }
    }

    fn range_size_checked(min: Self, max: Self) -> Option<usize> {
        let d: u128 = if min < 0 && max >= 0 {
            (max as u128) + ((-1 - min) as u128) + 1
        } else {
            (max - min) as u128
        };
        if d < usize::MAX as u128 {
            Some(d as usize + 1)
        } else {
            None
        }
    }
}

impl Ix for isize {
    open spec fn ordinal(self) -> int {
        self as int
    }

    open spec fn from_ord(o: int) -> Self {
        o as isize
    }

    proof fn lemma_ord_roundtrip(self) {
    }

    proof fn lemma_ord_contiguous(lo: Self, hi: Self, o: int) {
    }

    fn le(self, other: Self) -> bool {
        self <= other
    }

    fn successor(self) -> Self {
        proof {
            let b = choose|b: isize| self.ordinal() < b.ordinal();
            assert(self < isize::MAX);
        }
        self + 1
    }

    fn in_range(self, min: Self, max: Self) -> bool {
        min <= self && self <= max
    }

    fn index_checked(self, min: Self, max: Self) -> Option<usize> {
        let d: i128 = self as i128 - min as i128;
        if d <= usize::MAX as i128 {
            Some(d as usize)
        } else {
            None
        }
    }

    fn range_size_checked(min: Self, max: Self) -> Option<usize> {
        let d: i128 = max as i128 - min as i128;
        if d < usize::MAX as i128 {
            Some(d as usize + 1)
        } else {
            None
        }
    }
}

} // verus!
