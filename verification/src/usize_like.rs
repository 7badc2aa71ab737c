//! Provides [`UsizeLike`], a newtype for values that can be converted to and
//! from `usize` losslessly, which derives [`Ix`] from that conversion alone.
use vstd::prelude::*;

use crate::Ix;

verus! {

/// A capability pair lifting a type into [`UsizeLike`]: each value stands
/// for one machine word, the conversion loses nothing in either direction,
/// and the words the type's values stand for form a contiguous block.
pub trait UsizeConvert: Sized + Copy {
    /// The machine word this value stands for.
    spec fn word(self) -> usize;

    /// Convert the value to its machine word.
    fn to_word(self) -> (w: usize)
        ensures
            w == self.word(),
    ;

    /// Convert a machine word back to the value standing for it, defined for
    /// every word that some value of the type stands for.
    fn of_word(w: usize) -> (r: Self)
        requires
            exists|v: Self| v.word() == w,
        ensures
            r.word() == w,
    ;

    /// No two values stand for the same word, so converting a value to its
    /// word and back yields the value again.
    proof fn lemma_word_injective(a: Self, b: Self)
        requires
            a.word() == b.word(),
        ensures
            a == b,
    ;

    /// Every word between two inhabited words is inhabited.
    proof fn lemma_words_contiguous(lo: Self, hi: Self, w: usize)
        requires
            lo.word() <= w <= hi.word(),
        ensures
            exists|v: Self| v.word() == w,
    ;
}

/// A newtype for values that can be converted to and from `usize`
/// losslessly.  Wrapping a [`UsizeConvert`] type in it yields full [`Ix`]
/// conformance with no further code: membership, positions and sizes are
/// computed on the machine words, and the enumeration converts each word
/// back to a value, lazily, one at a time.
#[derive(Clone, Copy)]
pub struct UsizeLike<T>(pub T);

impl<T: UsizeConvert> Ix for UsizeLike<T> {
    open spec fn ordinal(self) -> int {
        self.0.word() as int
    }

    open spec fn from_ord(o: int) -> Self {
        choose|v: UsizeLike<T>| v.ordinal() == o
    }

    proof fn lemma_ord_roundtrip(self) {
        let o = self.ordinal();
        assert(exists|v: UsizeLike<T>| v.ordinal() == o) by {
            let w: UsizeLike<T> = self;
            assert(w.ordinal() == o);
        }
        let c = Self::from_ord(o);
        assert(c.ordinal() == o);
        assert(c.0.word() == self.0.word());
        T::lemma_word_injective(c.0, self.0);
        assert(c == self);
    }

    proof fn lemma_ord_contiguous(lo: Self, hi: Self, o: int) {
        T::lemma_words_contiguous(lo.0, hi.0, o as usize);
        let t = choose|v: T| v.word() == o as usize;
        assert(UsizeLike(t).ordinal() == o);
        assert(exists|v: UsizeLike<T>| v.ordinal() == o);
    }

    fn le(self, other: Self) -> bool {
        self.0.to_word() <= other.0.to_word()
    }

    fn successor(self) -> Self {
        let w: usize = self.0.to_word();
        proof {
            let b = choose|b: UsizeLike<T>| self.ordinal() < b.ordinal();
            assert(w < usize::MAX);
            T::lemma_words_contiguous(self.0, b.0, (w + 1) as usize);
        }
        UsizeLike(T::of_word(w + 1))
    }

    fn in_range(self, min: Self, max: Self) -> bool {
        let w: usize = self.0.to_word();
        min.0.to_word() <= w && w <= max.0.to_word()
    }

    fn index_checked(self, min: Self, max: Self) -> Option<usize> {
        Some(self.0.to_word() - min.0.to_word())
    }

    fn range_size_checked(min: Self, max: Self) -> Option<usize> {
        let d: usize = max.0.to_word() - min.0.to_word();
        if d < usize::MAX {
            Some(d + 1)
        } else {
            None
        }
    }
}

impl UsizeConvert for usize {
    open spec fn word(self) -> usize {
        self
    }

    fn to_word(self) -> usize {
        self
    }

    fn of_word(w: usize) -> Self {
        w
    }

    proof fn lemma_word_injective(a: Self, b: Self) {
    }

    proof fn lemma_words_contiguous(lo: Self, hi: Self, w: usize) {
        assert(w.word() == w);
    }
}

impl UsizeConvert for u8 {
    open spec fn word(self) -> usize {
        self as usize
    }

    fn to_word(self) -> usize {
        self as usize
    }

    fn of_word(w: usize) -> Self {
        proof {
            let v = choose|v: u8| v.word() == w;
            assert(w <= 255);
        }
        w as u8
    }

    proof fn lemma_word_injective(a: Self, b: Self) {
    }

    proof fn lemma_words_contiguous(lo: Self, hi: Self, w: usize) {
        assert((w as u8).word() == w);
    }
}

} // verus!
