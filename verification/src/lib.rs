//! Range indexing for ordinal types.
//!
//! The [`Ix`] trait treats the values of a type as addressable positions
//! inside an inclusive range `[min, max]`: it answers whether a value lies in
//! the range, at which zero-based offset it sits, and how many values the
//! range holds, and it enumerates the range's values in ascending order, one
//! at a time, through [`IxRange`].
use vstd::prelude::*;

pub mod numeric;
pub mod usize_like;

verus! {

/// A trait for values that permit contiguous subranges.
///
/// The specification views every conforming type as a set of values embedded
/// in the mathematical integers by [`Ix::ordinal`]: distinct values have
/// distinct ordinals, and every integer between two ordinals is the ordinal
/// of some value.  A range `[min, max]` then consists of the values whose
/// ordinals lie between `min.ordinal()` and `max.ordinal()`, enumerated in
/// ascending order by [`range_seq`].
pub trait Ix: Sized + Copy {
    /// The value's position in the type's total order.
    spec fn ordinal(self) -> int;

    /// The value sitting at a given ordinal (meaningful only for an ordinal
    /// that some value of the type has).
    spec fn from_ord(o: int) -> Self;

    /// Taking a value's ordinal and going back yields the value again, so
    /// `ordinal` is injective.
    proof fn lemma_ord_roundtrip(self)
        ensures
            Self::from_ord(self.ordinal()) == self,
    ;

    /// Every integer between two ordinals is itself the ordinal of a value:
    /// the type's values are contiguous.
    proof fn lemma_ord_contiguous(lo: Self, hi: Self, o: int)
        requires
            lo.ordinal() <= o <= hi.ordinal(),
        ensures
            Self::from_ord(o).ordinal() == o,
    ;

    /// Order test backing the enumeration: `self` at or below `other`.
    fn le(self, other: Self) -> (r: bool)
        ensures
            r == (self.ordinal() <= other.ordinal()),
    ;

    /// The next value up, defined whenever some larger value exists.
    fn successor(self) -> (r: Self)
        requires
            exists|b: Self| self.ordinal() < b.ordinal(),
        ensures
            r.ordinal() == self.ordinal() + 1,
    ;

    /// Check if a given value is inside a range.
    fn in_range(self, min: Self, max: Self) -> (r: bool)
        requires
            min.ordinal() <= max.ordinal(),
        ensures
            r == (min.ordinal() <= self.ordinal() && self.ordinal() <= max.ordinal()),
    ;

    /// Get the position of a value inside a range, or `None` if that
    /// position does not fit in a `usize`.  Checked version of [`Ix::index`].
    fn index_checked(self, min: Self, max: Self) -> (r: Option<usize>)
        requires
            min.ordinal() <= max.ordinal(),
            min.ordinal() <= self.ordinal() && self.ordinal() <= max.ordinal(),
        ensures
            self.ordinal() - min.ordinal() <= usize::MAX as int ==> r == Some(
                (self.ordinal() - min.ordinal()) as usize,
            ),
            self.ordinal() - min.ordinal() > usize::MAX as int ==> r is None,
    ;

    /// Get the position of a value inside a range.
    fn index(self, min: Self, max: Self) -> (r: usize)
        requires
            min.ordinal() <= max.ordinal(),
            min.ordinal() <= self.ordinal() && self.ordinal() <= max.ordinal(),
            self.ordinal() - min.ordinal() <= usize::MAX as int,
        ensures
            r as int == self.ordinal() - min.ordinal(),
    {
        self.index_checked(min, max).unwrap()
    }

    /// Get the length of a range, or `None` if that length does not fit in a
    /// `usize`.  Checked version of [`Ix::range_size`].
    fn range_size_checked(min: Self, max: Self) -> (r: Option<usize>)
        requires
            min.ordinal() <= max.ordinal(),
        ensures
            max.ordinal() - min.ordinal() + 1 <= usize::MAX as int ==> r == Some(
                (max.ordinal() - min.ordinal() + 1) as usize,
            ),
            max.ordinal() - min.ordinal() + 1 > usize::MAX as int ==> r is None,
    ;

    /// Get the length of a range.
    fn range_size(min: Self, max: Self) -> (r: usize)
        requires
            min.ordinal() <= max.ordinal(),
            max.ordinal() - min.ordinal() + 1 <= usize::MAX as int,
        ensures
            r as int == max.ordinal() - min.ordinal() + 1,
    {
        Ix::range_size_checked(min, max).unwrap()
    }

    /// Generate an iterator over a range starting from `min` and stopping at
    /// `max`.  The iterator produces every value of the range, `min` and
    /// `max` included, in ascending order; it is well-formed, and the values
    /// it has yet to produce are exactly `range_seq(min, max)`.
    fn range(min: Self, max: Self) -> (r: IxRange<Self>)
        requires
            min.ordinal() <= max.ordinal(),
        ensures
            r.cur == min,
            r.last == max,
            !r.done,
    {
        IxRange { cur: min, last: max, done: false }
    }
}

/// The ascending sequence of the values of `[min, max]`: the value with
/// ordinal `min.ordinal() + i` sits at offset `i`.
pub open spec fn range_seq<T: Ix>(min: T, max: T) -> Seq<T> {
    if min.ordinal() <= max.ordinal() {
        Seq::new((max.ordinal() - min.ordinal() + 1) as nat, |i: int| T::from_ord(min.ordinal() + i))
    } else {
        Seq::empty()
    }
}

/// A streaming iterator over the values of an inclusive range, in ascending
/// order.  Restartable by asking [`Ix::range`] for a fresh one.
pub struct IxRange<T> {
    /// The value the next call of [`IxRange::next`] produces.
    pub cur: T,
    /// The last value of the range, produced just before the end.
    pub last: T,
    /// Whether the enumeration has run past `last`.
    pub done: bool,
}

impl<T: Ix> IxRange<T> {
    /// The iterator never stands below its upper end while it still runs.
    pub open spec fn wf(self) -> bool {
        !self.done ==> self.cur.ordinal() <= self.last.ordinal()
    }

    /// The values the iterator has yet to produce, in order.
    pub open spec fn to_seq(self) -> Seq<T> {
        if self.done {
            Seq::empty()
        } else {
            range_seq(self.cur, self.last)
        }
    }

    /// Produce the next value of the range, or `None` once all values have
    /// been produced.
    pub fn next(&mut self) -> (r: Option<T>)
        requires
            old(self).wf(),
        ensures
            final(self).wf(),
            old(self).to_seq().len() == 0 ==> r is None
                && final(self).to_seq() == old(self).to_seq(),
            old(self).to_seq().len() > 0 ==> r == Some(old(self).to_seq()[0])
                && final(self).to_seq() == old(self).to_seq().drop_first(),
    {
        if self.done {
            None
        } else {
            let out = self.cur;
            proof {
                T::lemma_ord_roundtrip(out);
            }
            if self.last.le(self.cur) {
                self.done = true;
                proof {
                    T::lemma_ord_roundtrip(self.last);
                    assert(self.to_seq() =~= old(self).to_seq().drop_first());
                }
            } else {
                assert(exists|b: T| out.ordinal() < b.ordinal()) by {
                    assert(out.ordinal() < self.last.ordinal());
                }
                self.cur = self.cur.successor();
                proof {
                    assert(self.to_seq() =~= old(self).to_seq().drop_first());
                }
            }
            Some(out)
        }
    }
}

/// Membership agreement: a value lies between the bounds exactly when the
/// enumerated sequence of the range contains it, so [`Ix::in_range`] returns
/// true precisely for the values [`Ix::range`] produces.
pub proof fn lemma_membership_agreement<T: Ix>(v: T, min: T, max: T)
    requires
        min.ordinal() <= max.ordinal(),
    ensures
        (min.ordinal() <= v.ordinal() && v.ordinal() <= max.ordinal()) <==> range_seq(
            min,
            max,
        ).contains(v),
{
    let s = range_seq(min, max);
    if min.ordinal() <= v.ordinal() && v.ordinal() <= max.ordinal() {
        T::lemma_ord_roundtrip(v);
        let i = v.ordinal() - min.ordinal();
        assert(s[i] == v);
        assert(s.contains(v));
    }
    if s.contains(v) {
        let i = choose|i: int| 0 <= i < s.len() && s[i] == v;
        T::lemma_ord_contiguous(min, max, min.ordinal() + i);
        assert(v.ordinal() == min.ordinal() + i);
    }
}

/// Round-trip positioning: a value of the range sits in the enumerated
/// sequence exactly at the offset [`Ix::index`] computes for it.
pub proof fn lemma_position_roundtrip<T: Ix>(v: T, min: T, max: T)
    requires
        min.ordinal() <= max.ordinal(),
        min.ordinal() <= v.ordinal() && v.ordinal() <= max.ordinal(),
    ensures
        0 <= v.ordinal() - min.ordinal() < range_seq(min, max).len(),
        range_seq(min, max)[v.ordinal() - min.ordinal()] == v,
{
    T::lemma_ord_roundtrip(v);
}

/// Bijective enumeration: the element at offset `i` of the enumerated
/// sequence has position `i`, so mapping the sequence through the position
/// computation yields exactly `0, 1, ..., size - 1`, with no gaps, repeats
/// or out-of-range entries.
pub proof fn lemma_enumeration_bijective<T: Ix>(min: T, max: T)
    requires
        min.ordinal() <= max.ordinal(),
    ensures
        forall|i: int|
            0 <= i < range_seq(min, max).len() ==> (#[trigger] range_seq(min, max)[i]).ordinal()
                == min.ordinal() + i,
        range_seq(min, max).map_values(|v: T| v.ordinal() - min.ordinal()) =~= Seq::new(
            range_seq(min, max).len(),
            |i: int| i,
        ),
{
    let s = range_seq(min, max);
    assert forall|i: int| 0 <= i < s.len() implies (#[trigger] s[i]).ordinal() == min.ordinal()
        + i by {
        T::lemma_ord_contiguous(min, max, min.ordinal() + i);
    }
}

/// Size and count agree: the length of the enumerated sequence is the
/// mathematical range size that [`Ix::range_size`] computes.
pub proof fn lemma_size_count_agreement<T: Ix>(min: T, max: T)
    requires
        min.ordinal() <= max.ordinal(),
    ensures
        range_seq(min, max).len() == max.ordinal() - min.ordinal() + 1,
{
}

/// Overflow consistency: [`Ix::range_size_checked`] signals overflow, by its
/// contract, exactly when the mathematical size exceeds `usize::MAX`, which
/// happens exactly when counting the enumerated sequence in a `usize` would
/// overflow.
pub proof fn lemma_overflow_consistency<T: Ix>(min: T, max: T)
    requires
        min.ordinal() <= max.ordinal(),
    ensures
        (range_seq(min, max).len() > usize::MAX as nat) <==> (max.ordinal() - min.ordinal() + 1
            > usize::MAX as int),
{
}

/// Boundary inclusion: the enumerated sequence always holds `min` first and
/// `max` last, even when the range has a single value.
pub proof fn lemma_boundary_inclusion<T: Ix>(min: T, max: T)
    requires
        min.ordinal() <= max.ordinal(),
    ensures
        range_seq(min, max).len() >= 1,
        range_seq(min, max).first() == min,
        range_seq(min, max).last() == max,
        range_seq(min, max).contains(min),
        range_seq(min, max).contains(max),
{
    let s = range_seq(min, max);
    T::lemma_ord_roundtrip(min);
    T::lemma_ord_roundtrip(max);
    assert(s[0] == min);
    assert(s[s.len() - 1] == max);
    assert(s.contains(min));
    assert(s.contains(max));
}

} // verus!
