use crate::time::Date;
use vstd::pervasive::cloned;
use vstd::prelude::*;
use vstd::std_specs::cmp::PartialOrdIs;
use vstd::std_specs::cmp::PartialOrdSpec;

verus! {

/// A pair of bounds, `start` and `end`, of any ordered type.
///
/// Nothing here demands `start <= end`: whoever builds a range sees to it.
#[derive(Debug, Clone, PartialEq)]
pub struct ClosedRange<T> {
    pub start: T,
    pub end: T,
}

/// Walks the values of a range from its start up to, not including, its end.
pub struct ClosedRangeIter<T> {
    pub(crate) current: Option<T>,
    pub(crate) end: T,
}

impl<T> ClosedRange<T> where T: Clone + PartialOrd + PartialEq {
    /// `self` encloses `other`: it starts no later and ends no earlier.
    pub open spec fn contains_spec(&self, other: &ClosedRange<T>) -> bool {
        self.start.is_le(&other.start) && self.end.is_ge(&other.end)
    }

    /// The two ranges share more than a boundary point: each starts strictly
    /// before the other ends.
    pub open spec fn overlaps_spec(&self, other: &ClosedRange<T>) -> bool {
        self.start.is_lt(&other.end) && self.end.is_gt(&other.start)
    }

    /// A walk over copies of the bounds, standing at the start.
    pub fn iter(&self) -> (it: ClosedRangeIter<T>) where T: PartialOrd + Clone
        ensures
            it.current_spec() matches Some(c) && cloned(self.start, c),
            cloned(self.end, it.end_spec()),
    {
        ClosedRangeIter { current: Some(self.start.clone()), end: self.end.clone() }
    }

    /// A walk over the bounds themselves, standing at the start.
    pub fn into_iter(self) -> (it: ClosedRangeIter<T>) where T: PartialOrd
        ensures
            it.current_spec() == Some(self.start),
            it.end_spec() == self.end,
    {
        ClosedRangeIter { current: Some(self.start), end: self.end }
    }

    /// Whether `self` encloses `other`.
    pub fn contains(&self, other: &ClosedRange<T>) -> (r: bool)
        ensures
            T::obeys_partial_cmp_spec() ==> r == self.contains_spec(other),
    {
        self.start <= other.start && self.end >= other.end
    }

    /// Whether the two ranges overlap; ranges that only touch do not.
    pub fn overlaps(&self, other: &ClosedRange<T>) -> (r: bool)
        ensures
            T::obeys_partial_cmp_spec() ==> r == self.overlaps_spec(other),
    {
        self.start < other.end && self.end > other.start
    }
}

impl<T> ClosedRangeIter<T> {
    /// The value that the walk hands out next, if it lies before the end.
    pub open(crate) spec fn current_spec(&self) -> Option<T> {
        self.current
    }

    /// The bound at which the walk stops.
    pub open(crate) spec fn end_spec(&self) -> T {
        self.end
    }
}

impl ClosedRangeIter<Date> {
    /// The days that the walk still hands out: from the current day up to the
    /// day before the end.
    pub open spec fn remaining(&self) -> Seq<int> {
        match self.current_spec() {
            Some(c) => if c@ < self.end_spec()@ {
                Seq::new((self.end_spec()@ - c@) as nat, |i: int| c@ + i)
            } else {
                Seq::empty()
            },
            None => Seq::empty(),
        }
    }

    /// Hands out the current day and steps to the next one; `None` once the
    /// end is reached, and from then on.
    pub fn next(&mut self) -> (r: Option<Date>)
        ensures
            final(self).end_spec() == old(self).end_spec(),
            old(self).remaining().len() > 0 ==> (r matches Some(d) && d@ == old(self).remaining()[0]
                && final(self).remaining() == old(self).remaining().drop_first()),
            old(self).remaining().len() == 0 ==> r is None && final(self).current_spec() is None,
    {
        match self.current.take() {
            Some(current) => {
                if current < self.end {
                    proof {
                        use_type_invariant(&current);
                        use_type_invariant(&self.end);
                    }
                    self.current = current.succ_opt();
                    proof {
                        assert(final(self).remaining() =~= old(self).remaining().drop_first());
                    }
                    Some(current)
                } else {
                    None
                }
            },
            None => None,
        }
    }
}

} // verus!
