use vstd::prelude::*;
use vstd::std_specs::cmp::{PartialOrdIs, PartialOrdSpec};

verus! {

/// A closed interval `[start, end]` over any partially ordered type.
#[derive(Debug, Clone, Copy)]
pub struct Range<Idx> {
    pub start: Idx,
    pub end: Idx,
}

impl<Idx> From<core::ops::Range<Idx>> for Range<Idx> {
    fn from(value: core::ops::Range<Idx>) -> (r: Self) {
        Range { start: value.start, end: value.end }
    }
}

impl<Idx> vstd::std_specs::convert::FromSpecImpl<core::ops::Range<Idx>> for Range<Idx> {
    open spec fn obeys_from_spec() -> bool {
        true
    }

    open spec fn from_spec(v: core::ops::Range<Idx>) -> Self {
        Range { start: v.start, end: v.end }
    }
}

impl<Idx: PartialOrd> Range<Idx> {
    pub fn new(start: Idx, end: Idx) -> (r: Self)
        ensures
            r.start == start,
            r.end == end,
    {
        Range { start, end }
    }

    /// Whether `start <= value <= end`.
    pub fn contains(&self, value: Idx) -> (r: bool)
        ensures
            Idx::obeys_partial_cmp_spec() ==> (r <==> self.start.is_le(&value) && value.is_le(
                &self.end,
            )),
    {
        self.start <= value && value <= self.end
    }

    /// `value` moved into the interval: `start` below it, `end` above it.
    pub fn clamp(self, value: Idx) -> (r: Idx)
        ensures
            Idx::obeys_partial_cmp_spec() ==> r == (if value.is_lt(&self.start) {
                self.start
            } else if value.is_gt(&self.end) {
                self.end
            } else {
                value
            }),
    {
        if value < self.start {
            self.start
        } else if value > self.end {
            self.end
        } else {
            value
        }
    }
}

} // verus!
