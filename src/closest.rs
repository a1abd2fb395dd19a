use vstd::prelude::*;
use vstd::laws_cmp::obeys_partial_cmp_spec_properties;
use vstd::std_specs::cmp::{PartialOrdIs, PartialOrdSpec};

use crate::roots::in_range;

verus! {

/// The search for the nearest hit of a ray among the members of a scene. Members are asked
/// in turn, each with the range `start..closest`; a hit that lies in that range becomes the
/// closest so far, and the range narrows to end at it.
#[derive(Debug, Clone, Copy)]
pub struct ClosestHit<T> {
    start: T,
    closest: T,
}

/// The range after a member answered `answer` when asked with `range`.
pub open spec fn narrow<T: PartialOrd>(range: core::ops::Range<T>, answer: Option<T>) -> core::ops::Range<T> {
    match answer {
        Some(t) => if in_range(t, range) {
            range.start..t
        } else {
            range
        },
        None => range,
    }
}

/// What a member whose nearest hit in the whole range is `nearest` answers when asked with
/// `range`: the nearest hit lies in `range` or no hit of the member does.
pub open spec fn answer<T: PartialOrd>(nearest: Option<T>, range: core::ops::Range<T>) -> Option<T> {
    match nearest {
        Some(t) => if in_range(t, range) {
            Some(t)
        } else {
            None
        },
        None => None,
    }
}

/// The range left after asking, in order, members whose nearest hits are `members`.
pub open spec fn scan<T: PartialOrd>(range: core::ops::Range<T>, members: Seq<Option<T>>) -> core::ops::Range<T>
    decreases members.len(),
{
    if members.len() == 0 {
        range
    } else {
        let r = scan(range, members.drop_last());
        narrow(r, answer(members.last(), r))
    }
}

impl<T: PartialOrd + Copy> ClosestHit<T> {
    pub closed spec fn range_spec(&self) -> core::ops::Range<T> {
        self.start..self.closest
    }

    /// A search over `ray_t`, with nothing found yet.
    pub fn new(ray_t: &core::ops::Range<T>) -> (r: Self)
        ensures
            r.range_spec() == *ray_t,
    {
        ClosestHit { start: ray_t.start, closest: ray_t.end }
    }

    /// The range to ask the next member with: from the start of the search to the closest
    /// hit so far, or to the end of the search while there is none.
    pub fn range(&self) -> (r: core::ops::Range<T>)
        ensures
            r == self.range_spec(),
    {
        self.start..self.closest
    }

    /// Takes the hit at `t` as the closest so far when it lies in the current range, and says
    /// whether it did.
    pub fn record(&mut self, t: T) -> (accepted: bool)
        ensures
            T::obeys_partial_cmp_spec() ==> accepted == in_range(t, old(self).range_spec()),
            T::obeys_partial_cmp_spec() ==> final(self).range_spec() == narrow(
                old(self).range_spec(),
                Some(t),
            ),
    {
        if self.start <= t && t < self.closest {
            self.closest = t;
            true
        } else {
            false
        }
    }
}

/// The search finds the nearest hit: asking members whose nearest hits are `members` leaves
/// a range that starts where the search started and ends either where the search ended or
/// at one member's hit inside the search's range, and no member's hit inside the search's
/// range lies before that end.
pub proof fn lemma_scan_finds_nearest<T: PartialOrd>(
    range: core::ops::Range<T>,
    members: Seq<Option<T>>,
)
    requires
        obeys_partial_cmp_spec_properties::<T>(),
    ensures
        scan(range, members).start == range.start,
        forall|i: int|
            0 <= i < members.len() && (#[trigger] members[i]) is Some && in_range(
                members[i].unwrap(),
                range,
            ) ==> !members[i].unwrap().is_lt(&scan(range, members).end),
        scan(range, members).end == range.end || exists|i: int|
            0 <= i < members.len() && #[trigger] members[i] == Some(scan(range, members).end)
                && in_range(scan(range, members).end, range),
    decreases members.len(),
{
    if members.len() > 0 {
        let prefix = members.drop_last();
        lemma_scan_finds_nearest(range, prefix);
        reveal(obeys_partial_cmp_spec_properties);
        let r = scan(range, prefix);
        let e = scan(range, members).end;
        let last = members.len() - 1;
        assert forall|i: int|
            0 <= i < members.len() && (#[trigger] members[i]) is Some && in_range(
                members[i].unwrap(),
                range,
            ) implies !members[i].unwrap().is_lt(&e) by {
            if i < last {
                assert(prefix[i] == members[i]);
            } else {
                let t = members[i].unwrap();
                if t.is_lt(&e) {
                    assert(e.partial_cmp_spec(&t) == Some(core::cmp::Ordering::Greater));
                }
            }
        }
        if e != range.end {
            if e == r.end {
                let i = choose|i: int|
                    0 <= i < prefix.len() && #[trigger] prefix[i] == Some(r.end) && in_range(
                        r.end,
                        range,
                    );
                assert(members[i] == prefix[i]);
            } else {
                assert(members[last] == Some(e));
            }
        }
    }
}

/// Two members whose nearest hits `a < b` both lie in the range: whichever is asked first,
/// the search ends at `a`.
pub proof fn lemma_nearest_of_two_whatever_order<T: PartialOrd>(
    range: core::ops::Range<T>,
    a: T,
    b: T,
)
    requires
        obeys_partial_cmp_spec_properties::<T>(),
        in_range(a, range),
        in_range(b, range),
        a.is_lt(&b),
    ensures
        scan(range, seq![Some(a), Some(b)]) == (range.start..a),
        scan(range, seq![Some(b), Some(a)]) == (range.start..a),
{
    reveal(obeys_partial_cmp_spec_properties);
    let ab = seq![Some(a), Some(b)];
    let ba = seq![Some(b), Some(a)];
    assert(ab.drop_last() =~= seq![Some(a)]);
    assert(ba.drop_last() =~= seq![Some(b)]);
    assert(seq![Some(a)].drop_last() =~= Seq::<Option<T>>::empty());
    assert(seq![Some(b)].drop_last() =~= Seq::<Option<T>>::empty());
    reveal_with_fuel(scan, 3);
    assert(scan(range, seq![Some(a)]) == (range.start..a));
    assert(!in_range(b, (range.start..a)));
    assert(scan(range, seq![Some(b)]) == (range.start..b));
    assert(in_range(a, (range.start..b)));
}

} // verus!
