use vstd::prelude::*;
use vstd::laws_cmp::obeys_partial_cmp_spec_properties;
use vstd::std_specs::cmp::{PartialOrdIs, PartialOrdSpec};

verus! {

/// Whether `start <= t < end`.
pub open spec fn in_range<T: PartialOrd>(t: T, range: core::ops::Range<T>) -> bool {
    range.start.is_le(&t) && t.is_lt(&range.end)
}

/// The nearer root `near` when it lies in `range`, else the farther root `far` when that one
/// does, else none.
pub open spec fn select_root_spec<T: PartialOrd>(near: T, far: T, range: core::ops::Range<T>) -> Option<T> {
    if in_range(near, range) {
        Some(near)
    } else if in_range(far, range) {
        Some(far)
    } else {
        None
    }
}

/// The root to take of a ray's two intersections with a surface, `near <= far`: the first of
/// them, in that order, that lies in the accepted range of ray parameters.
pub fn select_root<T: PartialOrd>(near: T, far: T, ray_t: &core::ops::Range<T>) -> (r: Option<T>)
    ensures
        T::obeys_partial_cmp_spec() ==> r == select_root_spec(near, far, *ray_t),
{
    if ray_t.start <= near && near < ray_t.end {
        Some(near)
    } else if ray_t.start <= far && far < ray_t.end {
        Some(far)
    } else {
        None
    }
}

/// A ray that starts inside a surface meets it once behind the start of the accepted range
/// and once inside it: the root behind is skipped and the one inside taken.
pub proof fn lemma_root_behind_start_skipped<T: PartialOrd>(
    near: T,
    far: T,
    range: core::ops::Range<T>,
)
    requires
        obeys_partial_cmp_spec_properties::<T>(),
        near.is_lt(&range.start),
        in_range(far, range),
    ensures
        select_root_spec(near, far, range) == Some(far),
{
    reveal(obeys_partial_cmp_spec_properties);
    assert(range.start.partial_cmp_spec(&near) == Some(core::cmp::Ordering::Greater));
}

} // verus!
