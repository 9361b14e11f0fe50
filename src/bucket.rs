use vstd::prelude::*;

verus! {

/// Bounds of the four colour buckets are in ascending order.
pub open spec fn ascending_bounds(b: [u64; 4]) -> bool {
    b[0] <= b[1] && b[1] <= b[2] && b[2] <= b[3]
}

/// Bounds of the four colour buckets are in strictly ascending order.
pub open spec fn strictly_ascending_bounds(b: [u64; 4]) -> bool {
    b[0] < b[1] && b[1] < b[2] && b[2] < b[3]
}

/// The bucket of `v`: take the first bound that is at least `v` (the last
/// bound when none is), and step down one bucket when that bound is strictly
/// greater than `v` and a lower bucket exists.
pub open spec fn bucket_of(b: [u64; 4], v: u64) -> int {
    if v <= b[0] {
        0
    } else if v <= b[1] {
        if v == b[1] { 1 } else { 0 }
    } else if v <= b[2] {
        if v == b[2] { 2 } else { 1 }
    } else if v <= b[3] {
        if v == b[3] { 3 } else { 2 }
    } else {
        3
    }
}

/// Binary search to fit `val` in one of the four buckets delimited by `bounds`.
pub fn binary_search_left_insertion_point(bounds: &[u64; 4], val: u64) -> (r: usize)
    requires
        ascending_bounds(*bounds),
    ensures
        r == bucket_of(*bounds, val),
        r <= 3,
{
    let mut l: i8 = 0;
    let max_i: i8 = 3;
    let mut r: i8 = max_i;

    while l <= r
        invariant
            ascending_bounds(*bounds),
            0 <= l <= 4,
            -1 <= r <= 3,
            l <= r + 1,
            forall|i: int| 0 <= i < l ==> bounds[i] < val,
            forall|i: int| r < i < 4 ==> bounds[i] >= val,
        decreases r + 1 - l,
    {
        let m: i8 = l + (r - l) / 2;
        assert(l <= m <= r);
        let cmp = bounds[m as usize];

        if cmp >= val {
            r = m - 1;
        } else {
            l = m + 1;
        }
    }

    // The search may end past the last bucket: keep it between 0 and 3.
    let corrected_l: usize = if l > max_i {
        max_i as usize
    } else {
        l as usize
    };

    // The insertion point is either equal to `val` or the first bound above it.
    if corrected_l > 0 && bounds[corrected_l] > val {
        corrected_l - 1
    } else {
        corrected_l
    }
}

/// With strictly ascending bounds, a value below the first bound lands in the
/// first bucket, one at or above the last bound in the last bucket, and one in
/// `[bounds[i], bounds[i + 1])` in bucket `i`.
pub proof fn lemma_bucket_ranges(bounds: [u64; 4], value: u64)
    requires
        strictly_ascending_bounds(bounds),
    ensures
        ascending_bounds(bounds),
        value < bounds[0] ==> bucket_of(bounds, value) == 0,
        value >= bounds[3] ==> bucket_of(bounds, value) == 3,
        forall|i: int|
            0 <= i < 3 && #[trigger] bounds[i] <= value && value < bounds[i + 1] ==> bucket_of(bounds, value)
                == i,
        0 <= bucket_of(bounds, value) <= 3,
{
}

} // verus!
