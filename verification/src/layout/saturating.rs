use vstd::prelude::*;

verus! {

/// `a + b`, clamped to `usize::MAX` on overflow.
pub open spec fn sat_add(a: usize, b: usize) -> usize {
    if a + b > usize::MAX {
        usize::MAX
    } else {
        (a + b) as usize
    }
}

/// `a - b`, clamped to zero on underflow.
pub open spec fn sat_sub(a: usize, b: usize) -> usize {
    if a >= b {
        (a - b) as usize
    } else {
        0
    }
}

/// `a * b`, clamped to `usize::MAX` on overflow.
pub open spec fn sat_mul(a: usize, b: usize) -> usize {
    if a * b > usize::MAX {
        usize::MAX
    } else {
        (a * b) as usize
    }
}

/// The smaller of two extents.
pub open spec fn min_size(a: usize, b: usize) -> usize {
    if a <= b {
        a
    } else {
        b
    }
}

/// The larger of two extents.
pub open spec fn max_size(a: usize, b: usize) -> usize {
    if a >= b {
        a
    } else {
        b
    }
}

/// `a + b` over signed coordinates, clamped to the `i64` range.
pub open spec fn sat_add_i64(a: i64, b: i64) -> i64 {
    if a + b > i64::MAX {
        i64::MAX
    } else if a + b < i64::MIN {
        i64::MIN
    } else {
        (a + b) as i64
    }
}

/// `a - b` over signed coordinates, clamped to the `i64` range.
pub open spec fn sat_sub_i64(a: i64, b: i64) -> i64 {
    if a - b > i64::MAX {
        i64::MAX
    } else if a - b < i64::MIN {
        i64::MIN
    } else {
        (a - b) as i64
    }
}

/// Executable counterpart of [`sat_sub_i64`].
pub fn sub_sat_i64(a: i64, b: i64) -> (r: i64)
    ensures
        r == sat_sub_i64(a, b),
{
    match a.checked_sub(b) {
        Some(d) => d,
        None => {
            if b < 0 {
                i64::MAX
            } else {
                i64::MIN
            }
        },
    }
}

/// An extent as a signed coordinate, clamped to `i64::MAX`.
pub open spec fn coord_of_extent(w: usize) -> i64 {
    if w > i64::MAX {
        i64::MAX
    } else {
        w as i64
    }
}

/// Executable counterpart of [`sat_mul`].
pub fn mul_sat(a: usize, b: usize) -> (r: usize)
    ensures
        r == sat_mul(a, b),
{
    match a.checked_mul(b) {
        Some(p) => p,
        None => usize::MAX,
    }
}

/// Executable counterpart of [`sat_add_i64`].
pub fn add_sat_i64(a: i64, b: i64) -> (r: i64)
    ensures
        r == sat_add_i64(a, b),
{
    match a.checked_add(b) {
        Some(p) => p,
        None => {
            if a >= 0 {
                i64::MAX
            } else {
                i64::MIN
            }
        },
    }
}

/// Executable counterpart of [`coord_of_extent`].
pub fn extent_coord(w: usize) -> (r: i64)
    ensures
        r == coord_of_extent(w),
{
    if w as u64 > i64::MAX as u64 {
        i64::MAX
    } else {
        w as i64
    }
}

/// Executable counterpart of [`max_size`].
pub fn max_extent(a: usize, b: usize) -> (r: usize)
    ensures
        r == max_size(a, b),
{
    if a >= b {
        a
    } else {
        b
    }
}

} // verus!
