//! Which cached power of ten brings a binary exponent into the window that
//! digit generation works in.
//!
//! The cached powers are `10^-348, 10^-340, ..., 10^340`, one for every
//! eighth decimal exponent.

use crate::log10::ceil_log10_pow2;
use vstd::prelude::*;

verus! {

/// The number of cached powers of ten.
pub const CACHED_POWERS: usize = 87;

/// The smallest binary distance `n` for which a cached power exists.
pub const MIN_DISTANCE: isize = -1182;

/// The largest binary distance `n` for which a cached power exists.
pub const MAX_DISTANCE: isize = 1129;

/// The index of the cached power for the binary distance `n`, which is the
/// lower end of the window minus the binary exponent to be scaled.
pub open spec fn cached_index(n: int) -> int {
    (ceil_log10_pow2(n) + 347) / 8 + 1
}

/// The decimal exponent that scaling by the cached power at `index` takes
/// out of a number: the negated decimal exponent of that power.
pub open spec fn cached_decimal_exponent(index: int) -> int {
    348 - 8 * index
}

/// Computes `cached_index(n)`.
pub fn power_index(n: isize) -> (index: usize)
    requires
        MIN_DISTANCE <= n <= MAX_DISTANCE,
    ensures
        index == cached_index(n as int),
        index < CACHED_POWERS,
{
    let k: isize = if n >= 0 {
        (146 * n + 484) / 485
    } else {
        -((351 * (-n)) / 1166)
    };
    ((k + 355) / 8) as usize
}

/// The cached power for the binary distance `n` is the first one from
/// `10^k` on, where `k` is `n * log10(2)` rounded up.
pub proof fn lemma_cached_index(n: int)
    ensures
        ({
            let k = ceil_log10_pow2(n);
            let power = -cached_decimal_exponent(cached_index(n));
            &&& k <= power < k + 8
            &&& power == 8 * cached_index(n) - 348
        }),
{
}

} // verus!
