//! A busy-wait delay.
use vstd::prelude::*;

verus! {

/// Spins for `n` rounds of two hundred increments; does nothing when `n`
/// is not positive. Returns the number of increments made.
pub fn delay_n(n: i32) -> (spins: u64)
    ensures
        n > 0 ==> spins == 200 * n,
        n <= 0 ==> spins == 0,
{
    let mut spins: u64 = 0;
    let mut k: i32 = 0;
    while k < n
        invariant
            k <= n || n < 0,
            0 <= k,
            spins == 200 * k,
            n <= 0 ==> k == 0,
        decreases n - k,
    {
        let mut j: i32 = 0;
        while j < 200
            invariant
                0 <= j <= 200,
                0 <= k < n,
                spins == 200 * k + j,
            decreases 200 - j,
        {
            spins = spins + 1;
            j = j + 1;
        }
        k = k + 1;
    }
    spins
}

} // verus!
