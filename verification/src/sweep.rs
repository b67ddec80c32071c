//! A head that looks to one side, back, to the other side, and back again.

use vstd::prelude::*;

verus! {

/// How many steps a sweep has when each side is `steps` steps away.
pub open spec fn sweep_len(steps: int) -> int {
    if steps <= 0 {
        1
    } else {
        4 * steps - 1
    }
}

/// Where the head is at step `k` of a sweep, in steps away from the middle:
/// negative to the right, positive to the left. It goes out to `-steps`,
/// comes back to `-1`, goes out to `steps`, comes back to `1`, and ends in
/// the middle.
pub open spec fn sweep_at(steps: int, k: int) -> int {
    if k < steps {
        -(k + 1)
    } else if k < 2 * steps - 1 {
        -(2 * steps - 1 - k)
    } else if k < 3 * steps - 1 {
        k - 2 * steps + 2
    } else if k < 4 * steps - 2 {
        4 * steps - 2 - k
    } else {
        0
    }
}

/// The positions of a sweep, in order, as multiples of one step.
pub fn rotations(steps: u16) -> (positions: Vec<i32>)
    ensures
        positions@.len() == sweep_len(steps as int),
        forall|k: int|
            0 <= k < positions@.len() ==> #[trigger] positions@[k] == sweep_at(steps as int, k),
{
    let n: i32 = steps as i32;
    let mut positions: Vec<i32> = Vec::with_capacity(steps as usize * 4 + 1);
    let mut i: i32 = 1;
    while i <= n
        invariant
            n == steps,
            1 <= i <= n + 1,
            positions@.len() == i - 1,
            forall|k: int| 0 <= k < positions@.len() ==> #[trigger] positions@[k] == sweep_at(n as int, k),
        decreases n - i + 1,
    {
        positions.push(-i);
        i += 1;
    }
    i = n - 1;
    while i >= 1
        invariant
            n == steps,
            -1 <= i <= n,
            n >= 1 ==> i >= 0,
            n >= 1 ==> positions@.len() == 2 * n - 1 - i,
            n == 0 ==> positions@.len() == 0,
            forall|k: int| 0 <= k < positions@.len() ==> #[trigger] positions@[k] == sweep_at(n as int, k),
        decreases i,
    {
        positions.push(-i);
        i -= 1;
    }
    i = 1;
    while i <= n
        invariant
            n == steps,
            1 <= i <= n + 1,
            n >= 1 ==> positions@.len() == 2 * n - 2 + i,
            n == 0 ==> positions@.len() == 0,
            forall|k: int| 0 <= k < positions@.len() ==> #[trigger] positions@[k] == sweep_at(n as int, k),
        decreases n - i + 1,
    {
        positions.push(i);
        i += 1;
    }
    i = n - 1;
    while i >= 1
        invariant
            n == steps,
            -1 <= i <= n,
            n >= 1 ==> i >= 0,
            n >= 1 ==> positions@.len() == 4 * n - 2 - i,
            n == 0 ==> positions@.len() == 0,
            forall|k: int| 0 <= k < positions@.len() ==> #[trigger] positions@[k] == sweep_at(n as int, k),
        decreases i,
    {
        positions.push(i);
        i -= 1;
    }
    positions.push(0);
    positions
}

} // verus!
