//! Row-origin flip between the two vertical tile-indexing conventions.

use vstd::prelude::*;
use vstd::arithmetic::power2::{pow2, lemma_pow2_unfold, lemma_pow2_strictly_increases,
    lemma2_to64, lemma2_to64_rest};

verus! {

/// Storage row index for a requested row `y` at zoom `z`: the row-origin
/// flip `2^z - 1 - y`.
pub open spec fn spec_project_y(y: int, z: nat) -> int {
    pow2(z) - 1 - y
}

/// Projects a requested tile row `y` at zoom `z` to the storage row under
/// the opposite vertical-origin convention.
pub fn mbtile_project_y(x: i64, y: i64, z: i64) -> (r: i64)
    requires
        0 <= z <= 62,
        i64::MIN <= spec_project_y(y as int, z as nat) <= i64::MAX,
    ensures
        r == spec_project_y(y as int, z as nat),
{
    proof {
        lemma2_to64();
    }
    let mut p: i64 = 1;
    let mut i: i64 = 0;
    while i < z
        invariant
            0 <= i <= z <= 62,
            p == pow2(i as nat),
        decreases z - i,
    {
        proof {
            lemma_pow2_unfold((i + 1) as nat);
            if i + 1 < 62 {
                lemma_pow2_strictly_increases((i + 1) as nat, 62);
            }
            lemma2_to64_rest();
        }
        p = p * 2;
        i = i + 1;
    }
    p - 1 - y
}

/// The row-origin flip is its own inverse: projecting a projected row
/// yields the requested row again, for every valid row of the zoom level.
pub proof fn lemma_project_involution(y: int, z: nat)
    requires
        0 <= y < pow2(z),
    ensures
        spec_project_y(spec_project_y(y, z), z) == y,
{
}

} // verus!
