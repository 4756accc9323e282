use vstd::prelude::*;

use crate::table::k_shift_to_ln_k;
use crate::table::lemma_ln_fp_monotone;
use crate::table::lemma_ln_fp_nonneg;
use crate::table::ln_fp;
use crate::table::MAX_FP_TARGET;

verus! {

/// Downward scan used to define the step selector mathematically: the largest
/// shift in `[-63, s]` whose table entry is strictly below `target`, or `-64`
/// when no shift qualifies.
pub open spec fn spec_gk_down(target: int, s: int) -> int
    decreases s + 64,
{
    if s < -63 {
        -64
    } else if ln_fp(s) < target {
        s
    } else {
        spec_gk_down(target, s - 1)
    }
}

/// The step selector as a mathematical function: the largest shift in
/// `[-63, 61]` whose factor's logarithm is strictly below the residual
/// `target`, or `-64` when even the smallest factor oversteps it.
pub open spec fn spec_generate_k(target: int) -> int {
    spec_gk_down(target, 61)
}

proof fn lemma_gk_down_char(target: int, s: int)
    requires
        -64 <= s <= 61,
    ensures
        -64 <= spec_gk_down(target, s) <= s,
        spec_gk_down(target, s) > -64 ==> ln_fp(spec_gk_down(target, s)) < target,
        forall|t: int| spec_gk_down(target, s) < t <= s ==> ln_fp(t) >= target,
    decreases s + 64,
{
    if s >= -63 && !(ln_fp(s) < target) {
        lemma_gk_down_char(target, s - 1);
    }
}

/// The characterization of [`spec_generate_k`]: its result is in `[-64, 61]`,
/// its table entry (when one exists) lies strictly below the target, and
/// every larger shift in the table's range has an entry at or above the
/// target — so it is the largest qualifying shift.
pub proof fn lemma_generate_k_char(target: int)
    requires
        target <= MAX_FP_TARGET as int,
    ensures
        -64 <= spec_generate_k(target) <= 61,
        spec_generate_k(target) > -64 ==> ln_fp(spec_generate_k(target)) < target,
        forall|t: int| spec_generate_k(target) < t <= 62 ==> ln_fp(t) >= target,
{
    lemma_gk_down_char(target, 61);
    assert(ln_fp(62) == MAX_FP_TARGET as int);
}

/// For any residual the reduction loop can see — positive and within the
/// table — the selected step is a real table entry whose logarithm lies
/// strictly below the residual: subtracting it always leaves a positive
/// residual, so the reduction never gets stuck and never underflows.
pub proof fn lemma_step_reduces(cur_x: u64)
    requires
        1 <= cur_x <= MAX_FP_TARGET,
    ensures
        -63 <= spec_generate_k(cur_x as int) <= 61,
        0 <= ln_fp(spec_generate_k(cur_x as int)) < cur_x as int,
{
    lemma_generate_k_char(cur_x as int);
    if spec_generate_k(cur_x as int) == -64 {
        assert(ln_fp(-63) >= cur_x as int);
    }
    lemma_ln_fp_nonneg(spec_generate_k(cur_x as int));
}

/// Anything that satisfies the characterization is the selector's value:
/// the largest qualifying shift is unique.
proof fn lemma_gk_down_eq(target: int, s: int, r: int)
    requires
        -64 <= r <= s <= 61,
        r > -64 ==> ln_fp(r) < target,
        forall|t: int| r < t <= s ==> ln_fp(t) >= target,
    ensures
        spec_gk_down(target, s) == r,
    decreases s + 64,
{
    if s > r {
        assert(ln_fp(s) >= target);
        lemma_gk_down_eq(target, s - 1, r);
    }
}

/// Step selector: given the remaining residual `target` in Q16 fixed point,
/// return the largest shift whose factor's logarithm is strictly below the
/// residual, so that applying the factor cannot overstep it. For
/// `target <= 0` no factor qualifies and the scan's floor `-64` comes back.
///
/// The result is pinned to [`spec_generate_k`], and the `ensures` clauses
/// state the "largest qualifying shift" property directly: the returned
/// shift's logarithm is below the target, and every larger shift in the
/// table's range has a logarithm at or above it.
pub fn generate_k(target: i64) -> (r: i64)
    requires
        target <= MAX_FP_TARGET as i64,
    ensures
        -64 <= r <= 61,
        r as int == spec_generate_k(target as int),
        r > -64 ==> ln_fp(r as int) < target as int,
        forall|t: int| (r as int) < t <= 62 ==> ln_fp(t) >= target as int,
{
    let mut shift: i64 = -63;
    let mut k: u64 = k_shift_to_ln_k(shift);
    while (k as i64) < target
        invariant
            -63 <= shift <= 62,
            target <= MAX_FP_TARGET as i64,
            k as int == ln_fp(shift as int),
            k <= MAX_FP_TARGET,
            forall|t: int| -63 <= t < shift as int ==> ln_fp(t) < target as int,
        decreases 62 - shift,
    {
        assert(shift < 62) by {
            assert(ln_fp(62) == MAX_FP_TARGET as int);
        }
        shift = shift + 1;
        k = k_shift_to_ln_k(shift);
    }
    proof {
        assert forall|t: int| (shift - 1) < t <= 62 implies ln_fp(t) >= target as int by {
            lemma_ln_fp_monotone(shift as int, t);
        }
        lemma_gk_down_eq(target as int, 61, shift as int - 1);
    }
    shift - 1
}

} // verus!
