use vstd::prelude::*;

verus! {

/// Number of fractional bits in the fixed-point representation: a real value
/// `v` is carried as the integer `v * 2^Q`, rounded toward zero.
pub const Q: u64 = 16;

/// The fixed-point rendering of the real number 1, that is `1 << Q`.
pub const FP_ONE: u64 = 65536;

/// The largest residual (in Q16 fixed point) that the step selector accepts:
/// the table entry for shift 62, the last shift whose factor `2^62` still has
/// a well-defined entry below. Residuals above it would ask for a factor
/// beyond the 64-bit shift range.
pub const MAX_FP_TARGET: u64 = 2816417;

/// Fixed-point logarithm table for the step factors.
///
/// The factor parametrized by `shift` is `2^shift` for `shift > 0` and
/// `1 + 2^shift` for `shift <= 0`; this function gives
/// `floor(ln(factor) * 2^16)`, the natural logarithm of that factor in Q16
/// fixed point. Entries are zero from shift -16 downward because
/// `ln(1 + 2^shift) * 2^16 < 1` there; entries for `shift == 0` and
/// `shift == 1` coincide because both factors equal 2. The table is only
/// meaningful for `shift <= 62`; larger shifts fall back to zero and are
/// never consulted.
pub open spec fn ln_fp(shift: int) -> int {
    if shift <= -17 {
        0
    } else if shift == -16 {
        0
    } else if shift == -15 {
        1
    } else if shift == -14 {
        3
    } else if shift == -13 {
        7
    } else if shift == -12 {
        15
    } else if shift == -11 {
        31
    } else if shift == -10 {
        63
    } else if shift == -9 {
        127
    } else if shift == -8 {
        255
    } else if shift == -7 {
        510
    } else if shift == -6 {
        1016
    } else if shift == -5 {
        2016
    } else if shift == -4 {
        3973
    } else if shift == -3 {
        7719
    } else if shift == -2 {
        14623
    } else if shift == -1 {
        26572
    } else if shift == 0 {
        45426
    } else if shift == 1 {
        45426
    } else if shift == 2 {
        90852
    } else if shift == 3 {
        136278
    } else if shift == 4 {
        181704
    } else if shift == 5 {
        227130
    } else if shift == 6 {
        272556
    } else if shift == 7 {
        317982
    } else if shift == 8 {
        363408
    } else if shift == 9 {
        408834
    } else if shift == 10 {
        454260
    } else if shift == 11 {
        499687
    } else if shift == 12 {
        545113
    } else if shift == 13 {
        590539
    } else if shift == 14 {
        635965
    } else if shift == 15 {
        681391
    } else if shift == 16 {
        726817
    } else if shift == 17 {
        772243
    } else if shift == 18 {
        817669
    } else if shift == 19 {
        863095
    } else if shift == 20 {
        908521
    } else if shift == 21 {
        953947
    } else if shift == 22 {
        999374
    } else if shift == 23 {
        1044800
    } else if shift == 24 {
        1090226
    } else if shift == 25 {
        1135652
    } else if shift == 26 {
        1181078
    } else if shift == 27 {
        1226504
    } else if shift == 28 {
        1271930
    } else if shift == 29 {
        1317356
    } else if shift == 30 {
        1362782
    } else if shift == 31 {
        1408208
    } else if shift == 32 {
        1453634
    } else if shift == 33 {
        1499061
    } else if shift == 34 {
        1544487
    } else if shift == 35 {
        1589913
    } else if shift == 36 {
        1635339
    } else if shift == 37 {
        1680765
    } else if shift == 38 {
        1726191
    } else if shift == 39 {
        1771617
    } else if shift == 40 {
        1817043
    } else if shift == 41 {
        1862469
    } else if shift == 42 {
        1907895
    } else if shift == 43 {
        1953322
    } else if shift == 44 {
        1998748
    } else if shift == 45 {
        2044174
    } else if shift == 46 {
        2089600
    } else if shift == 47 {
        2135026
    } else if shift == 48 {
        2180452
    } else if shift == 49 {
        2225878
    } else if shift == 50 {
        2271304
    } else if shift == 51 {
        2316730
    } else if shift == 52 {
        2362156
    } else if shift == 53 {
        2407582
    } else if shift == 54 {
        2453009
    } else if shift == 55 {
        2498435
    } else if shift == 56 {
        2543861
    } else if shift == 57 {
        2589287
    } else if shift == 58 {
        2634713
    } else if shift == 59 {
        2680139
    } else if shift == 60 {
        2725565
    } else if shift == 61 {
        2770991
    } else if shift == 62 {
        2816417
    } else {
        0
    }
}

/// Q16 fixed-point logarithm of the factor named by `k_shift`: the executable
/// realization of the table [`ln_fp`].
pub fn k_shift_to_ln_k(k_shift: i64) -> (r: u64)
    requires
        k_shift <= 62,
    ensures
        r as int == ln_fp(k_shift as int),
        r <= MAX_FP_TARGET,
{
    if k_shift <= -17 {
        0
    } else if k_shift == -16 {
        0
    } else if k_shift == -15 {
        1
    } else if k_shift == -14 {
        3
    } else if k_shift == -13 {
        7
    } else if k_shift == -12 {
        15
    } else if k_shift == -11 {
        31
    } else if k_shift == -10 {
        63
    } else if k_shift == -9 {
        127
    } else if k_shift == -8 {
        255
    } else if k_shift == -7 {
        510
    } else if k_shift == -6 {
        1016
    } else if k_shift == -5 {
        2016
    } else if k_shift == -4 {
        3973
    } else if k_shift == -3 {
        7719
    } else if k_shift == -2 {
        14623
    } else if k_shift == -1 {
        26572
    } else if k_shift == 0 {
        45426
    } else if k_shift == 1 {
        45426
    } else if k_shift == 2 {
        90852
    } else if k_shift == 3 {
        136278
    } else if k_shift == 4 {
        181704
    } else if k_shift == 5 {
        227130
    } else if k_shift == 6 {
        272556
    } else if k_shift == 7 {
        317982
    } else if k_shift == 8 {
        363408
    } else if k_shift == 9 {
        408834
    } else if k_shift == 10 {
        454260
    } else if k_shift == 11 {
        499687
    } else if k_shift == 12 {
        545113
    } else if k_shift == 13 {
        590539
    } else if k_shift == 14 {
        635965
    } else if k_shift == 15 {
        681391
    } else if k_shift == 16 {
        726817
    } else if k_shift == 17 {
        772243
    } else if k_shift == 18 {
        817669
    } else if k_shift == 19 {
        863095
    } else if k_shift == 20 {
        908521
    } else if k_shift == 21 {
        953947
    } else if k_shift == 22 {
        999374
    } else if k_shift == 23 {
        1044800
    } else if k_shift == 24 {
        1090226
    } else if k_shift == 25 {
        1135652
    } else if k_shift == 26 {
        1181078
    } else if k_shift == 27 {
        1226504
    } else if k_shift == 28 {
        1271930
    } else if k_shift == 29 {
        1317356
    } else if k_shift == 30 {
        1362782
    } else if k_shift == 31 {
        1408208
    } else if k_shift == 32 {
        1453634
    } else if k_shift == 33 {
        1499061
    } else if k_shift == 34 {
        1544487
    } else if k_shift == 35 {
        1589913
    } else if k_shift == 36 {
        1635339
    } else if k_shift == 37 {
        1680765
    } else if k_shift == 38 {
        1726191
    } else if k_shift == 39 {
        1771617
    } else if k_shift == 40 {
        1817043
    } else if k_shift == 41 {
        1862469
    } else if k_shift == 42 {
        1907895
    } else if k_shift == 43 {
        1953322
    } else if k_shift == 44 {
        1998748
    } else if k_shift == 45 {
        2044174
    } else if k_shift == 46 {
        2089600
    } else if k_shift == 47 {
        2135026
    } else if k_shift == 48 {
        2180452
    } else if k_shift == 49 {
        2225878
    } else if k_shift == 50 {
        2271304
    } else if k_shift == 51 {
        2316730
    } else if k_shift == 52 {
        2362156
    } else if k_shift == 53 {
        2407582
    } else if k_shift == 54 {
        2453009
    } else if k_shift == 55 {
        2498435
    } else if k_shift == 56 {
        2543861
    } else if k_shift == 57 {
        2589287
    } else if k_shift == 58 {
        2634713
    } else if k_shift == 59 {
        2680139
    } else if k_shift == 60 {
        2725565
    } else if k_shift == 61 {
        2770991
    } else if k_shift == 62 {
        2816417
    } else {
        0
    }
}

/// No factor lies below 1, so no table entry is negative.
pub proof fn lemma_ln_fp_nonneg(s: int)
    ensures
        ln_fp(s) >= 0,
{
}

/// One step of the table's monotonicity: each entry is at most the next.
pub proof fn lemma_ln_fp_step(s: int)
    requires
        s <= 61,
    ensures
        ln_fp(s) <= ln_fp(s + 1),
{
}

/// The table is monotone: a larger shift never has a smaller logarithm.
/// This is what makes "the largest shift whose logarithm is below the
/// target" well defined for the step selector.
pub proof fn lemma_ln_fp_monotone(s1: int, s2: int)
    requires
        s1 <= s2 <= 62,
    ensures
        ln_fp(s1) <= ln_fp(s2),
    decreases s2 - s1,
{
    if s1 < s2 {
        lemma_ln_fp_step(s1);
        lemma_ln_fp_monotone(s1 + 1, s2);
    }
}

} // verus!
