use vstd::prelude::*;

use vstd::arithmetic::div_mod::lemma_div_non_zero;
use vstd::arithmetic::div_mod::lemma_div_nonincreasing;
use vstd::arithmetic::power2::lemma2_to64;
use vstd::arithmetic::power2::lemma_pow2_pos;
use vstd::arithmetic::power2::lemma_pow2_strictly_increases;
use vstd::arithmetic::power2::pow2;
use vstd::bits::lemma_u64_mul_pow2_le_max_iff_max_shr;
use vstd::bits::lemma_u64_shl_is_mul;
use vstd::bits::lemma_u64_shr_is_div;

use crate::selector::generate_k;
use crate::selector::spec_generate_k;
use crate::table::k_shift_to_ln_k;
use crate::table::ln_fp;
use crate::table::FP_ONE;
use crate::table::MAX_FP_TARGET;

verus! {

/// Signals that a requested result cannot be carried in the 64-bit Q16
/// accumulator: either the input residual lies beyond the step selector's
/// table, or applying a factor would push the accumulator past `u64::MAX`.
#[derive(Clone, Copy, Debug, PartialEq, Eq)]
pub enum ExpError {
    Overflow,
}

/// Fixed-point rendering of one multiplicative step: for `shift > 0` the
/// factor `2^shift` applied to `value` by a left shift; for `shift <= 0` the
/// Q16 encoding of the factor `1 + 2^shift` itself, built from `1 << Q` and a
/// right-shifted copy of it.
pub fn sh_fp(value: u64, shift: i64) -> (r: u64)
    requires
        shift > 0 ==> shift <= 63 && value * pow2(shift as nat) <= u64::MAX,
        shift <= 0 ==> shift >= -63,
    ensures
        shift > 0 ==> r as int == value * pow2(shift as nat),
        shift <= 0 ==> r as int == FP_ONE as int + (FP_ONE as int) / (pow2((-shift) as nat)
            as int),
{
    if shift > 0 {
        let sa: u64 = shift as u64;
        proof {
            lemma_u64_shl_is_mul(value, sa);
        }
        value << sa
    } else {
        let sa: u64 = (-shift) as u64;
        proof {
            lemma_u64_shr_is_div(FP_ONE, sa);
            lemma_pow2_pos(sa as nat);
            lemma_div_nonincreasing(FP_ONE as int, pow2(sa as nat) as int);
        }
        FP_ONE + (FP_ONE >> sa)
    }
}

/// One factor application to the Q16 accumulator `y`, as a mathematical
/// function: multiply by `2^k_shift` for a positive shift, add the copy of
/// `y` divided by `2^(-k_shift)` for a non-positive one (the multiplication
/// by `1 + 2^k_shift`, rounded down). `None` when the result would not fit
/// in 64 bits.
pub open spec fn spec_apply_factor(y: u64, k_shift: int) -> Option<u64> {
    if k_shift > 0 {
        if y * pow2(k_shift as nat) <= u64::MAX {
            Some((y * pow2(k_shift as nat)) as u64)
        } else {
            None
        }
    } else {
        let add = (y as int) / (pow2((-k_shift) as nat) as int);
        if y + add <= u64::MAX {
            Some((y + add) as u64)
        } else {
            None
        }
    }
}

/// The reduction loop as a mathematical function: `n` remaining iterations,
/// each selecting the largest applicable step for the residual `cur_x`,
/// applying its factor to the accumulator `y` and subtracting its logarithm
/// from the residual. `None` when a factor application would overflow — or
/// when a step's logarithm would not reduce the residual, a case the
/// evaluator's proof rules out for every positive residual in the selector's
/// range: the selected factor's logarithm always lies strictly below the
/// residual.
pub open spec fn spec_fp_loop(y: u64, cur_x: u64, n: nat) -> Option<u64>
    decreases n,
{
    if n == 0 {
        Some(y)
    } else {
        let ks = spec_generate_k(cur_x as int);
        match spec_apply_factor(y, ks) {
            None => None,
            Some(y2) => {
                let k = ln_fp(ks);
                if 0 <= k && k < cur_x as int {
                    spec_fp_loop(y2, (cur_x as int - k) as u64, (n - 1) as nat)
                } else {
                    None
                }
            },
        }
    }
}

/// The fixed-point exponential as a mathematical function: `e^x` for the Q16
/// input `x`, as the 64-iteration reduction computes it, or `None` where the
/// result cannot be carried in 64 bits.
pub open spec fn spec_exp_fp(x: u64) -> Option<u64> {
    if x == 0 {
        Some(FP_ONE)
    } else if x > MAX_FP_TARGET {
        None
    } else {
        spec_fp_loop(FP_ONE, x, 64)
    }
}

/// Fixed-point evaluator: approximate `e^x` for `x` in Q16 fixed point,
/// returning the Q16 result, by 64 rounds of shift-and-add factor
/// application — no multiplication and no division. An input of exactly zero
/// short-circuits to the exact answer `1 << Q`. `Err(ExpError::Overflow)`
/// comes back precisely when the result cannot be carried in the 64-bit
/// accumulator: the input exceeds the selector's table, or a factor
/// application would pass `u64::MAX`.
///
/// The result equals [`spec_exp_fp`], a function of the input alone — two
/// calls with the same input return the same value. Every successful result
/// is at least `1 << Q`, and strictly above it for a positive input.
pub fn exp_no_mul_div_fp(x: u64) -> (r: Result<u64, ExpError>)
    ensures
        r is Ok <==> spec_exp_fp(x) is Some,
        r matches Ok(v) ==> spec_exp_fp(x) == Some(v),
        x == 0 ==> r == Ok::<u64, ExpError>(FP_ONE),
        r matches Ok(v) ==> v >= FP_ONE,
        x > 0 ==> (r matches Ok(v) ==> v > FP_ONE),
{
    if x == 0 {
        return Ok(FP_ONE);
    }
    if x > MAX_FP_TARGET {
        return Err(ExpError::Overflow);
    }
    let mut y: u64 = FP_ONE;
    let mut cur_x: u64 = x;
    let mut i: u64 = 0;
    while i < 64
        invariant
            0 < x <= MAX_FP_TARGET,
            i <= 64,
            1 <= cur_x <= MAX_FP_TARGET,
            FP_ONE <= y,
            i >= 1 ==> y > FP_ONE,
            spec_fp_loop(y, cur_x, (64 - i) as nat) == spec_fp_loop(FP_ONE, x, 64),
        decreases 64 - i,
    {
        let ghost y0 = y;
        let ghost x0 = cur_x;
        let ghost n: nat = (64 - i) as nat;
        let k_shift = generate_k(cur_x as i64);
        proof {
            assert(cur_x as i64 as int == cur_x as int);
            if k_shift == -64 {
                assert(ln_fp(-63) >= cur_x as int);
                assert(false);
            }
            if k_shift < -16 {
                assert(ln_fp(-16) >= cur_x as int);
                assert(false);
            }
        }
        if k_shift > 0 {
            let sa: u64 = k_shift as u64;
            proof {
                lemma_u64_mul_pow2_le_max_iff_max_shr(y, sa, u64::MAX);
            }
            if y > (u64::MAX >> sa) {
                proof {
                    assert(spec_apply_factor(y0, k_shift as int) is None);
                    assert(spec_fp_loop(y0, x0, n) is None);
                }
                return Err(ExpError::Overflow);
            }
            proof {
                lemma_u64_shl_is_mul(y, sa);
                assert(pow2(0) == 1 && pow2(16) == 65536) by {
                    lemma2_to64();
                }
                lemma_pow2_strictly_increases(0, sa as nat);
                assert(y * pow2(sa as nat) > FP_ONE) by (nonlinear_arith)
                    requires
                        y >= FP_ONE,
                        FP_ONE == 65536,
                        pow2(sa as nat) >= 2,
                ;
            }
            y = y << sa;
        } else {
            let sa: u64 = (-k_shift) as u64;
            let add: u64 = y >> sa;
            proof {
                lemma_u64_shr_is_div(y, sa);
                assert(pow2(16) == 65536) by {
                    lemma2_to64();
                }
                if sa < 16 {
                    lemma_pow2_strictly_increases(sa as nat, 16);
                }
                lemma_pow2_pos(sa as nat);
                lemma_div_non_zero(y as int, pow2(sa as nat) as int);
                assert(add >= 1);
            }
            if y > u64::MAX - add {
                proof {
                    assert(spec_apply_factor(y0, k_shift as int) is None);
                    assert(spec_fp_loop(y0, x0, n) is None);
                }
                return Err(ExpError::Overflow);
            }
            y = y + add;
        }
        let k: u64 = k_shift_to_ln_k(k_shift);
        proof {
            assert(ln_fp(k_shift as int) < cur_x as int);
        }
        cur_x = cur_x - k;
        i = i + 1;
        proof {
            assert(spec_apply_factor(y0, k_shift as int) == Some(y));
            assert(spec_fp_loop(y0, x0, n) == spec_fp_loop(y, cur_x, (n - 1) as nat));
        }
    }
    Ok(y)
}

} // verus!
