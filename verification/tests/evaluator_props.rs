use exp_shift::exp_no_mul_div_fp;
use exp_shift::ExpError;

#[test]
fn exp_fp_zero_boundary() {
    // e^0 == 1 exactly, the short-circuit path.
    assert_eq!(exp_no_mul_div_fp(0), Ok(1u64 << 16));
}

#[test]
fn exp_fp_exact_values() {
    assert_eq!(exp_no_mul_div_fp(1), Ok(65600));
    assert_eq!(exp_no_mul_div_fp(65536), Ok(178264));
    assert_eq!(exp_no_mul_div_fp(655360), Ok(1444845211));
}

#[test]
fn exp_fp_pure_across_calls() {
    for x in [0u64, 1, 17, 65536, 655360, 2180391] {
        let first = exp_no_mul_div_fp(x);
        let second = exp_no_mul_div_fp(x);
        assert_eq!(first, second);
    }
}

#[test]
fn exp_fp_monotone_on_grid() {
    let mut prev = exp_no_mul_div_fp(0).unwrap();
    for i in 1..34u64 {
        let cur = exp_no_mul_div_fp(i << 16).unwrap();
        assert!(cur > prev, "i {}", i);
        prev = cur;
    }
}

#[test]
fn exp_fp_monotone_on_consecutive_inputs() {
    let mut prev = exp_no_mul_div_fp(1).unwrap();
    for x in 2..2000u64 {
        let cur = exp_no_mul_div_fp(x).unwrap();
        assert!(cur > prev, "x {}", x);
        prev = cur;
    }
}

#[test]
fn exp_fp_result_above_one_for_positive_input() {
    for x in [1u64, 2, 1000, 65536, 2180391] {
        assert!(exp_no_mul_div_fp(x).unwrap() > 65536);
    }
}

#[test]
fn exp_fp_overflow_errors() {
    // e^34 no longer fits in a 64-bit Q16 accumulator.
    assert_eq!(exp_no_mul_div_fp(34 << 16), Err(ExpError::Overflow));
    // The largest input the accumulator carries, and its neighbour.
    assert!(exp_no_mul_div_fp(2180391).is_ok());
    assert_eq!(exp_no_mul_div_fp(2180392), Err(ExpError::Overflow));
    // Residuals beyond the selector's table.
    assert_eq!(exp_no_mul_div_fp(2816418), Err(ExpError::Overflow));
    assert_eq!(exp_no_mul_div_fp(u64::MAX), Err(ExpError::Overflow));
}
