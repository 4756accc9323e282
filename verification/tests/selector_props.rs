use exp_shift::generate_k;
use exp_shift::k_shift_to_ln_k;
use exp_shift::sh_fp;

/// The real-valued factor `sh(1, shift)`: `2^shift` for positive shifts,
/// `1 + 2^shift` for the rest.
fn factor(shift: i64) -> f64 {
    if shift > 0 {
        (1u64 << shift) as f64
    } else {
        1.0 + 2f64.powi(shift as i32)
    }
}

#[test]
fn table_matches_float_log() {
    for shift in -63..=62i64 {
        let from_float = (factor(shift).ln() * 65536.0) as u64;
        assert_eq!(k_shift_to_ln_k(shift), from_float, "shift {}", shift);
    }
}

#[test]
fn table_fixed_values() {
    assert_eq!(k_shift_to_ln_k(-63), 0);
    assert_eq!(k_shift_to_ln_k(-16), 0);
    assert_eq!(k_shift_to_ln_k(-15), 1);
    assert_eq!(k_shift_to_ln_k(-4), 3973);
    assert_eq!(k_shift_to_ln_k(0), 45426);
    assert_eq!(k_shift_to_ln_k(1), 45426);
    assert_eq!(k_shift_to_ln_k(8), 363408);
    assert_eq!(k_shift_to_ln_k(62), 2816417);
}

#[test]
fn generate_k_is_largest_shift() {
    let mut targets: Vec<i64> = vec![1, 2, 3972, 3973, 3974, 45426, 45427, 393216, 2816417];
    let mut t: i64 = 1;
    while t < 2816417 {
        targets.push(t);
        t += 12289;
    }
    for t in targets {
        let r = generate_k(t);
        assert!(r > -64, "target {}", t);
        assert!((k_shift_to_ln_k(r) as i64) < t, "target {}", t);
        if r < 62 {
            assert!(k_shift_to_ln_k(r + 1) as i64 >= t, "target {}", t);
        }
    }
}

#[test]
fn generate_k_at_table_top() {
    assert_eq!(generate_k(2816417), 61);
}

#[test]
fn selector_floor_on_vanishing_input() {
    // A residual so small that its Q16 encoding vanishes: the scan floor
    // comes back, as it does for zero and for negative residuals.
    let tiny = (2.2314243834656339e-10f64 * 65536.0) as i64;
    assert_eq!(tiny, 0);
    assert_eq!(generate_k(tiny), -64);
    assert_eq!(generate_k(-5), -64);
}

#[test]
fn sh_fp_positive_shift_is_left_shift() {
    assert_eq!(sh_fp(65536, 3), 65536 << 3);
    assert_eq!(sh_fp(1, 16), 65536);
    assert_eq!(sh_fp(3, 1), 6);
}

#[test]
fn sh_fp_non_positive_shift_encodes_small_factor() {
    // 1 + 2^0 = 2 in Q16
    assert_eq!(sh_fp(7, 0), 131072);
    // 1 + 2^-4 = 1.0625 in Q16
    assert_eq!(sh_fp(7, -4), 65536 + 4096);
    // 1 + 2^-63 rounds down to exactly 1 in Q16
    assert_eq!(sh_fp(7, -63), 65536);
}
