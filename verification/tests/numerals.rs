//! Tests of the exact decimal numerals rendered for floating-point bit
//! patterns: each numeral must be the exact decimal expansion of the stored
//! value, and so parse back to the identical bits.

use shader_graph::{f32_decimal, f64_decimal};

/// The exact decimal expansion of a finite double, via standard formatting
/// at more than full precision, trailing zeros trimmed.
fn exact_expansion(x: f64) -> String {
    let mut s = format!("{:.1100}", x);
    while s.ends_with('0') {
        s.pop();
    }
    if s.ends_with('.') {
        s.pop();
    }
    s
}

#[test]
fn double_numerals_are_the_exact_expansion() {
    let cases: Vec<f64> = vec![
        0.0,
        -0.0,
        1.0,
        -1.0,
        1.5,
        -2.75,
        0.1,
        0.5,
        3.141592653589793,
        1e300,
        -1e300,
        1e-300,
        12345678901234568.0,
        5e-324,                  // the smallest double subnormal
        -5e-324,
        2.2250738585072014e-308, // the smallest double normal
        1.7976931348623157e308,  // the largest finite double
        65536.0,
        1.0000000000000002,
    ];
    for x in cases {
        let s = f64_decimal(x.to_bits());
        assert_eq!(s, exact_expansion(x), "numeral of {:e}", x);
        let back: f64 = s.parse().unwrap();
        assert_eq!(back.to_bits(), x.to_bits(), "round trip of {:e}", x);
    }
}

#[test]
fn single_numerals_are_the_exact_expansion() {
    let cases: Vec<f32> = vec![
        0.0,
        -0.0,
        1.0,
        1.5,
        -1.5,
        0.1,
        0.25,
        3.4028235e38,  // the largest finite single
        1e-45,         // the smallest single subnormal
        -1e-45,
        1.1754944e-38, // the smallest single normal
        16777216.0,
        0.2,
    ];
    for x in cases {
        let s = f32_decimal(x.to_bits());
        // widening a single to a double is exact, so the expansions agree
        assert_eq!(s, exact_expansion(x as f64), "numeral of {:e}", x);
        let back: f32 = s.parse().unwrap();
        assert_eq!(back.to_bits(), x.to_bits(), "round trip of {:e}", x);
    }
}

#[test]
fn non_finite_patterns_render_as_null() {
    assert_eq!(f64_decimal(f64::NAN.to_bits()), "null");
    assert_eq!(f64_decimal(f64::INFINITY.to_bits()), "null");
    assert_eq!(f64_decimal(f64::NEG_INFINITY.to_bits()), "null");
    assert_eq!(f32_decimal(f32::NAN.to_bits()), "null");
    assert_eq!(f32_decimal(f32::INFINITY.to_bits()), "null");
}

#[test]
fn negative_zero_keeps_its_sign() {
    assert_eq!(f64_decimal((-0.0f64).to_bits()), "-0");
    let back: f64 = "-0".parse().unwrap();
    assert!(back.is_sign_negative());
}

#[test]
fn small_numerals_are_plain() {
    assert_eq!(f64_decimal(0.5f64.to_bits()), "0.5");
    assert_eq!(f64_decimal(1.5f64.to_bits()), "1.5");
    assert_eq!(f64_decimal(3.0f64.to_bits()), "3");
    assert_eq!(f64_decimal(0.0625f64.to_bits()), "0.0625");
    assert_eq!(f32_decimal((-1.5f32).to_bits()), "-1.5");
    assert_eq!(f64_decimal(1024.0f64.to_bits()), "1024");
}
