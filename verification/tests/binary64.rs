use qtrade_indicators::binary64::{ge, gt, is_nan_bits, le, lt};

fn b(x: f64) -> u64 {
    x.to_bits()
}

#[test]
fn test_binary64_matches_native_comparisons() {
    let values = [
        f64::NEG_INFINITY,
        -1.0e300,
        -3.5,
        -1.0,
        -f64::MIN_POSITIVE,
        -5e-324,
        -0.0,
        0.0,
        5e-324,
        f64::MIN_POSITIVE,
        1.0,
        3.5,
        1.0e300,
        f64::INFINITY,
        f64::NAN,
        -f64::NAN,
    ];
    for &x in &values {
        for &y in &values {
            assert_eq!(lt(b(x), b(y)), x < y, "{} < {}", x, y);
            assert_eq!(le(b(x), b(y)), x <= y, "{} <= {}", x, y);
            assert_eq!(gt(b(x), b(y)), x > y, "{} > {}", x, y);
            assert_eq!(ge(b(x), b(y)), x >= y, "{} >= {}", x, y);
        }
    }
}

#[test]
fn test_binary64_nan_detection() {
    assert!(is_nan_bits(b(f64::NAN)));
    assert!(is_nan_bits(b(-f64::NAN)));
    assert!(is_nan_bits(0x7FF0_0000_0000_0001));
    assert!(!is_nan_bits(b(f64::INFINITY)));
    assert!(!is_nan_bits(b(f64::NEG_INFINITY)));
    assert!(!is_nan_bits(b(0.0)));
    assert!(!is_nan_bits(b(-2.5)));
}

#[test]
fn test_binary64_signed_zeros_equal() {
    assert!(le(b(-0.0), b(0.0)));
    assert!(le(b(0.0), b(-0.0)));
    assert!(!lt(b(-0.0), b(0.0)));
}
