use bec_log_ingestor::number::{Binary64, Number};
use bec_log_ingestor::text::to_decimal;

fn truncated(value: f64) -> i64 {
    Binary64::from_bits(value.to_bits()).truncate()
}

#[test]
fn truncate_agrees_with_the_cast_on_ordinary_values() {
    let values = [
        0.0,
        -0.0,
        0.5,
        -0.5,
        0.999_999_999,
        1.0,
        -1.0,
        1.5,
        -1.5,
        2.0,
        1234.5678,
        -1234.5678,
        1_431_648_000.75,
        -8_334_601_228_800.25,
        8_210_266_876_799.9,
        4_503_599_627_370_496.0,
        4_503_599_627_370_497.0,
        9_007_199_254_740_992.0,
        -9_007_199_254_740_993.0,
        1.0e18,
        -1.0e18,
    ];
    for value in values {
        assert_eq!(truncated(value), value as i64, "value {value}");
    }
}

#[test]
fn truncate_gives_exact_whole_parts() {
    assert_eq!(truncated(0.0), 0);
    assert_eq!(truncated(1.999), 1);
    assert_eq!(truncated(-1.999), -1);
    assert_eq!(truncated(1_700_000_000.987), 1_700_000_000);
    assert_eq!(truncated(4_611_686_018_427_387_904.0), 4_611_686_018_427_387_904);
}

#[test]
fn truncate_clamps_what_is_out_of_range() {
    assert_eq!(truncated(9_223_372_036_854_775_808.0), i64::MAX);
    assert_eq!(truncated(-9_223_372_036_854_775_808.0), i64::MIN);
    assert_eq!(truncated(1.0e300), i64::MAX);
    assert_eq!(truncated(-1.0e300), i64::MIN);
    assert_eq!(truncated(f64::MAX), i64::MAX);
    assert_eq!(truncated(f64::MIN), i64::MIN);
    assert_eq!(truncated(f64::INFINITY), i64::MAX);
    assert_eq!(truncated(f64::NEG_INFINITY), i64::MIN);
}

#[test]
fn truncate_takes_nan_and_tiny_values_to_zero() {
    assert_eq!(truncated(f64::NAN), 0);
    assert_eq!(truncated(-f64::NAN), 0);
    assert_eq!(truncated(f64::MIN_POSITIVE), 0);
    assert_eq!(truncated(5.0e-324), 0);
    assert_eq!(truncated(-5.0e-324), 0);
}

#[test]
fn truncate_agrees_with_the_cast_on_every_exponent() {
    let fractions: [u64; 4] = [0, 1, 0x8_0000_0000_0000, 0xf_ffff_ffff_ffff];
    for exponent in 0..2048u64 {
        for fraction in fractions {
            for sign in [0u64, 1] {
                let bits = (sign << 63) | (exponent << 52) | fraction;
                let value = f64::from_bits(bits);
                assert_eq!(Binary64::from_bits(bits).truncate(), value as i64, "bits {bits:#x}");
            }
        }
    }
}

#[test]
fn bits_are_kept() {
    let number = Binary64::from_bits(0x4009_21fb_5444_2d18);
    assert_eq!(number.to_bits(), 0x4009_21fb_5444_2d18);
    assert_eq!(f64::from_bits(number.to_bits()), std::f64::consts::PI);
}

#[test]
fn numbers_truncate_by_their_kind() {
    assert_eq!(Number::Unsigned(17).truncate(), 17);
    assert_eq!(Number::Unsigned(u64::MAX).truncate(), i64::MAX);
    assert_eq!(Number::Unsigned(i64::MAX as u64).truncate(), i64::MAX);
    assert_eq!(Number::Signed(-17).truncate(), -17);
    assert_eq!(Number::Signed(i64::MIN).truncate(), i64::MIN);
    assert_eq!(Number::Real(Binary64::from_bits(2.75f64.to_bits())).truncate(), 2);
}

#[test]
fn decimal_numerals() {
    assert_eq!(to_decimal(0), "0");
    assert_eq!(to_decimal(7), "7");
    assert_eq!(to_decimal(10), "10");
    assert_eq!(to_decimal(12345), "12345");
    assert_eq!(to_decimal(65535), "65535");
    assert_eq!(to_decimal(1_000_000_007), "1000000007");
    assert_eq!(to_decimal(u64::MAX), "18446744073709551615");
}
