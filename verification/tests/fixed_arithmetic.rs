use pidctrl::fixed::{Fixed, SCALE};

fn fx(raw: i64) -> Fixed {
    Fixed { raw }
}

#[test]
fn scale_is_one_million() {
    assert_eq!(SCALE, 1_000_000);
}

#[test]
fn zero_is_zero() {
    assert_eq!(Fixed::zero(), fx(0));
}

#[test]
fn from_int_scales_whole_units() {
    assert_eq!(Fixed::from_int(0), fx(0));
    assert_eq!(Fixed::from_int(10), fx(10_000_000));
    assert_eq!(Fixed::from_int(-3), fx(-3_000_000));
    assert_eq!(Fixed::from_int(i32::MAX), fx(2_147_483_647_000_000));
    assert_eq!(Fixed::from_int(i32::MIN), fx(-2_147_483_648_000_000));
}

#[test]
fn add_and_sub_are_exact_in_range() {
    assert_eq!(fx(1_500_000).sat_add(fx(2_250_000)), fx(3_750_000));
    assert_eq!(fx(1_500_000).sat_sub(fx(2_250_000)), fx(-750_000));
    assert_eq!(fx(-7).sat_add(fx(7)), fx(0));
}

#[test]
fn add_saturates_at_both_ends() {
    assert_eq!(fx(i64::MAX).sat_add(fx(1)), fx(i64::MAX));
    assert_eq!(fx(i64::MAX).sat_add(fx(i64::MAX)), fx(i64::MAX));
    assert_eq!(fx(i64::MIN).sat_add(fx(-1)), fx(i64::MIN));
    assert_eq!(fx(i64::MIN).sat_add(fx(i64::MIN)), fx(i64::MIN));
    assert_eq!(fx(i64::MAX).sat_add(fx(i64::MIN)), fx(-1));
}

#[test]
fn sub_saturates_at_both_ends() {
    assert_eq!(fx(i64::MIN).sat_sub(fx(1)), fx(i64::MIN));
    assert_eq!(fx(i64::MAX).sat_sub(fx(-1)), fx(i64::MAX));
    assert_eq!(fx(0).sat_sub(fx(i64::MIN)), fx(i64::MAX));
    assert_eq!(fx(i64::MIN).sat_sub(fx(i64::MIN)), fx(0));
}

#[test]
fn mul_of_decimals_is_exact() {
    // 10 * 0.3 = 3
    assert_eq!(fx(10_000_000).sat_mul(fx(300_000)), fx(3_000_000));
    // 0.6 * 10 * 0.015 = 0.09
    assert_eq!(fx(600_000).sat_mul(fx(10_000_000)).sat_mul(fx(15_000)), fx(90_000));
    // -2.5 * 4 = -10
    assert_eq!(fx(-2_500_000).sat_mul(fx(4_000_000)), fx(-10_000_000));
    assert_eq!(fx(123_456).sat_mul(fx(0)), fx(0));
    assert_eq!(fx(123_456).sat_mul(fx(SCALE)), fx(123_456));
}

#[test]
fn mul_rounds_toward_zero() {
    // 0.000003 * 0.5 = 0.0000015
    assert_eq!(fx(3).sat_mul(fx(500_000)), fx(1));
    assert_eq!(fx(-3).sat_mul(fx(500_000)), fx(-1));
    assert_eq!(fx(3).sat_mul(fx(-500_000)), fx(-1));
    assert_eq!(fx(-3).sat_mul(fx(-500_000)), fx(1));
    assert_eq!(fx(1).sat_mul(fx(999_999)), fx(0));
    assert_eq!(fx(-1).sat_mul(fx(999_999)), fx(0));
}

#[test]
fn mul_saturates_at_both_ends() {
    assert_eq!(fx(i64::MAX).sat_mul(fx(2_000_000)), fx(i64::MAX));
    assert_eq!(fx(i64::MAX).sat_mul(fx(-2_000_000)), fx(i64::MIN));
    assert_eq!(fx(i64::MIN).sat_mul(fx(i64::MIN)), fx(i64::MAX));
    assert_eq!(fx(i64::MIN).sat_mul(fx(i64::MAX)), fx(i64::MIN));
    assert_eq!(fx(i64::MIN).sat_mul(fx(SCALE)), fx(i64::MIN));
    assert_eq!(fx(i64::MIN).sat_mul(fx(-SCALE)), fx(i64::MAX));
}

#[test]
fn div_of_decimals() {
    // 3 / 0.015 = 200
    assert_eq!(fx(3_000_000).sat_div(fx(15_000)), fx(200_000_000));
    // 1 / 3 = 0.333333
    assert_eq!(fx(1_000_000).sat_div(fx(3_000_000)), fx(333_333));
    assert_eq!(fx(-1_000_000).sat_div(fx(3_000_000)), fx(-333_333));
    assert_eq!(fx(1_000_000).sat_div(fx(-3_000_000)), fx(-333_333));
    assert_eq!(fx(-1_000_000).sat_div(fx(-3_000_000)), fx(333_333));
    assert_eq!(fx(0).sat_div(fx(5)), fx(0));
    assert_eq!(fx(777).sat_div(fx(SCALE)), fx(777));
}

#[test]
fn div_saturates_at_both_ends() {
    assert_eq!(fx(i64::MAX).sat_div(fx(1)), fx(i64::MAX));
    assert_eq!(fx(i64::MIN).sat_div(fx(1)), fx(i64::MIN));
    assert_eq!(fx(i64::MIN).sat_div(fx(-1)), fx(i64::MAX));
    assert_eq!(fx(i64::MIN).sat_div(fx(-SCALE)), fx(i64::MAX));
    assert_eq!(fx(i64::MIN).sat_div(fx(SCALE)), fx(i64::MIN));
    assert_eq!(fx(i64::MAX).sat_div(fx(i64::MIN)), fx(-999_999));
}

#[test]
fn div_by_zero_goes_to_the_end_of_the_range() {
    assert_eq!(fx(1).sat_div(fx(0)), fx(i64::MAX));
    assert_eq!(fx(5_000_000).sat_div(fx(0)), fx(i64::MAX));
    assert_eq!(fx(-1).sat_div(fx(0)), fx(i64::MIN));
    assert_eq!(fx(0).sat_div(fx(0)), fx(0));
}

#[test]
fn fixed_tracks_floating_point_within_rounding() {
    let pairs: [(f64, f64); 5] = [(0.3, 10.0), (-1.25, 0.015), (123.456, -7.5), (0.001, 0.001), (2.0, 0.5)];
    for (a, b) in pairs {
        let fa = fx((a * 1e6).round() as i64);
        let fb = fx((b * 1e6).round() as i64);
        let prod = fa.sat_mul(fb).raw as f64 / 1e6;
        let quot = fa.sat_div(fb).raw as f64 / 1e6;
        assert!((prod - a * b).abs() <= 1e-6, "{} * {}", a, b);
        assert!((quot - a / b).abs() <= 1e-6, "{} / {}", a, b);
    }
}

#[test]
fn decimal_text_is_the_shortest() {
    assert_eq!(fx(0).to_decimal_string(), "0");
    assert_eq!(fx(300_000).to_decimal_string(), "0.3");
    assert_eq!(fx(600_000).to_decimal_string(), "0.6");
    assert_eq!(fx(15_000).to_decimal_string(), "0.015");
    assert_eq!(fx(-1_000_000).to_decimal_string(), "-1");
    assert_eq!(fx(1_000_000).to_decimal_string(), "1");
    assert_eq!(fx(3_090_000).to_decimal_string(), "3.09");
    assert_eq!(fx(10_000_000).to_decimal_string(), "10");
    assert_eq!(fx(100_000_000).to_decimal_string(), "100");
    assert_eq!(fx(-2_500_000).to_decimal_string(), "-2.5");
    assert_eq!(fx(1_010_000).to_decimal_string(), "1.01");
    assert_eq!(fx(100_100).to_decimal_string(), "0.1001");
}

#[test]
fn decimal_text_keeps_all_six_places_when_needed() {
    assert_eq!(fx(1).to_decimal_string(), "0.000001");
    assert_eq!(fx(-1).to_decimal_string(), "-0.000001");
    assert_eq!(fx(10).to_decimal_string(), "0.00001");
    assert_eq!(fx(999_999).to_decimal_string(), "0.999999");
    assert_eq!(fx(123_456_789_012).to_decimal_string(), "123456.789012");
    assert_eq!(fx(-100_000_001).to_decimal_string(), "-100.000001");
    assert_eq!(fx(-999_990).to_decimal_string(), "-0.99999");
}

#[test]
fn decimal_text_agrees_with_floating_point_display() {
    let raws: [i64; 9] = [0, 300_000, 600_000, 15_000, -1_000_000, 90_000, 3_090_000, 250_000, -682_500];
    for raw in raws {
        let as_float = raw as f64 / 1e6;
        assert_eq!(fx(raw).to_decimal_string(), format!("{}", as_float));
    }
}

#[test]
fn decimal_text_at_the_ends_of_the_range() {
    assert_eq!(fx(i64::MAX).to_decimal_string(), "9223372036854.775807");
    assert_eq!(fx(i64::MIN).to_decimal_string(), "-9223372036854.775808");
    assert_eq!(fx(i64::MAX - 7).to_decimal_string(), "9223372036854.7758");
}

#[test]
fn write_decimal_appends() {
    let mut s = String::from("x = ");
    fx(-2_500_000).write_decimal(&mut s);
    s.push_str(", y = ");
    fx(42).write_decimal(&mut s);
    s.push_str(", z = ");
    fx(7_000_000).write_decimal(&mut s);
    assert_eq!(s, "x = -2.5, y = 0.000042, z = 7");
}
