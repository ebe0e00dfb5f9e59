use dearrow_browser::numbers::{abbreviate_unsigned, abbreviate_value, decimal_string, render_signed, render_unsigned, signed_decimal_string, RenderNumber};

#[test]
fn render_groups_digits_in_threes() {
    assert_eq!(1234567u32.render_int(), "1 234 567");
    assert_eq!(1000u64.render_int(), "1 000");
    assert_eq!(999u16.render_int(), "999");
    assert_eq!(0usize.render_int(), "0");
    assert_eq!(render_unsigned(12345678901), "12 345 678 901");
}

#[test]
fn render_negative_numbers_keep_sign_before_groups() {
    assert_eq!((-1234567i32).render_int(), "-1 234 567");
    assert_eq!((-12i64).render_int(), "-12");
    assert_eq!(render_signed(-100000), "-100 000");
}

#[test]
fn small_types_render_plainly() {
    assert_eq!(255u8.render_int(), "255");
    assert_eq!((-128i8).render_int(), "-128");
    assert_eq!(200u8.abbreviate_int(), "200");
}

#[test]
fn abbreviate_uses_suffixes() {
    assert_eq!(21370u32.abbreviate_int(), "21K");
    assert_eq!(999u32.abbreviate_int(), "999");
    assert_eq!(1000u32.abbreviate_int(), "1K");
    assert_eq!(999_999u64.abbreviate_int(), "999K");
    assert_eq!(1_500_000u64.abbreviate_int(), "1M");
    assert_eq!(2_500_000_000u64.abbreviate_int(), "2B");
    assert_eq!(1_234_000_000_000u64.abbreviate_int(), "1 234B");
    assert_eq!(65_535u16.abbreviate_int(), "65K");
    assert_eq!(abbreviate_unsigned(7), "7");
    assert_eq!(abbreviate_value(12_345), "12K");
}

#[test]
fn decimal_strings_match_std() {
    for n in [0u128, 1, 9, 10, 99, 100, 12345, u64::MAX as u128, u128::MAX] {
        assert_eq!(decimal_string(n), n.to_string());
    }
    for v in [0i128, -1, 1, -987654321, i64::MIN as i128, i128::MAX] {
        assert_eq!(signed_decimal_string(v), v.to_string());
    }
}
