use engine::text::{render_decimal, render_signed};
use engine::Location;

#[test]
fn decimal_of_small_numbers() {
    assert_eq!(render_decimal(0), "0");
    assert_eq!(render_decimal(7), "7");
    assert_eq!(render_decimal(9), "9");
}

#[test]
fn decimal_of_larger_numbers() {
    assert_eq!(render_decimal(10), "10");
    assert_eq!(render_decimal(109), "109");
    assert_eq!(render_decimal(1234567890), "1234567890");
    assert_eq!(render_decimal(u64::MAX), "18446744073709551615");
}

#[test]
fn location_renders_as_file_line_column() {
    assert_eq!(Location::new("src/lib.rs", 12, 34).render(), "src/lib.rs:12:34");
    assert_eq!(Location::new("", 0, 0).render(), ":0:0");
    assert_eq!(
        Location::new("a/b.rs", u32::MAX, u32::MAX).render(),
        "a/b.rs:4294967295:4294967295"
    );
}

#[test]
fn signed_numbers_carry_their_sign() {
    assert_eq!(render_signed(0), "0");
    assert_eq!(render_signed(42), "42");
    assert_eq!(render_signed(-1), "-1");
    assert_eq!(render_signed(-128), "-128");
    assert_eq!(render_signed(i64::MAX), "9223372036854775807");
    assert_eq!(render_signed(i64::MIN), "-9223372036854775808");
}
