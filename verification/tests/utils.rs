use engine::utils::{default_log_filter, duration_secs, parse_seconds, SecondsError};

#[test]
fn seconds_are_decimal_digits() {
    assert_eq!(parse_seconds("0"), Ok(0));
    assert_eq!(parse_seconds("7"), Ok(7));
    assert_eq!(parse_seconds("120"), Ok(120));
    assert_eq!(parse_seconds("007"), Ok(7));
    assert_eq!(parse_seconds("+15"), Ok(15));
    assert_eq!(parse_seconds("18446744073709551615"), Ok(u64::MAX));
}

#[test]
fn empty_text_is_refused_as_empty() {
    assert_eq!(parse_seconds(""), Err(SecondsError::Empty));
}

#[test]
fn seconds_reject_anything_but_digits() {
    assert_eq!(parse_seconds("+"), Err(SecondsError::InvalidDigit));
    assert_eq!(parse_seconds("-"), Err(SecondsError::InvalidDigit));
    assert_eq!(parse_seconds("-1"), Err(SecondsError::InvalidDigit));
    assert_eq!(parse_seconds("++1"), Err(SecondsError::InvalidDigit));
    assert_eq!(parse_seconds("1+"), Err(SecondsError::InvalidDigit));
    assert_eq!(parse_seconds(" 1"), Err(SecondsError::InvalidDigit));
    assert_eq!(parse_seconds("1 "), Err(SecondsError::InvalidDigit));
    assert_eq!(parse_seconds("1.5"), Err(SecondsError::InvalidDigit));
    assert_eq!(parse_seconds("12s"), Err(SecondsError::InvalidDigit));
    assert_eq!(parse_seconds("ten"), Err(SecondsError::InvalidDigit));
    assert_eq!(parse_seconds("\u{0661}\u{0662}"), Err(SecondsError::InvalidDigit));
}

#[test]
fn seconds_reject_numbers_beyond_64_bits() {
    assert_eq!(parse_seconds("18446744073709551616"), Err(SecondsError::TooLarge));
    assert_eq!(parse_seconds("18446744073709551620"), Err(SecondsError::TooLarge));
    assert_eq!(parse_seconds("99999999999999999999999"), Err(SecondsError::TooLarge));
    assert_eq!(parse_seconds("184467440737095516150"), Err(SecondsError::TooLarge));
}

#[test]
fn the_first_fault_from_the_left_decides() {
    assert_eq!(parse_seconds("99999999999999999999999x"), Err(SecondsError::TooLarge));
    assert_eq!(parse_seconds("x99999999999999999999999"), Err(SecondsError::InvalidDigit));
    assert_eq!(parse_seconds("1844674407370955161x"), Err(SecondsError::InvalidDigit));
    assert_eq!(parse_seconds("18446744073709551615x"), Err(SecondsError::InvalidDigit));
    assert_eq!(parse_seconds("1844674407370955161500x"), Err(SecondsError::TooLarge));
}

#[test]
fn seconds_agree_with_the_standard_parser() {
    for text in [
        "0", "1", "+1", "-1", "", "+", "-", "42x", "x42", "0042", "18446744073709551615",
        "18446744073709551616", "+18446744073709551615", "1_000", "0x10", "\u{0663}",
        "99999999999999999999999x", "1844674407370955161x", "18446744073709551615x",
        "1844674407370955161500x", "00000000000000000000000000000000000001",
    ] {
        let std = text.parse::<u64>();
        let own = parse_seconds(text);
        assert_eq!(own.ok(), std.clone().ok(), "{:?}", text);
        if let (Err(own), Err(std)) = (own, std) {
            assert_eq!(own.message(), std.to_string(), "{:?}", text);
        }
    }
}

#[test]
fn faults_say_what_went_wrong() {
    assert_eq!(SecondsError::Empty.message(), "cannot parse integer from empty string");
    assert_eq!(SecondsError::InvalidDigit.message(), "invalid digit found in string");
    assert_eq!(SecondsError::TooLarge.message(), "number too large to fit in target type");
}

#[test]
fn duration_falls_back_on_the_default() {
    assert_eq!(duration_secs(Some("30"), 5), 30);
    assert_eq!(duration_secs(Some("soon"), 5), 5);
    assert_eq!(duration_secs(Some(""), 5), 5);
    assert_eq!(duration_secs(None, 5), 5);
    assert_eq!(duration_secs(Some("0"), 5), 0);
    assert_eq!(duration_secs(Some("99999999999999999999999"), 5), 5);
}

#[test]
fn only_an_unconfigured_debug_build_gets_the_default_filter() {
    assert_eq!(
        default_log_filter(true, false),
        Some("hash_cloud=debug,hash_engine=debug,cli=debug,server=debug,proto=debug,nano=debug,apiclient=debug")
    );
    assert_eq!(default_log_filter(true, true), None);
    assert_eq!(default_log_filter(false, false), None);
    assert_eq!(default_log_filter(false, true), None);
}
