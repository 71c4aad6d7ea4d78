use mission_service::number::{div_trunc, i64_to_string, parse_bool, parse_i32, parse_i64};
use mission_service::text::{str_contains, str_eq, str_starts_with, string_from, to_ascii_lower, to_ascii_upper};

#[test]
fn decimal_rendering_matches_display() {
    assert_eq!(i64_to_string(0), "0");
    assert_eq!(i64_to_string(604800), "604800");
    assert_eq!(i64_to_string(-42), "-42");
    assert_eq!(i64_to_string(i64::MIN), i64::MIN.to_string());
    assert_eq!(i64_to_string(i64::MAX), i64::MAX.to_string());
}

#[test]
fn integer_parsing_matches_from_str() {
    assert_eq!(parse_i64("604800000"), Some(604800000));
    assert_eq!(parse_i64("-17"), Some(-17));
    assert_eq!(parse_i64("+5"), Some(5));
    assert_eq!(parse_i64(""), None);
    assert_eq!(parse_i64("12a"), None);
    assert_eq!(parse_i64(" 1"), None);
    assert_eq!(parse_i64("9223372036854775807"), Some(i64::MAX));
    assert_eq!(parse_i64("9223372036854775808"), None);
    assert_eq!(parse_i32("2147483647"), Some(i32::MAX));
    assert_eq!(parse_i32("2147483648"), None);
    assert_eq!(parse_i32("030"), Some(30));
}

#[test]
fn bool_parsing_matches_from_str() {
    assert_eq!(parse_bool("true"), Some(true));
    assert_eq!(parse_bool("false"), Some(false));
    assert_eq!(parse_bool("TRUE"), None);
    assert_eq!(parse_bool(""), None);
}

#[test]
fn division_truncates_toward_zero() {
    assert_eq!(div_trunc(604800000, 1000), 604800);
    assert_eq!(div_trunc(-1999, 1000), -1);
    assert_eq!(div_trunc(999, 1000), 0);
}

#[test]
fn text_helpers() {
    assert!(str_eq("STORE", "STORE"));
    assert!(!str_eq("STORE", "STOR"));
    assert!(str_contains("USER_STARTER", "STARTER"));
    assert!(str_contains("abc", ""));
    assert!(!str_contains("ab", "abc"));
    assert!(str_starts_with("https://x", "https://"));
    assert!(!str_starts_with("http://x", "https://"));
    assert_eq!(string_from("미션"), "미션");
    assert_eq!(to_ascii_upper('a'), 'A');
    assert_eq!(to_ascii_upper('9'), '9');
    assert_eq!(to_ascii_lower('Q'), 'q');
    assert_eq!(to_ascii_lower('가'), '가');
}
