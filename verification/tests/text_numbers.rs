use mymodbus::number::{decimal_chars, parse_bool_chars, parse_unsigned_chars, signed_decimal_chars, NumberError};
use mymodbus::text::{
    chars_of, split_chars, split_lines, split_once_chars, string_of, trim_chars,
    trim_start_matches_chars, CharClass,
};

fn c(s: &str) -> Vec<char> {
    s.chars().collect()
}

fn text(v: &[char]) -> String {
    v.iter().collect()
}

#[test]
fn unsigned_parsing_follows_from_str() {
    assert_eq!(parse_unsigned_chars(&c("65535"), 65535), Ok(65535));
    assert_eq!(parse_unsigned_chars(&c("+7"), 65535), Ok(7));
    assert_eq!(parse_unsigned_chars(&c("007"), 65535), Ok(7));
    assert_eq!(parse_unsigned_chars(&c("65536"), 65535), Err(NumberError::PosOverflow));
    assert_eq!(parse_unsigned_chars(&c(""), 65535), Err(NumberError::Empty));
    assert_eq!(parse_unsigned_chars(&c("+"), 65535), Err(NumberError::InvalidDigit));
    assert_eq!(parse_unsigned_chars(&c("-1"), 65535), Err(NumberError::InvalidDigit));
    assert_eq!(parse_unsigned_chars(&c("12a"), 65535), Err(NumberError::InvalidDigit));
    assert_eq!(parse_unsigned_chars(&c("99999a"), 65535), Err(NumberError::PosOverflow));
    assert_eq!(parse_unsigned_chars(&c("18446744073709551615"), u64::MAX), Ok(u64::MAX));
    assert_eq!(parse_unsigned_chars(&c("18446744073709551616"), u64::MAX), Err(NumberError::PosOverflow));
    for s in ["0", "1", "42", "+9", "-3", "", "1 ", "4294967296"] {
        let ours = parse_unsigned_chars(&c(s), u32::MAX as u64).ok();
        let std = s.parse::<u32>().ok().map(|v| v as u64);
        assert_eq!(ours, std, "{s}");
    }
}

#[test]
fn booleans_and_decimals() {
    assert_eq!(parse_bool_chars(&c("true")), Some(true));
    assert_eq!(parse_bool_chars(&c("false")), Some(false));
    assert_eq!(parse_bool_chars(&c("True")), None);
    assert_eq!(text(&decimal_chars(0)), "0");
    assert_eq!(text(&decimal_chars(1234567890)), "1234567890");
    assert_eq!(text(&decimal_chars(u64::MAX)), u64::MAX.to_string());
    assert_eq!(text(&signed_decimal_chars(-42)), "-42");
    assert_eq!(text(&signed_decimal_chars(i64::MIN)), i64::MIN.to_string());
}

#[test]
fn trimming_and_splitting_match_str() {
    let s = " \t\u{3000}a b\u{85}\n ";
    assert_eq!(text(&trim_chars(&c(s), CharClass::Whitespace)), s.trim());
    assert_eq!(text(&trim_chars(&c("\0\0x\0"), CharClass::Exactly('\0'))), "x");
    assert_eq!(text(&trim_start_matches_chars(&c("/id//id/x/"), &c("/id/"))), "/id//id/x/".trim_start_matches("/id/"));
    let parts: Vec<String> = split_chars(&c("a&&b&"), '&').iter().map(|p| text(p)).collect();
    assert_eq!(parts, vec!["a", "", "b", ""]);
    let (k, v) = split_once_chars(&c("a=b=c"), '=').unwrap();
    assert_eq!((text(&k), text(&v)), ("a".to_string(), "b=c".to_string()));
    assert!(split_once_chars(&c("abc"), '=').is_none());
    for s in ["", "a", "a\n", "a\r\nb", "a\n\nb\r", "\n"] {
        let ours: Vec<String> = split_lines(&c(s)).iter().map(|l| text(l)).collect();
        let std: Vec<String> = s.lines().map(|l| l.to_string()).collect();
        assert_eq!(ours, std, "{s:?}");
    }
    assert_eq!(string_of(&chars_of("héllo")), "héllo");
}
