use kinton_agent::text::{bytes_eq, parse_decimal, push_decimal, push_word, str_eq, text_of, NumberError};

#[test]
fn bytes_are_compared_one_by_one() {
    assert!(bytes_eq(b"", b""));
    assert!(bytes_eq(b"mono", b"mono"));
    assert!(!bytes_eq(b"mono", b"monO"));
    assert!(!bytes_eq(b"mono", b"mon"));
    assert!(!bytes_eq(b"", b"x"));
}

#[test]
fn strings_are_compared_by_their_characters() {
    assert!(str_eq("bright", "bright"));
    assert!(!str_eq("bright", "fw_ver"));
    assert!(!str_eq("id", "ids"));
    assert!(str_eq("caf\u{e9}", "caf\u{e9}"));
}

#[test]
fn decimal_numbers_are_read() {
    assert_eq!(parse_decimal(b"0", 255), Ok(0));
    assert_eq!(parse_decimal(b"50", 255), Ok(50));
    assert_eq!(parse_decimal(b"255", 255), Ok(255));
    assert_eq!(parse_decimal(b"+7", 255), Ok(7));
    assert_eq!(parse_decimal(b"007", 255), Ok(7));
    assert_eq!(parse_decimal(b"16711680", u32::MAX), Ok(16711680));
    assert_eq!(parse_decimal(b"4294967295", u32::MAX), Ok(4294967295));
    assert_eq!(parse_decimal(b"0", 0), Ok(0));
}

#[test]
fn what_is_no_decimal_number_is_refused() {
    for text in ["", "+", "-1", "abc", "12a", " 12", "12 ", "1.5", "++1", "0x10"] {
        assert_eq!(parse_decimal(text.as_bytes(), 255), Err(NumberError::NotDecimal), "{:?}", text);
    }
    assert_eq!(parse_decimal(b"99999999999999999999x", 255), Err(NumberError::NotDecimal));
}

#[test]
fn numbers_above_the_limit_are_too_large() {
    assert_eq!(parse_decimal(b"256", 255), Err(NumberError::TooLarge));
    assert_eq!(parse_decimal(b"1", 0), Err(NumberError::TooLarge));
    assert_eq!(parse_decimal(b"4294967296", u32::MAX), Err(NumberError::TooLarge));
    assert_eq!(parse_decimal(b"99999999999999999999", u32::MAX), Err(NumberError::TooLarge));
}

#[test]
fn numbers_are_written_in_decimal() {
    let mut out = Vec::from("n=");
    push_decimal(&mut out, 0);
    push_word(&mut out, ",");
    push_decimal(&mut out, 1982);
    push_word(&mut out, ",");
    push_decimal(&mut out, u64::MAX);
    assert_eq!(out, b"n=0,1982,18446744073709551615");
}

#[test]
fn a_written_number_is_read_back() {
    for n in [0u32, 1, 9, 10, 99, 100, 359, 65535, 16711680, u32::MAX] {
        let mut text = Vec::new();
        push_decimal(&mut text, n as u64);
        assert_eq!(parse_decimal(&text, u32::MAX), Ok(n));
    }
}

#[test]
fn text_is_read_from_utf8() {
    assert_eq!(text_of(b"Lamp"), Some(String::from("Lamp")));
    assert_eq!(text_of(b""), Some(String::new()));
    assert_eq!(text_of("caf\u{e9} \u{1f4a1}".as_bytes()), Some(String::from("caf\u{e9} \u{1f4a1}")));
    assert_eq!(text_of(&[0xff]), None);
    assert_eq!(text_of(&[0xc3]), None);
    assert_eq!(text_of(&[0xed, 0xa0, 0x80]), None);
    assert_eq!(text_of(&[0xc0, 0x80]), None);
}
