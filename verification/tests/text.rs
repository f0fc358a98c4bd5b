use enoa_signs::text::{i32_to_string, parse_hex, parse_u64, same_text, u64_to_string};

#[test]
fn numbers_are_written_in_decimal() {
    assert_eq!("0", u64_to_string(0));
    assert_eq!("7", u64_to_string(7));
    assert_eq!("10", u64_to_string(10));
    assert_eq!("1234567890", u64_to_string(1_234_567_890));
    assert_eq!("18446744073709551615", u64_to_string(u64::MAX));
    assert_eq!("0", i32_to_string(0));
    assert_eq!("-1", i32_to_string(-1));
    assert_eq!("42", i32_to_string(42));
    assert_eq!("2147483647", i32_to_string(i32::MAX));
    assert_eq!("-2147483648", i32_to_string(i32::MIN));
}

#[test]
fn decimal_text_is_read_back() {
    assert_eq!(Some(0), parse_u64("0"));
    assert_eq!(Some(42), parse_u64("42"));
    assert_eq!(Some(42), parse_u64("+42"));
    assert_eq!(Some(7), parse_u64("007"));
    assert_eq!(Some(u64::MAX), parse_u64("18446744073709551615"));
    for n in [0u64, 1, 9, 10, 99, 100, 719_163, u64::MAX - 1, u64::MAX] {
        assert_eq!(Some(n), parse_u64(&u64_to_string(n)));
        assert_eq!(n.to_string(), u64_to_string(n));
    }
}

#[test]
fn what_is_no_number_is_not_read() {
    assert_eq!(None, parse_u64(""));
    assert_eq!(None, parse_u64("+"));
    assert_eq!(None, parse_u64("-1"));
    assert_eq!(None, parse_u64(" 1"));
    assert_eq!(None, parse_u64("1 "));
    assert_eq!(None, parse_u64("1_000"));
    assert_eq!(None, parse_u64("12a"));
    assert_eq!(None, parse_u64("++1"));
    assert_eq!(None, parse_u64("١٢٣"));
    assert_eq!(None, parse_u64("18446744073709551616"));
    assert_eq!(None, parse_u64("99999999999999999999999"));
    assert_eq!(None, parse_u64("99999999999999999999999x"));
}

#[test]
fn reading_agrees_with_the_standard_library() {
    for text in ["0", "+0", "12", "+12", "", "+", "-0", "0x10", "1e3", "18446744073709551615",
        "18446744073709551616", "000000000000000000000000001"]
    {
        assert_eq!(text.parse::<u64>().ok(), parse_u64(text), "{}", text);
    }
}

#[test]
fn hexadecimal_text_is_read_in_either_case() {
    assert_eq!(Some(vec![]), parse_hex(""));
    assert_eq!(Some(vec![0xbf, 0x7d, 0xea, 0x78]), parse_hex("bf7dea78"));
    assert_eq!(Some(vec![0xbf, 0x7d, 0xea, 0x78]), parse_hex("BF7DEA78"));
    assert_eq!(Some(vec![0x00, 0xff, 0x09, 0xa0]), parse_hex("00Ff09a0"));
    assert_eq!(None, parse_hex("bf7dea7"));
    assert_eq!(None, parse_hex("bf7dea7x"));
    assert_eq!(Some(vec![0x0f]), parse_hex("+f"));
    assert_eq!(Some(vec![0x0a, 0xb1]), parse_hex("+Ab1"));
    assert_eq!(None, parse_hex("f+"));
    assert_eq!(None, parse_hex("++"));
    assert_eq!(None, parse_hex("-f"));
    assert_eq!(None, parse_hex("+g"));
    assert_eq!(None, parse_hex("ßß"));
}

#[test]
fn texts_are_compared_by_their_characters() {
    assert!(same_text("", ""));
    assert!(same_text("sign_roll", "sign_roll"));
    assert!(same_text("знамение", "знамение"));
    assert!(!same_text("sign_roll", "sign_rolls"));
    assert!(!same_text("sign_roll", "sign_rol1"));
    assert!(!same_text("Sign_roll", "sign_roll"));
}
