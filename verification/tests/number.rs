use steam_gif::number::{decimal_string, parse_number, push_decimal, read_number};

#[test]
fn parse_number_reads_digits() {
    assert_eq!(parse_number("15"), Some(15));
    assert_eq!(parse_number("0"), Some(0));
    assert_eq!(parse_number("90"), Some(90));
}

#[test]
fn parse_number_accepts_a_plus_sign_and_leading_zeros() {
    assert_eq!(parse_number("+24"), Some(24));
    assert_eq!(parse_number("00015"), Some(15));
    assert_eq!(parse_number("+000"), Some(0));
    assert_eq!(parse_number("0000000000000000000000000000000000000000007"), Some(7));
}

#[test]
fn parse_number_refuses_empty_and_sign_alone() {
    assert_eq!(parse_number(""), None);
    assert_eq!(parse_number("+"), None);
    assert_eq!(parse_number("-"), None);
}

#[test]
fn parse_number_refuses_text_that_is_no_number() {
    assert_eq!(parse_number("abc"), None);
    assert_eq!(parse_number("-1"), None);
    assert_eq!(parse_number("1.5"), None);
    assert_eq!(parse_number("15fps"), None);
    assert_eq!(parse_number("1 5"), None);
    assert_eq!(parse_number(" 15"), None);
    assert_eq!(parse_number("++1"), None);
    assert_eq!(parse_number("1+"), None);
    assert_eq!(parse_number("1_000"), None);
    assert_eq!(parse_number("\u{663}"), None);
}

#[test]
fn parse_number_stops_at_32_bits() {
    assert_eq!(parse_number("4294967295"), Some(u32::MAX));
    assert_eq!(parse_number("4294967296"), None);
    assert_eq!(parse_number("42949672950"), None);
    assert_eq!(parse_number("99999999999999999999999999"), None);
    assert_eq!(parse_number("4294967296x"), None);
}

#[test]
fn parse_number_agrees_with_std() {
    for text in [
        "", "0", "7", "15", "+15", "-15", "+", "-", "+-1", "0x10", "1e3", "015", "4294967295",
        "4294967296", "18446744073709551616", " 1", "1 ", "1\n", "١٢", "12a", "a12",
    ] {
        assert_eq!(parse_number(text), text.parse::<u32>().ok(), "on {:?}", text);
    }
}

#[test]
fn read_number_sets_white_space_aside() {
    assert_eq!(read_number(" 24 \r\n", 15), 24);
    assert_eq!(read_number("30\n", 15), 30);
    assert_eq!(read_number("\t+8", 15), 8);
}

#[test]
fn read_number_falls_back_on_empty_line() {
    assert_eq!(read_number("", 15), 15);
    assert_eq!(read_number("\n", 15), 15);
    assert_eq!(read_number("   \r\n", 90), 90);
}

#[test]
fn read_number_falls_back_on_text() {
    assert_eq!(read_number("fast\n", 15), 15);
    assert_eq!(read_number("12 fps\n", 15), 15);
    assert_eq!(read_number("-3\n", 90), 90);
    assert_eq!(read_number("4294967296\n", 90), 90);
}

#[test]
fn read_number_keeps_zero() {
    assert_eq!(read_number("0\n", 15), 0);
}

#[test]
fn decimal_string_writes_base_ten() {
    assert_eq!(decimal_string(0), "0");
    assert_eq!(decimal_string(7), "7");
    assert_eq!(decimal_string(10), "10");
    assert_eq!(decimal_string(15), "15");
    assert_eq!(decimal_string(90), "90");
    assert_eq!(decimal_string(1234567890), "1234567890");
    assert_eq!(decimal_string(u32::MAX), "4294967295");
}

#[test]
fn decimal_string_agrees_with_std() {
    for n in [0u32, 1, 9, 10, 11, 99, 100, 101, 616, 65535, 65536, 999999999, 1000000000, u32::MAX - 1] {
        assert_eq!(decimal_string(n), n.to_string());
    }
}

#[test]
fn push_decimal_appends() {
    let mut text = String::from("fps=");
    push_decimal(&mut text, 15);
    assert_eq!(text, "fps=15");
    push_decimal(&mut text, 0);
    assert_eq!(text, "fps=150");
}

#[test]
fn what_is_written_reads_back() {
    for n in [0u32, 5, 15, 90, 128, 616, 40000, u32::MAX] {
        assert_eq!(parse_number(&decimal_string(n)), Some(n));
    }
}
