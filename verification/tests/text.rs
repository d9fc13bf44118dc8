use duwet::text::{int_to_text, parse_i32, pop_char, push_decimal, trim};

#[test]
fn parse_plain_number() {
    assert_eq!(parse_i32("10"), Some(10));
    assert_eq!(parse_i32("007"), Some(7));
    assert_eq!(parse_i32("0"), Some(0));
}

#[test]
fn parse_signs() {
    assert_eq!(parse_i32("+7"), Some(7));
    assert_eq!(parse_i32("-5"), Some(-5));
    assert_eq!(parse_i32("-0"), Some(0));
    assert_eq!(parse_i32("+"), None);
    assert_eq!(parse_i32("-"), None);
    assert_eq!(parse_i32("+-1"), None);
}

#[test]
fn parse_rejects_other_text() {
    assert_eq!(parse_i32(""), None);
    assert_eq!(parse_i32("1a"), None);
    assert_eq!(parse_i32(" 1"), None);
    assert_eq!(parse_i32("1 "), None);
    assert_eq!(parse_i32("1_000"), None);
    assert_eq!(parse_i32("٣"), None);
}

#[test]
fn parse_limits() {
    assert_eq!(parse_i32("2147483647"), Some(i32::MAX));
    assert_eq!(parse_i32("2147483648"), None);
    assert_eq!(parse_i32("-2147483648"), Some(i32::MIN));
    assert_eq!(parse_i32("-2147483649"), None);
    assert_eq!(parse_i32("99999999999999999999999"), None);
    assert_eq!(parse_i32("99999999999x"), None);
}

#[test]
fn parse_agrees_with_std() {
    let samples = [
        "", "0", "12", "+12", "-12", "12x", "x", "2147483647", "2147483648", "-2147483648",
        "-2147483649", "+", "-", "00000000000000000042", " 3", "3\n",
    ];
    for s in samples.iter() {
        assert_eq!(parse_i32(s), s.parse::<i32>().ok(), "input {:?}", s);
    }
}

#[test]
fn trim_both_ends() {
    assert_eq!(trim("  ab c \t\n"), "ab c");
    assert_eq!(trim("\u{3000}x\u{00A0}"), "x");
    assert_eq!(trim("\u{2028}\u{85}y\u{200A}"), "y");
    assert_eq!(trim(""), "");
    assert_eq!(trim("   "), "");
    assert_eq!(trim("a"), "a");
}

#[test]
fn trim_agrees_with_std() {
    let samples = ["", " ", " a ", "\tab\r\n", "\u{1680}z\u{205F}", "a b", "\u{200B}q"];
    for s in samples.iter() {
        assert_eq!(trim(s), s.trim(), "input {:?}", s);
    }
}

#[test]
fn decimal_text() {
    assert_eq!(int_to_text(0), "0");
    assert_eq!(int_to_text(-42), "-42");
    assert_eq!(int_to_text(1234567), "1234567");
    assert_eq!(int_to_text(i64::MIN), "-9223372036854775808");
    assert_eq!(int_to_text(i64::MAX), "9223372036854775807");
    let mut s = String::from("n=");
    push_decimal(&mut s, 905);
    assert_eq!(s, "n=905");
}

#[test]
fn written_quantity_reads_back() {
    for n in [0i32, 1, -1, 10, -10, i32::MAX, i32::MIN, 123456] {
        assert_eq!(parse_i32(&int_to_text(n as i64)), Some(n));
    }
}

#[test]
fn pop_char_on_empty_and_full() {
    let mut s = String::new();
    pop_char(&mut s);
    assert_eq!(s, "");
    let mut t = String::from("ab•");
    pop_char(&mut t);
    assert_eq!(t, "ab");
}
