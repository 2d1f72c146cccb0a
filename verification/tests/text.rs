use nyx_agent::modules::text::{
    chars_of, decimal_text, parse_decimal, same_text, same_text_ignoring_ascii_case, signed_text,
};

fn parse(s: &str) -> Option<u32> {
    parse_decimal(s)
}

#[test]
fn same_text_compares_characters() {
    assert!(same_text("", ""));
    assert!(same_text("wheel", "wheel"));
    assert!(same_text("été", "été"));
    assert!(!same_text("wheel", "wheeL"));
    assert!(!same_text("wheel", "wheels"));
    assert!(!same_text("a", ""));
}

#[test]
fn chars_of_gives_the_characters() {
    assert_eq!(chars_of(""), Vec::<char>::new());
    assert_eq!(chars_of("aé(1)"), vec!['a', 'é', '(', '1', ')']);
}

#[test]
fn case_is_folded_on_the_left_only() {
    assert!(same_text_ignoring_ascii_case("LeFt", "left"));
    assert!(same_text_ignoring_ascii_case("left", "left"));
    assert!(!same_text_ignoring_ascii_case("left", "LEFT"));
    assert!(!same_text_ignoring_ascii_case("lefT ", "left"));
    assert!(!same_text_ignoring_ascii_case("ÉTÉ", "été"));
    assert!(same_text_ignoring_ascii_case("[Z@", "[z@"));
}

#[test]
fn decimal_text_of_numbers() {
    assert_eq!(decimal_text(0), "0");
    assert_eq!(decimal_text(9), "9");
    assert_eq!(decimal_text(10), "10");
    assert_eq!(decimal_text(1905), "1905");
    assert_eq!(decimal_text(u32::MAX), "4294967295");
}

#[test]
fn parse_u32_accepts_digits_with_optional_plus() {
    assert_eq!(parse("0"), Some(0));
    assert_eq!(parse("+0"), Some(0));
    assert_eq!(parse("000123"), Some(123));
    assert_eq!(parse("+42"), Some(42));
    assert_eq!(parse("4294967295"), Some(u32::MAX));
    assert_eq!(parse("0004294967295"), Some(u32::MAX));
}

#[test]
fn parse_u32_rejects_everything_else() {
    for s in ["", "+", "-1", "++1", "1+", "4294967296", "42949672950", "12a", "a12", " 1", "1 ", "1_000", "٣"] {
        assert_eq!(parse(s), None, "{}", s);
    }
}

#[test]
fn parse_u32_agrees_with_the_standard_parser() {
    for s in ["7", "+7", "007", "", "+", "4294967295", "4294967296", "9999999999", "1x", "-0"] {
        assert_eq!(parse(s), s.parse::<u32>().ok(), "{}", s);
    }
}

#[test]
fn signed_text_of_numbers() {
    assert_eq!(signed_text(0), "0");
    assert_eq!(signed_text(404), "404");
    assert_eq!(signed_text(-1), "-1");
    assert_eq!(signed_text(i32::MAX), "2147483647");
    assert_eq!(signed_text(i32::MIN), "-2147483648");
}
