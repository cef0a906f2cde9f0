use rootsmagic_importer::decimal::{i64_text, parse_i64};

#[test]
fn text_of_integers() {
    assert_eq!(i64_text(0), "0");
    assert_eq!(i64_text(7), "7");
    assert_eq!(i64_text(10), "10");
    assert_eq!(i64_text(1234567890), "1234567890");
    assert_eq!(i64_text(-1), "-1");
    assert_eq!(i64_text(-305), "-305");
    assert_eq!(i64_text(i64::MAX), "9223372036854775807");
    assert_eq!(i64_text(i64::MIN), "-9223372036854775808");
}

#[test]
fn integers_of_text() {
    assert_eq!(parse_i64("0"), Some(0));
    assert_eq!(parse_i64("42"), Some(42));
    assert_eq!(parse_i64("-42"), Some(-42));
    assert_eq!(parse_i64("+42"), Some(42));
    assert_eq!(parse_i64("007"), Some(7));
    assert_eq!(parse_i64("-0"), Some(0));
    assert_eq!(parse_i64("9223372036854775807"), Some(i64::MAX));
    assert_eq!(parse_i64("-9223372036854775808"), Some(i64::MIN));
    assert_eq!(parse_i64("00000000000000000000000000000000000000012"), Some(12));
}

#[test]
fn text_that_is_no_integer() {
    for text in [
        "",
        "-",
        "+",
        "+-1",
        "--1",
        "1-",
        "12a",
        "a12",
        " 12",
        "12 ",
        "1_000",
        "1.0",
        "0x10",
        "9223372036854775808",
        "-9223372036854775809",
        "99999999999999999999999",
        "１２",
        "é",
    ] {
        assert_eq!(parse_i64(text), None, "{:?}", text);
    }
}

#[test]
fn reading_agrees_with_the_standard_library() {
    for text in ["", "0", "-0", "+0", "12", "+12", "-12", "0012", "1 2", "９", "9223372036854775807",
        "9223372036854775808", "-9223372036854775808", "-9223372036854775809", "+", "-", "+-3"]
    {
        assert_eq!(parse_i64(text), text.parse::<i64>().ok(), "{:?}", text);
    }
}

#[test]
fn writing_agrees_with_the_standard_library() {
    for n in [0i64, 1, -1, 9, 10, 99, 100, -100, 4611686018427387904, i64::MAX, i64::MIN, i64::MIN + 1] {
        assert_eq!(i64_text(n), n.to_string());
    }
}

#[test]
fn text_round_trips() {
    for n in [0i64, 5, -5, 1000, -1000, 30411, i64::MAX, i64::MIN] {
        assert_eq!(parse_i64(&i64_text(n)), Some(n));
    }
}
