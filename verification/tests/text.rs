use llm_term::text::{is_affirmative, is_yes, parse_i32, parse_u64, trim};

#[test]
fn an_answer_is_yes_when_it_reads_y() {
    assert!(is_affirmative("y"));
    assert!(is_affirmative("Y"));
    assert!(is_affirmative("y\n"));
    assert!(is_affirmative("  Y \r\n"));
    assert!(is_affirmative("\ty\t"));
}

#[test]
fn any_other_answer_is_not_yes() {
    assert!(!is_affirmative(""));
    assert!(!is_affirmative("\n"));
    assert!(!is_affirmative("n"));
    assert!(!is_affirmative("yes"));
    assert!(!is_affirmative("y y"));
    assert!(!is_affirmative("ja"));
    assert!(!is_affirmative("1"));
}

#[test]
fn a_folded_answer_is_yes_only_as_a_lower_case_y() {
    assert!(is_yes("y"));
    assert!(!is_yes("Y"));
    assert!(!is_yes(" y"));
    assert!(!is_yes(""));
}

#[test]
fn unsigned_numbers_are_read_from_digits() {
    assert_eq!(parse_u64("0"), Some(0));
    assert_eq!(parse_u64("12"), Some(12));
    assert_eq!(parse_u64("+7"), Some(7));
    assert_eq!(parse_u64("007"), Some(7));
    assert_eq!(parse_u64("18446744073709551615"), Some(u64::MAX));
    assert_eq!(parse_u64("000000000000000000000000000000001"), Some(1));
}

#[test]
fn what_is_not_an_unsigned_number_is_refused() {
    for text in ["", "+", "-", "-1", "-0", "1a", "a1", " 1", "1 ", "1_000", "1.5", "++1", "18446744073709551616", "99999999999999999999999", "１２", "1é"] {
        assert_eq!(parse_u64(text), None, "{:?}", text);
    }
}

#[test]
fn signed_numbers_are_read_from_digits() {
    assert_eq!(parse_i32("0"), Some(0));
    assert_eq!(parse_i32("-0"), Some(0));
    assert_eq!(parse_i32("+0"), Some(0));
    assert_eq!(parse_i32("150"), Some(150));
    assert_eq!(parse_i32("+150"), Some(150));
    assert_eq!(parse_i32("-150"), Some(-150));
    assert_eq!(parse_i32("2147483647"), Some(i32::MAX));
    assert_eq!(parse_i32("-2147483648"), Some(i32::MIN));
    assert_eq!(parse_i32("-0000000000000000002147483648"), Some(i32::MIN));
}

#[test]
fn what_is_not_a_signed_number_is_refused() {
    for text in ["", "+", "-", "--1", "+-1", "1-", "12x", " 12", "12\n", "2147483648", "-2147483649", "99999999999", "0x10", "１"] {
        assert_eq!(parse_i32(text), None, "{:?}", text);
    }
}

#[test]
fn numbers_are_read_as_the_standard_library_reads_them() {
    let samples = [
        "", "0", "1", "+1", "-1", "+", "-", "-0", "+0", "00", "0123", "4096", "128000", "2147483647",
        "2147483648", "-2147483648", "-2147483649", "4294967295", "4294967296", "18446744073709551615",
        "18446744073709551616", "1e3", "1.0", " 1", "1 ", "\t1", "1,000", "١٢٣", "１２３", "12a", "a12", "+-1",
        "-+1", "++1", "0x1f", "９", "-９",
    ];
    for text in samples {
        assert_eq!(parse_u64(text), text.parse::<u64>().ok(), "{:?}", text);
        assert_eq!(parse_i32(text), text.parse::<i32>().ok(), "{:?}", text);
    }
}

#[test]
fn white_space_is_taken_from_both_ends_only() {
    assert_eq!(trim("  list files \n"), "list files");
    assert_eq!(trim("\t\r\n y"), "y");
    assert_eq!(trim("a  b"), "a  b");
    assert_eq!(trim("x"), "x");
    assert_eq!(trim(" x"), "x");
    assert_eq!(trim("x "), "x");
}

#[test]
fn a_text_of_white_space_only_is_trimmed_to_nothing() {
    assert_eq!(trim(""), "");
    assert_eq!(trim(" "), "");
    assert_eq!(trim("\n"), "");
    assert_eq!(trim(" \t\r\n\u{a0}\u{3000} "), "");
}

#[test]
fn text_is_trimmed_as_the_standard_library_trims_it() {
    let samples = [
        "", " ", "a", " a", "a ", " a ", "  a b  ", "\n", "\r\n", "y\r\n", "\u{a0}x\u{a0}",
        "\u{2003}wide\u{2003}", "\u{3000}全角\u{3000}", "\u{85}next line\u{85}", "\u{200b}zero width\u{200b}",
        "\u{feff}mark", "é ", " é", "\u{1680}\u{2028}\u{2029}\u{202f}\u{205f}", "\u{b}\u{c}vt ff\u{c}\u{b}",
        "\u{1c}info\u{1f}", "  \u{200b}  ", "😀 ", " 😀", "a\u{a0}b", "\0 x \0",
    ];
    for text in samples {
        assert_eq!(trim(text), text.trim(), "{:?}", text);
    }
}
