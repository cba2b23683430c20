use easy_sqlx_core::text::{
    chars_of, contains_char, eq_ignoring_case, has_prefix, has_suffix, isize_to_string,
    join_strings, parse_isize, same_text, split_at, trim, usize_to_string,
};

#[test]
fn chars_of_keeps_order() {
    assert_eq!(chars_of("a.b"), vec!['a', '.', 'b']);
    assert_eq!(chars_of(""), Vec::<char>::new());
}

#[test]
fn same_text_compares_characters() {
    assert!(same_text("abc", "abc"));
    assert!(!same_text("abc", "abd"));
    assert!(!same_text("abc", "ab"));
}

#[test]
fn decimal_of_unsigned_numbers() {
    assert_eq!(usize_to_string(0), "0");
    assert_eq!(usize_to_string(7), "7");
    assert_eq!(usize_to_string(10), "10");
    assert_eq!(usize_to_string(1203), "1203");
    assert_eq!(usize_to_string(usize::MAX), usize::MAX.to_string());
}

#[test]
fn decimal_of_signed_numbers() {
    assert_eq!(isize_to_string(0), "0");
    assert_eq!(isize_to_string(255), "255");
    assert_eq!(isize_to_string(-1), "-1");
    assert_eq!(isize_to_string(isize::MIN), isize::MIN.to_string());
    assert_eq!(isize_to_string(isize::MAX), isize::MAX.to_string());
}

#[test]
fn parse_isize_reads_what_std_reads() {
    for text in [
        "0", "30", "+5", "-5", "007", "", "+", "-", "5a", " 5", "5 ", "1+1", "*",
        "9223372036854775807", "9223372036854775808", "-9223372036854775808",
        "-9223372036854775809", "99999999999999999999999", "--1", "+-1",
    ] {
        assert_eq!(parse_isize(text), text.parse::<isize>().ok(), "parsing {:?}", text);
    }
}

#[test]
fn trim_removes_white_space_at_both_ends() {
    for text in ["", " ", "a", " a", "a ", "  a b  ", "\t\na\u{a0}", "\u{3000}x y\u{2003}"] {
        assert_eq!(trim(text), text.trim(), "trimming {:?}", text);
    }
}

#[test]
fn split_at_cuts_like_std() {
    for text in ["", "a", "a,b", "a, b", ",", "a,", ",a", "a,,b", ",,"] {
        let expected: Vec<String> = text.split(",").map(|s| s.to_string()).collect();
        assert_eq!(split_at(text, ','), expected, "splitting {:?}", text);
    }
}

#[test]
fn join_strings_puts_separator_between() {
    let none: Vec<String> = vec![];
    assert_eq!(join_strings(&none, ","), "");
    assert_eq!(join_strings(&vec!["a".to_string()], ","), "a");
    assert_eq!(join_strings(&vec!["a".to_string(), "b".to_string(), "c".to_string()], ", "), "a, b, c");
}

#[test]
fn prefix_suffix_and_contains() {
    assert!(has_prefix("nextval('s'::regclass)", "nextval("));
    assert!(!has_prefix("next", "nextval("));
    assert!(has_prefix("abc", ""));
    assert!(has_suffix("user_pkey", "_pkey"));
    assert!(!has_suffix("pkey", "_pkey"));
    assert!(contains_char("public.user", '.'));
    assert!(!contains_char("user", '.'));
}

#[test]
fn eq_ignoring_case_uses_upper_case() {
    assert!(eq_ignoring_case("User", "uSER"));
    assert!(!eq_ignoring_case("user", "users"));
    assert!(eq_ignoring_case("stra\u{df}e", "STRASSE"));
}
