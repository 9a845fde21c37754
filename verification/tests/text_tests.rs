use chicandoit::text::{decimal_string, same_text, signed_decimal_string, split_lines, trim};

#[test]
fn decimal_numerals_have_no_leading_zeros() {
    assert_eq!(decimal_string(0), "0");
    assert_eq!(decimal_string(7), "7");
    assert_eq!(decimal_string(10), "10");
    assert_eq!(decimal_string(1_234_567_890), "1234567890");
    assert_eq!(decimal_string(u128::MAX), "340282366920938463463374607431768211455");
}

#[test]
fn signed_numerals_carry_a_minus_sign() {
    assert_eq!(signed_decimal_string(0), "0");
    assert_eq!(signed_decimal_string(42), "42");
    assert_eq!(signed_decimal_string(-42), "-42");
    assert_eq!(signed_decimal_string(i64::MIN), "-9223372036854775808");
    assert_eq!(signed_decimal_string(i64::MAX), "9223372036854775807");
}

#[test]
fn trim_cuts_whitespace_at_both_ends_only() {
    assert_eq!(trim("  hello world \n"), "hello world");
    assert_eq!(trim("\t\r\n"), "");
    assert_eq!(trim(""), "");
    assert_eq!(trim("x"), "x");
    assert_eq!(trim("\u{00a0}caf\u{00e9} \u{2003}"), "caf\u{00e9}");
    assert_eq!(trim(" a  b "), "a  b");
}

#[test]
fn trim_agrees_with_the_standard_library() {
    for s in ["", " ", "a", " a", "a ", "  a b  ", "\n\ta\u{3000}", "\u{1F389} done \u{1F389}"] {
        assert_eq!(trim(s), s.trim());
    }
}

#[test]
fn lines_end_at_line_feeds() {
    assert_eq!(split_lines(""), vec![String::new()]);
    assert_eq!(split_lines("one"), vec!["one".to_string()]);
    assert_eq!(split_lines("one\ntwo"), vec!["one".to_string(), "two".to_string()]);
    assert_eq!(split_lines("one\n"), vec!["one".to_string(), String::new()]);
    assert_eq!(
        split_lines("\n\u{00e9}t\u{00e9}\n\nz"),
        vec![String::new(), "\u{00e9}t\u{00e9}".to_string(), String::new(), "z".to_string()]
    );
}

#[test]
fn lines_agree_with_the_standard_library() {
    for s in ["", "\n", "a\nb\nc", "\n\n", "a\r\nb", "tail\n"] {
        let expected: Vec<String> = s.split('\n').map(|l| l.to_string()).collect();
        assert_eq!(split_lines(s), expected);
    }
}

#[test]
fn same_text_compares_contents() {
    assert!(same_text("gmail", "gmail"));
    assert!(!same_text("gmail", "Gmail"));
    assert!(!same_text("gmail", "gmail "));
    assert!(same_text("", ""));
}

#[test]
fn basic_whitespace_is_tab_to_carriage_return_and_space() {
    for c in ['\t', '\n', '\u{b}', '\u{c}', '\r', ' '] {
        let s = format!("{}x{}", c, c);
        assert_eq!(trim(&s), "x");
    }
    for c in ['\u{8}', '\u{e}', '\u{1f}', '!', '_', '\u{7f}', '0', 'a'] {
        let s = format!("{}x{}", c, c);
        assert_eq!(trim(&s), s);
    }
}
