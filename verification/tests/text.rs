use abbyterm::text::{is_marked, mark_spaces, trim_marked, words_marked};
use abbyterm::text::{
    chars_of, contains_char, copy_range, decimal_string, join_from, lines_of, parse_u16_chars,
    split_chars, string_of, strip_cr_chars, to_string, trim_chars, words_of,
};

fn chars(s: &str) -> Vec<char> {
    s.chars().collect()
}

fn strings(v: Vec<Vec<char>>) -> Vec<String> {
    v.into_iter().map(|p| p.into_iter().collect()).collect()
}

#[test]
fn chars_and_strings_round_trip() {
    assert_eq!(chars_of("héllo"), vec!['h', 'é', 'l', 'l', 'o']);
    assert_eq!(chars_of(""), Vec::<char>::new());
    assert_eq!(to_string(&chars("naïve ✓")), "naïve ✓");
    assert_eq!(string_of(&chars("abcdef"), 2, 4), "cd");
    assert_eq!(string_of(&chars("abcdef"), 3, 3), "");
    assert_eq!(copy_range(&chars("abcdef"), 1, 6), chars("bcdef"));
}

#[test]
fn split_keeps_empty_pieces() {
    assert_eq!(strings(split_chars(&chars("a|b||c"), '|')), vec!["a", "b", "", "c"]);
    assert_eq!(strings(split_chars(&chars(""), '|')), vec![""]);
    assert_eq!(strings(split_chars(&chars("|"), '|')), vec!["", ""]);
    assert_eq!(strings(split_chars(&chars("abc"), '|')), vec!["abc"]);
}

#[test]
fn split_agrees_with_std() {
    for input in ["", "a", "a:b", ":a:", "::", "x:y:z:", "no separator"] {
        let expected: Vec<String> = input.split(':').map(|s| s.to_string()).collect();
        assert_eq!(strings(split_chars(&chars(input), ':')), expected, "input {:?}", input);
    }
}

#[test]
fn lines_agree_with_std() {
    for input in [
        "",
        "a",
        "a\n",
        "a\nb",
        "a\r\nb\r\n",
        "a\r\nb\r",
        "\n",
        "\n\n",
        "a\n\rb",
        "\r\n",
        "\r",
        "one\n\ntwo\n",
    ] {
        let expected: Vec<String> = input.lines().map(|s| s.to_string()).collect();
        assert_eq!(strings(lines_of(&chars(input))), expected, "input {:?}", input);
    }
}

#[test]
fn carriage_return_is_stripped_once() {
    assert_eq!(strip_cr_chars(&chars("abc\r")), chars("abc"));
    assert_eq!(strip_cr_chars(&chars("abc\r\r")), chars("abc\r"));
    assert_eq!(strip_cr_chars(&chars("abc")), chars("abc"));
    assert_eq!(strip_cr_chars(&chars("")), chars(""));
}

#[test]
fn trim_agrees_with_std() {
    for input in [
        "",
        " ",
        "  a  ",
        "\t a b \n",
        "a",
        "\u{2003}x y\u{a0}",
        "\u{3000}",
        "é ",
        " _ ",
    ] {
        assert_eq!(to_string(&trim_chars(&chars(input))), input.trim(), "input {:?}", input);
    }
}

#[test]
fn words_agree_with_std() {
    for input in [
        "",
        "   ",
        "a",
        " a",
        "a ",
        "a b",
        "  NAME   READY\tSTATUS  ",
        "x\u{a0}y",
        "one\ntwo",
    ] {
        let expected: Vec<String> = input.split_whitespace().map(|s| s.to_string()).collect();
        assert_eq!(strings(words_of(&chars(input))), expected, "input {:?}", input);
    }
}

#[test]
fn join_puts_separator_between_pieces() {
    let parts: Vec<Vec<char>> = vec![chars("Host"), chars("a"), chars("b"), chars("c")];
    assert_eq!(join_from(&parts, 1, " "), "a b c");
    assert_eq!(join_from(&parts, 0, ", "), "Host, a, b, c");
    assert_eq!(join_from(&parts, 3, " "), "c");
    assert_eq!(join_from(&parts, 4, " "), "");
}

#[test]
fn decimal_of_numbers() {
    assert_eq!(decimal_string(0), "0");
    assert_eq!(decimal_string(7), "7");
    assert_eq!(decimal_string(10), "10");
    assert_eq!(decimal_string(4242), "4242");
    assert_eq!(decimal_string(-1), "-1");
    assert_eq!(decimal_string(-305), "-305");
    assert_eq!(decimal_string(i64::MAX), "9223372036854775807");
    assert_eq!(decimal_string(i64::MIN), "-9223372036854775808");
}

#[test]
fn parse_u16_agrees_with_std() {
    for input in [
        "0", "22", "+22", "0022", "65535", "65536", "99999", "", "+", "-1", "-0", "2 2", " 22",
        "22 ", "2a", "++2", "4294967318", "١٢",
    ] {
        let expected: Option<u16> = input.parse::<u16>().ok();
        assert_eq!(parse_u16_chars(&chars(input)), expected, "input {:?}", input);
    }
    assert_eq!(parse_u16_chars(&chars("2222")), Some(2222));
    assert_eq!(parse_u16_chars(&chars("65536")), None);
}

#[test]
fn contains_char_finds_occurrences() {
    assert!(contains_char(&chars("web-*"), '*'));
    assert!(contains_char(&chars("?"), '?'));
    assert!(!contains_char(&chars("web-1"), '*'));
    assert!(!contains_char(&chars(""), '*'));
}

#[test]
fn marks_say_where_the_white_space_is() {
    assert_eq!(mark_spaces(&chars(" a\tb\u{a0}")), vec![true, false, true, false, true]);
    assert_eq!(mark_spaces(&chars("")), Vec::<bool>::new());
    assert_eq!(mark_spaces(&chars("_-é")), vec![false, false, false]);
}

#[test]
fn marked_ends_are_trimmed() {
    let v = chars("xxabxcxx");
    let marks: Vec<bool> = vec![true, true, false, false, true, false, true, true];
    assert_eq!(trim_marked(&v, &marks), chars("abxc"));
    assert_eq!(trim_marked(&v, &vec![true; 8]), chars(""));
    assert_eq!(trim_marked(&v, &vec![false; 8]), v);
    assert_eq!(trim_marked(&v, &vec![]), v);
    assert_eq!(trim_marked(&v, &vec![true, true]), chars("abxcxx"));
    assert_eq!(trim_marked(&chars(""), &vec![true]), chars(""));
}

#[test]
fn unmarked_runs_are_words() {
    let v = chars("ab,cd,,e");
    let marks: Vec<bool> = vec![false, false, true, false, false, true, true, false];
    assert_eq!(strings(words_marked(&v, &marks)), vec!["ab", "cd", "e"]);
    assert_eq!(strings(words_marked(&v, &vec![])), vec!["ab,cd,,e"]);
    assert_eq!(strings(words_marked(&v, &vec![true; 8])), Vec::<String>::new());
    assert_eq!(strings(words_marked(&v, &vec![true])), vec!["b,cd,,e"]);
    assert!(is_marked(&marks, 2));
    assert!(!is_marked(&marks, 0));
    assert!(!is_marked(&marks, 8));
}
