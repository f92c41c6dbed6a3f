use reaction_bot::number::{decimal_chars, parse_i32, parse_i64};
use reaction_bot::text::{
    chars_of, contains, find_with_prefix, is_space_char, lowercase_chars, matches_at, remove_char,
    remove_spaces,
    same_chars, same_text, split, split_lines, starts_with, string_of, strip_leading,
    strip_trailing, trim,
};

fn cs(s: &str) -> Vec<char> {
    s.chars().collect()
}

#[test]
fn chars_and_strings_round_trip() {
    assert_eq!(chars_of("a₽б"), vec!['a', '₽', 'б']);
    assert_eq!(string_of(&vec!['a', '₽', 'б']), "a₽б");
    assert_eq!(chars_of(""), Vec::<char>::new());
}

#[test]
fn same_chars_compares_contents() {
    assert!(same_chars(&cs("abc"), &cs("abc")));
    assert!(!same_chars(&cs("abc"), &cs("abd")));
    assert!(!same_chars(&cs("abc"), &cs("ab")));
}

#[test]
fn matches_at_checks_bounds_and_contents() {
    let text = cs("hello world");
    assert!(matches_at(&text, &cs("world"), 6));
    assert!(!matches_at(&text, &cs("world"), 5));
    assert!(!matches_at(&text, &cs("world"), 7));
    assert!(matches_at(&text, &cs(""), 11));
    assert!(!matches_at(&text, &cs(""), 12));
    assert!(!matches_at(&text, &cs("x"), usize::MAX));
}

#[test]
fn starts_with_agrees_with_std() {
    for (text, pattern) in [("Банк: Сбер", "Банк: "), ("банк: x", "Банк: "), ("", ""), ("a", "ab")] {
        assert_eq!(starts_with(&cs(text), &cs(pattern)), text.starts_with(pattern));
    }
}

#[test]
fn contains_agrees_with_std() {
    let cases = [
        ("т-банк", "банк"),
        ("abc", ""),
        ("", ""),
        ("", "a"),
        ("aab", "ab"),
        ("abab", "bab"),
        ("abc", "abcd"),
        ("abc", "c"),
        ("abc", "d"),
    ];
    for (text, pattern) in cases {
        assert_eq!(contains(&cs(text), &cs(pattern)), text.contains(pattern), "{text:?} {pattern:?}");
    }
}

#[test]
fn is_space_char_agrees_with_std_on_every_char() {
    let mut code: u32 = 0;
    while code <= 0x10FFFF {
        if let Some(c) = char::from_u32(code) {
            assert_eq!(is_space_char(c), c.is_whitespace(), "U+{code:04X}");
        }
        code += 1;
    }
}

#[test]
fn trim_agrees_with_std() {
    for text in ["", " ", "  a b \t\n", "a", "\u{3000}x\u{a0}", " /list ", "x  "] {
        assert_eq!(string_of(&trim(&cs(text))), text.trim(), "{text:?}");
    }
}

#[test]
fn strip_leading_agrees_with_std() {
    let cases = [
        ("Банк: Банк: Сбер", "Банк: "),
        ("Банк: ", "Банк: "),
        ("aaa", "a"),
        ("aab", "aa"),
        ("abc", "x"),
        ("abc", ""),
        ("", "a"),
    ];
    for (text, pattern) in cases {
        assert_eq!(
            string_of(&strip_leading(&cs(text), &cs(pattern))),
            text.trim_start_matches(pattern),
            "{text:?} {pattern:?}"
        );
    }
}

#[test]
fn strip_trailing_agrees_with_std() {
    let cases = [("dir///", "/"), ("dir", "/"), ("", "/"), ("abab", "ab"), ("aba", "ab"), ("x", "")];
    for (text, pattern) in cases {
        assert_eq!(
            string_of(&strip_trailing(&cs(text), &cs(pattern))),
            text.trim_end_matches(pattern),
            "{text:?} {pattern:?}"
        );
    }
}

#[test]
fn split_agrees_with_std() {
    for text in ["", ",", "a", "a,b", ",a,,b,", "1, 2 ,3"] {
        let ours: Vec<String> = split(&cs(text), ',').iter().map(string_of).collect();
        let theirs: Vec<String> = text.split(',').map(String::from).collect();
        assert_eq!(ours, theirs, "{text:?}");
    }
}

#[test]
fn same_text_compares_strings() {
    assert!(same_text("ok", "ok"));
    assert!(!same_text("ok", "oк"));
    assert!(same_text("", ""));
}

#[test]
fn remove_char_drops_every_occurrence() {
    assert_eq!(string_of(&remove_char(&cs(" 12 000 "), ' ')), "12000");
    assert_eq!(string_of(&remove_char(&cs("12\t000"), ' ')), "12\t000");
    assert_eq!(string_of(&remove_char(&cs(""), ' ')), "");
}

#[test]
fn remove_spaces_drops_every_white_space_character() {
    for text in ["", " 12\t000\n", "a b", "\u{a0}x\u{2009}y\u{3000}", "none"] {
        let expected: String = text.chars().filter(|c| !c.is_whitespace()).collect();
        assert_eq!(string_of(&remove_spaces(&cs(text))), expected, "{text:?}");
    }
}

#[test]
fn split_lines_agrees_with_std() {
    let cases = [
        "",
        "\n",
        "a",
        "a\n",
        "a\nb",
        "a\r\nb\r\n",
        "a\r",
        "a\r\n\r\nb",
        "\r\n",
        "\n\n",
        "a\rb\nc",
        "Сумма: 1 ₽\nБанк: Сбер\nРеквизит: 1",
    ];
    for text in cases {
        let ours: Vec<String> = split_lines(&cs(text)).iter().map(string_of).collect();
        let theirs: Vec<String> = text.lines().map(String::from).collect();
        assert_eq!(ours, theirs, "{text:?}");
    }
}

#[test]
fn find_with_prefix_returns_the_first_match() {
    let lines = vec![cs("x Банк: a"), cs("Банк: b"), cs("Банк: c")];
    assert_eq!(find_with_prefix(&lines, &cs("Банк: ")), Some(1));
    assert_eq!(find_with_prefix(&lines, &cs("Реквизит: ")), None);
    assert_eq!(find_with_prefix(&Vec::new(), &cs("")), None);
}

#[test]
fn lowercase_chars_folds_both_scripts() {
    assert_eq!(string_of(&lowercase_chars(&cs("Т-Банк SBER"))), "т-банк sber");
}

#[test]
fn parse_i32_agrees_with_std() {
    let cases = [
        "0", "12000", "-1", "+7", "-0", "+", "-", "", " 1", "1 ", "2147483647", "2147483648",
        "-2147483648", "-2147483649", "00000000000000000000000012", "12a", "٣", "1_0",
        "99999999999999999999999999",
    ];
    for text in cases {
        assert_eq!(parse_i32(&cs(text)), text.parse::<i32>().ok(), "{text:?}");
    }
}

#[test]
fn parse_i64_agrees_with_std() {
    let cases = [
        "0", "-1001234567890", "+9223372036854775807", "9223372036854775808",
        "-9223372036854775808", "-9223372036854775809", "", "-", "1.5",
        "000000000000000000000000000000000000000001",
    ];
    for text in cases {
        assert_eq!(parse_i64(&cs(text)), text.parse::<i64>().ok(), "{text:?}");
    }
}

#[test]
fn decimal_chars_agrees_with_std() {
    for n in [0i64, 7, 10, 38000, -1, -50000, i64::MAX, i64::MIN, 1000000007] {
        assert_eq!(string_of(&decimal_chars(n)), n.to_string());
    }
}

#[test]
fn decimal_text_reads_back() {
    for n in [0i32, 38000, 50000, -12, i32::MAX, i32::MIN] {
        assert_eq!(parse_i32(&decimal_chars(n as i64)), Some(n));
    }
}
