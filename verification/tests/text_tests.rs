use shogi_kifu::text::{chars_of, has, has_at, has_prefix, has_suffix, leading_token, parse_digits, parse_number, remove_char, slice_of, split_lines, text_of, trimmed};
use shogi_kifu::text::{after_spaces, before_spaces, digit, next_char, next_space, space};

fn cs(s: &str) -> Vec<char> {
    s.chars().collect()
}

fn st(v: Vec<char>) -> String {
    v.into_iter().collect()
}

#[test]
fn chars_and_text_round_trip() {
    assert_eq!(chars_of("７六歩(77)"), cs("７六歩(77)"));
    assert_eq!(chars_of(""), Vec::<char>::new());
    let v = cs("abcdef");
    assert_eq!(text_of(&v, 0, 6), "abcdef");
    assert_eq!(text_of(&v, 2, 4), "cd");
    assert_eq!(text_of(&v, 3, 3), "");
    assert_eq!(slice_of(&v, 1, 5), cs("bcde"));
}

#[test]
fn remove_char_removes_every_occurrence() {
    assert_eq!(st(remove_char(&cs("成a成b成"), '成')), "ab");
    assert_eq!(st(remove_char(&cs("abc"), 'x')), "abc");
    assert_eq!(st(remove_char(&cs(""), 'x')), "");
}

#[test]
fn searching() {
    let v = cs("12 投了 *時間切れ");
    assert!(has(&v, &cs("投了")));
    assert!(has(&v, &cs("*時間切れ")));
    assert!(!has(&v, &cs("*反則手")));
    assert!(has(&v, &cs("")));
    assert!(!has(&cs("投"), &cs("投了")));
    assert!(has_at(&v, &cs("投了"), 3));
    assert!(!has_at(&v, &cs("投了"), 2));
    assert!(has_at(&v, &cs("切れ"), 9));
    assert!(!has_at(&v, &cs("切れ"), 10));
    assert!(!has_at(&v, &cs("切れ"), 8));
    assert!(has_prefix(&v, &cs("12")));
    assert!(!has_prefix(&v, &cs("2")));
    assert!(has_suffix(&v, &cs("切れ")));
    assert!(!has_suffix(&v, &cs("切")));
    assert!(!has_suffix(&cs("a"), &cs("ba")));
}

#[test]
fn white_space_and_digits() {
    for c in [' ', '\t', '\n', '\r', '\u{b}', '\u{c}', '\u{85}', '\u{a0}', '\u{1680}', '\u{2000}', '\u{200a}', '\u{2028}', '\u{2029}', '\u{202f}', '\u{205f}', '\u{3000}'] {
        assert!(space(c));
    }
    for c in ['a', '0', '\u{200b}', '\u{8}', '\u{e}', '７', '\u{2001}'] {
        assert_eq!(space(c), c.is_whitespace());
    }
    let mut u: u32 = 0;
    while u < 0x3100 {
        if let Some(c) = char::from_u32(u) {
            assert_eq!(space(c), c.is_whitespace());
            assert_eq!(digit(c), c.is_ascii_digit());
        }
        u += 1;
    }
}

#[test]
fn scanning() {
    let v = cs("  ab c) ");
    assert_eq!(after_spaces(&v, 0), 2);
    assert_eq!(after_spaces(&v, 2), 2);
    assert_eq!(after_spaces(&v, 8), 8);
    assert_eq!(next_space(&v, 2), 4);
    assert_eq!(next_space(&v, 5), 7);
    assert_eq!(next_char(&v, ')', 0), 6);
    assert_eq!(next_char(&v, 'x', 0), 8);
    assert_eq!(before_spaces(&v, 8), 7);
    assert_eq!(before_spaces(&v, 2), 0);
}

#[test]
fn trimming() {
    assert_eq!(st(trimmed(&cs("  a b\t\n"))), "a b");
    assert_eq!(st(trimmed(&cs("　全角　"))), "全角");
    assert_eq!(st(trimmed(&cs("   "))), "");
    assert_eq!(st(trimmed(&cs(""))), "");
    assert_eq!(st(trimmed(&cs("x"))), "x");
    assert_eq!(st(leading_token(&cs("  ７四歩打   ( 0:05)"))), "７四歩打");
    assert_eq!(st(leading_token(&cs("abc"))), "abc");
    assert_eq!(st(leading_token(&cs("   "))), "");
}

#[test]
fn numbers() {
    assert_eq!(parse_number(&cs("0"), 100), Some(0));
    assert_eq!(parse_number(&cs("007"), 100), Some(7));
    assert_eq!(parse_number(&cs("100"), 100), Some(100));
    assert_eq!(parse_number(&cs("101"), 100), None);
    assert_eq!(parse_number(&cs("+42"), 100), Some(42));
    assert_eq!(parse_number(&cs("++42"), 100), None);
    assert_eq!(parse_number(&cs("+"), 100), None);
    assert_eq!(parse_number(&cs(""), 100), None);
    assert_eq!(parse_number(&cs("-1"), 100), None);
    assert_eq!(parse_number(&cs("1 "), 100), None);
    assert_eq!(parse_number(&cs("１"), 100), None);
    assert_eq!(parse_number(&cs("18446744073709551615"), u64::MAX), Some(u64::MAX));
    assert_eq!(parse_number(&cs("18446744073709551616"), u64::MAX), None);
    assert_eq!(parse_number(&cs("99999999999999999999999"), u64::MAX), None);
    assert_eq!(parse_digits(&cs("ab12"), 2, 100), Some(12));
    assert_eq!(parse_digits(&cs("ab12"), 4, 100), None);
    assert_eq!(parse_digits(&cs("ab12"), 1, 100), None);
}

#[test]
fn lines_like_the_standard_library() {
    let samples = ["", "a", "a\n", "a\nb", "a\r\nb\r\n", "\n", "\n\n", "a\r", "a\r\n\r\n", "\r\n", "a\n\nb", "a\rb\n", "\r", "x\n\r"];
    for s in samples {
        let got: Vec<String> = split_lines(&cs(s)).into_iter().map(st).collect();
        let want: Vec<String> = s.lines().map(|l| l.to_string()).collect();
        assert_eq!(got, want);
    }
}
