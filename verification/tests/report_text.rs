use monolog::report::number::{parse_i32, parse_u64, push_i64, push_u64};
use monolog::report::text::{
    chars_of, find_char, is_whitespace, line_at, pad_left, push_chars, replace_char, split_lines,
    text_of, trim_bounds,
};

#[test]
fn parses_numbers_as_std_does() {
    let cases = [
        "", "0", "7", "+7", "-7", "+", "-", "007", "2147483647", "2147483648", "-2147483648",
        "-2147483649", "99999999999999999999", " 1", "1 ", "1_0", "0x10", "1.5", "12a", "+-1",
        "\u{663}", "--1", "+0", "-0", "18446744073709551615", "18446744073709551616",
    ];
    for text in cases {
        assert_eq!(parse_i32(text), text.parse::<i32>().ok(), "i32 of {:?}", text);
        assert_eq!(parse_u64(text), text.parse::<u64>().ok(), "u64 of {:?}", text);
    }
    assert_eq!(parse_i32("-2147483648"), Some(i32::MIN));
    assert_eq!(parse_u64("18446744073709551615"), Some(u64::MAX));
}

#[test]
fn writes_numbers_in_decimal() {
    for value in [0u64, 1, 9, 10, 11, 99, 100, 12345, u64::MAX] {
        let mut out = String::from("n=");
        push_u64(&mut out, value);
        assert_eq!(out, format!("n={}", value));
    }
    for value in [0i64, -1, 1, -10, 42, i64::MAX, i64::MIN, i64::MIN + 1] {
        let mut out = String::new();
        push_i64(&mut out, value);
        assert_eq!(out, format!("{}", value));
    }
}

#[test]
fn white_space_is_what_std_calls_white_space() {
    let mut code = 0u32;
    while code <= 0x3100 {
        if let Some(ch) = char::from_u32(code) {
            assert_eq!(is_whitespace(ch), ch.is_whitespace(), "U+{:04X}", code);
        }
        code += 1;
    }
    assert!(!is_whitespace('\u{feff}'));
    assert!(!is_whitespace('\u{180e}'));
    assert!(!is_whitespace('\u{10ffff}'));
}

#[test]
fn trims_like_std() {
    for text in ["", " ", "a", "  a b \t\r\n", "\u{a0}x\u{3000}", "\u{2003}\u{2003}", " : "] {
        let chars = chars_of(text);
        let (from, to) = trim_bounds(&chars, 0, chars.len());
        assert_eq!(text_of(&chars, from, to), text.trim());
    }
    let chars = chars_of("ab  cd  ef");
    assert_eq!(trim_bounds(&chars, 2, 8), (4, 6));
    assert_eq!(trim_bounds(&chars, 2, 4), (4, 4));
    assert_eq!(trim_bounds(&chars, 3, 3), (3, 3));
}

#[test]
fn finds_and_copies_characters() {
    let chars = chars_of("a:b:c\u{e9}");
    assert_eq!(chars, vec!['a', ':', 'b', ':', 'c', '\u{e9}']);
    assert_eq!(find_char(&chars, 0, 6, ':'), 1);
    assert_eq!(find_char(&chars, 2, 6, ':'), 3);
    assert_eq!(find_char(&chars, 4, 6, ':'), 6);
    assert_eq!(find_char(&chars, 0, 1, ':'), 1);
    assert_eq!(find_char(&chars, 3, 3, ':'), 3);
    let mut out = String::from("<");
    push_chars(&mut out, &chars, 2, 6);
    assert_eq!(out, "<b:c\u{e9}");
    assert_eq!(text_of(&chars, 0, 0), "");
}

#[test]
fn splits_lines_like_std() {
    for text in [
        "", "\n", "a", "a\n", "a\nb", "a\r\nb\r\n", "a\rb", "\r\n", "a\n\nb\n\n", "\r", "x\r",
        "a\n\r", "\n\n", "a\r\r\nb",
    ] {
        let expected: Vec<String> = text.lines().map(|l| l.to_string()).collect();
        assert_eq!(split_lines(text), expected, "lines of {:?}", text);
    }
    let chars = chars_of("ab\r\ncd");
    let first = line_at(&chars, 0);
    assert_eq!((first.end, first.next), (2, 4));
    let second = line_at(&chars, 4);
    assert_eq!((second.end, second.next), (6, 6));
}

#[test]
fn pads_to_the_left() {
    assert_eq!(pad_left("7", 2, '0'), "07");
    assert_eq!(pad_left("", 3, '*'), "***");
    assert_eq!(pad_left("123", 2, '0'), "123");
    assert_eq!(pad_left("a b", 5, '-'), "--a-b");
    assert_eq!(pad_left("a b", 0, '-'), "a-b");
    assert_eq!(pad_left("\u{e9}", 2, ' '), " \u{e9}");
    for (text, width) in [("5", 2usize), ("xy ", 6), ("", 0)] {
        let expected = format!("{:>width$}", text, width = width).replace(' ', "0");
        assert_eq!(pad_left(text, width, '0'), expected);
    }
}

#[test]
fn replaces_every_occurrence() {
    assert_eq!(replace_char("a b  c", ' ', '_'), "a_b__c");
    assert_eq!(replace_char("C:\\x\\y", '\\', '/'), "C:/x/y");
    assert_eq!(replace_char("", 'a', 'b'), "");
    assert_eq!(replace_char("aaa", 'a', 'a'), "aaa");
}
