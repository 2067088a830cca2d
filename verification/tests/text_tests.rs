use ollama_tui::text::{
    char_is_whitespace, chars_contain, chars_equal, chars_occur_at, chars_spell, chars_start_with,
    field_end, first_word_of, line_end, parse_u32, parse_u64, render_decimal, slice_chars,
    to_chars, trim_bounds, trim_chars,
};

fn chars(text: &str) -> Vec<char> {
    text.chars().collect()
}

fn text(chars: &Vec<char>) -> String {
    chars.iter().collect()
}

#[test]
fn to_chars_gives_each_character() {
    assert_eq!(to_chars("a\u{e9}\u{4e2d}z"), vec!['a', '\u{e9}', '\u{4e2d}', 'z']);
    assert_eq!(to_chars(""), Vec::<char>::new());
}

#[test]
fn whitespace_is_what_the_standard_library_calls_whitespace() {
    let mut code: u32 = 0;
    while code <= 0x10FFFF {
        if let Some(c) = char::from_u32(code) {
            assert_eq!(char_is_whitespace(c), c.is_whitespace(), "U+{:04X}", code);
        }
        code += 1;
    }
}

#[test]
fn trim_agrees_with_the_standard_library() {
    for sample in [
        "",
        " ",
        "abc",
        "  abc",
        "abc  ",
        " \t\r\n abc def \n",
        "\u{a0}37\u{3000}",
        "\u{2003}\u{2028}x\u{85}",
        "a b",
        "\n\n",
        "0x1002\n",
    ] {
        let input = chars(sample);
        assert_eq!(text(&trim_chars(&input)), sample.trim(), "{:?}", sample);
        let (start, end) = trim_bounds(&input);
        assert!(start <= end && end <= input.len());
        assert_eq!(text(&slice_chars(&input, start, end)), sample.trim());
    }
}

#[test]
fn parse_agrees_with_the_standard_library() {
    for sample in [
        "0",
        "7",
        "37",
        "007",
        "+5",
        "+",
        "-1",
        "",
        " 5",
        "5 ",
        "1_000",
        "12a",
        "4294967295",
        "4294967296",
        "18446744073709551615",
        "18446744073709551616",
        "99999999999999999999999",
        "000000000000000000000000000005",
        "++1",
        "+-1",
        "\u{663}",
        "45000",
    ] {
        let input = chars(sample);
        assert_eq!(parse_u32(&input), sample.parse::<u32>().ok(), "{:?}", sample);
        assert_eq!(parse_u64(&input), sample.parse::<u64>().ok(), "{:?}", sample);
    }
}

#[test]
fn parse_gives_the_number_written() {
    assert_eq!(parse_u32(&chars("45000")), Some(45000));
    assert_eq!(parse_u64(&chars("8589934592")), Some(8589934592));
    assert_eq!(parse_u32(&chars("8589934592")), None);
    assert_eq!(parse_u32(&chars("+0")), Some(0));
}

#[test]
fn search_agrees_with_the_standard_library() {
    for (hay, needle) in [
        ("card0", "card"),
        ("card0-render", "render"),
        ("renderD128", "card"),
        ("", ""),
        ("abc", ""),
        ("", "a"),
        ("aaa", "aa"),
        ("abcabd", "abd"),
        ("ab", "abc"),
        ("123 bytes total", "bytes"),
        ("byte", "bytes"),
    ] {
        let input = chars(hay);
        assert_eq!(chars_contain(&input, needle), hay.contains(needle), "{:?} {:?}", hay, needle);
        assert_eq!(
            chars_start_with(&input, needle),
            hay.starts_with(needle),
            "{:?} {:?}",
            hay,
            needle
        );
    }
    assert!(chars_occur_at(&chars("abcabd"), &chars("abd"), 3));
    assert!(!chars_occur_at(&chars("abcabd"), &chars("abd"), 0));
    assert!(!chars_occur_at(&chars("abcabd"), &chars("abd"), 4));
    assert!(!chars_occur_at(&chars("ab"), &chars("b"), usize::MAX));
    assert!(chars_occur_at(&chars("ab"), &chars(""), 2));
}

#[test]
fn equality_compares_every_character() {
    assert!(chars_equal(&chars("0x1002"), &chars("0x1002")));
    assert!(!chars_equal(&chars("0x1002"), &chars("0x1003")));
    assert!(!chars_equal(&chars("0x1002"), &chars("0x100")));
    assert!(chars_spell(&chars(""), ""));
    assert!(chars_spell(&chars("0x8086"), "0x8086"));
    assert!(!chars_spell(&chars("0x8086 "), "0x8086"));
}

#[test]
fn first_word_agrees_with_split_whitespace() {
    for sample in ["", "   ", "123 bytes", "  123\tbytes", "word", "a\u{a0}b", "\n x \n"] {
        let expected = sample.split_whitespace().next().unwrap_or("");
        assert_eq!(text(&first_word_of(&chars(sample))), expected, "{:?}", sample);
    }
}

#[test]
fn fields_end_at_the_stop_character() {
    let input = chars("ab\ncd\n\nef");
    assert_eq!(line_end(&input, 0), 2);
    assert_eq!(line_end(&input, 3), 5);
    assert_eq!(line_end(&input, 6), 6);
    assert_eq!(line_end(&input, 7), 9);
    assert_eq!(line_end(&input, 9), 9);
    let input = chars("a:b:c");
    assert_eq!(field_end(&input, 0, ':'), 1);
    assert_eq!(field_end(&input, 2, ':'), 3);
    assert_eq!(field_end(&input, 4, ':'), 5);
    assert_eq!(field_end(&input, 0, '/'), 5);
}

#[test]
fn decimal_rendering_agrees_with_the_standard_library() {
    for n in [0u64, 1, 9, 10, 11, 99, 100, 101, 1000, 4294967295, u64::MAX] {
        assert_eq!(render_decimal(n), n.to_string());
    }
}

#[test]
fn rendering_then_parsing_gives_the_number_back() {
    for n in [0u64, 5, 10, 12345, 4294967295, 4294967296, u64::MAX] {
        assert_eq!(parse_u64(&to_chars(&render_decimal(n))), Some(n));
    }
}
