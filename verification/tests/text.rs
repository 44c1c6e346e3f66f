use czkawka_gui::text::{
    char_is_whitespace, chars_of, copy_range, equals, normalize_newlines, push_decimal, split,
    starts_with, string_of, to_lower, to_lower_char, trim,
};

fn chars(s: &str) -> Vec<char> {
    s.chars().collect()
}

fn text(v: &Vec<char>) -> String {
    v.iter().collect()
}

#[test]
fn whitespace_is_what_the_standard_library_calls_whitespace() {
    let mut code: u32 = 0;
    while code <= 0x10FFFF {
        if let Some(c) = char::from_u32(code) {
            assert_eq!(char_is_whitespace(c), c.is_whitespace(), "U+{:04X}", code);
        }
        code += 1;
    }
}

#[test]
fn lowering_agrees_with_the_standard_library_on_ascii() {
    let mut code: u32 = 0;
    while code < 128 {
        let c = char::from_u32(code).unwrap();
        assert_eq!(to_lower_char(c), c.to_ascii_lowercase());
        assert_eq!(to_lower_char(c).to_string(), c.to_lowercase().to_string());
        code += 1;
    }
}

#[test]
fn no_other_character_lowers_to_a_letter_of_a_switch_value() {
    let letters = "truefalse01";
    let mut code: u32 = 128;
    while code <= 0x10FFFF {
        if let Some(c) = char::from_u32(code) {
            let lowered = c.to_lowercase().to_string();
            assert!(!lowered.chars().any(|l| letters.contains(l)), "U+{:04X}", code);
            assert_eq!(to_lower_char(c), c);
        }
        code += 1;
    }
}

#[test]
fn chars_of_and_string_of_are_inverse() {
    let s = "zażółć gęślą jaźń, 漢字\t!";
    let v = chars_of(s);
    assert_eq!(v, chars(s));
    assert_eq!(string_of(&v), s);
    assert_eq!(string_of(&Vec::new()), "");
}

#[test]
fn copy_range_takes_the_half_open_range() {
    let v = chars("abcdef");
    assert_eq!(text(&copy_range(&v, 1, 4)), "bcd");
    assert_eq!(text(&copy_range(&v, 2, 2)), "");
    assert_eq!(text(&copy_range(&v, 0, 6)), "abcdef");
}

#[test]
fn trim_agrees_with_the_standard_library() {
    let samples = [
        "",
        " ",
        "\t\r\n",
        "a",
        " a",
        "a ",
        "  a b  ",
        "\u{3000}wide\u{2003}",
        "\u{a0}nbsp\u{a0}",
        "\u{200b}zero width stays\u{200b}",
        "\r\n--header:\r",
        "inner \t space",
    ];
    for s in samples {
        assert_eq!(text(&trim(&chars(s))), s.trim(), "{:?}", s);
    }
}

#[test]
fn split_agrees_with_the_standard_library() {
    let samples = ["", ",", "a", "a,b", "a,,b", ",a,", "*.git/*, , */node_modules/*,", ",,,"];
    for s in samples {
        let ours: Vec<String> = split(&chars(s), ',').iter().map(text).collect();
        let theirs: Vec<String> = s.split(',').map(|p| p.to_string()).collect();
        assert_eq!(ours, theirs, "{:?}", s);
    }
}

#[test]
fn split_of_empty_text_is_one_empty_piece() {
    let pieces = split(&Vec::new(), '\n');
    assert_eq!(pieces.len(), 1);
    assert!(pieces[0].is_empty());
}

#[test]
fn normalize_newlines_agrees_with_replace() {
    let samples = [
        "",
        "\n",
        "\r",
        "\r\n",
        "a\r\nb\nc\rd",
        "\r\r\n",
        "\r\n\r\n",
        "\n\r",
        "x\r",
        "\r\r\r\n\n",
    ];
    for s in samples {
        assert_eq!(text(&normalize_newlines(&chars(s))), s.replace("\r\n", "\n"), "{:?}", s);
    }
}

#[test]
fn starts_with_agrees_with_the_standard_library() {
    let cases = [
        ("--included_directories:", "--included_directories"),
        ("--included", "--included_directories"),
        ("--", "--"),
        ("-", "--"),
        ("", ""),
        ("abc", ""),
        ("abc", "abd"),
        ("", "a"),
    ];
    for (s, p) in cases {
        assert_eq!(starts_with(&chars(s), p), s.starts_with(p), "{:?} {:?}", s, p);
    }
}

#[test]
fn equals_compares_all_characters() {
    assert!(equals(&chars("true"), "true"));
    assert!(!equals(&chars("true"), "True"));
    assert!(!equals(&chars("tru"), "true"));
    assert!(!equals(&chars("truer"), "true"));
    assert!(equals(&chars(""), ""));
}

#[test]
fn to_lower_maps_ascii_capitals_only() {
    assert_eq!(text(&to_lower(&chars("TrUe"))), "true");
    assert_eq!(text(&to_lower(&chars("FALSE 0-9 @[`{"))), "false 0-9 @[`{");
    assert_eq!(text(&to_lower(&chars("ÄÖ"))), "ÄÖ");
    assert_eq!(to_lower_char('A'), 'a');
    assert_eq!(to_lower_char('Z'), 'z');
    assert_eq!(to_lower_char('@'), '@');
    assert_eq!(to_lower_char('['), '[');
}

#[test]
fn push_decimal_writes_the_numeral() {
    for n in [0usize, 1, 9, 10, 11, 99, 100, 101, 12345, 1000000, usize::MAX] {
        let mut s = String::from("line ");
        push_decimal(&mut s, n);
        assert_eq!(s, format!("line {}", n));
    }
}
