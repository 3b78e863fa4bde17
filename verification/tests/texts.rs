use yv_streamer_software::decimal::decimal;
use yv_streamer_software::decimal::parse_decimal;
use yv_streamer_software::text::ascii_lowercase;
use yv_streamer_software::text::contains_text;
use yv_streamer_software::text::sort_texts;
use yv_streamer_software::text::starts_with_text;
use yv_streamer_software::text::text_at_most;
use yv_streamer_software::text::trim_text;

#[test]
fn numbers_are_written_as_the_standard_library_does() {
    for n in [0, 7, 9, 10, 99, 100, 101, 65535, 4294967295, 10_000_000_000, u64::MAX] {
        assert_eq!(decimal(n), n.to_string());
    }
}

#[test]
fn numbers_are_read_as_the_standard_library_does() {
    for text in ["", "0", "00", "+0", "+", "++1", "-0", "-", "1_0", "4294967295", "4294967296", "12a", "\u{663}", " 1", "1 "] {
        assert_eq!(
            parse_decimal(text, u32::MAX as u64),
            text.parse::<u32>().ok().map(|n| n as u64)
        );
    }
    assert_eq!(parse_decimal("18446744073709551615", u64::MAX), Some(u64::MAX));
    assert_eq!(parse_decimal("18446744073709551616", u64::MAX), None);
}

#[test]
fn written_numbers_read_back() {
    for n in [0, 1, 10, 12345, u32::MAX as u64, u64::MAX] {
        assert_eq!(parse_decimal(&decimal(n), u64::MAX), Some(n));
    }
    assert_ne!(decimal(1), decimal(10));
}

#[test]
fn texts_are_trimmed_as_the_standard_library_does() {
    for text in ["", " ", "a", " a ", "\t\n\u{b}\u{c}\r x y\u{85}\u{a0}", "\u{1680}\u{2000}z\u{200a}\u{2028}\u{2029}", "\u{202f}\u{205f}\u{3000}", "\u{200b}", "\u{feff}b"] {
        assert_eq!(trim_text(text), text.trim());
    }
    for code in 0..=0x10ffffu32 {
        if let Some(c) = char::from_u32(code) {
            if c.is_whitespace() {
                assert_eq!(trim_text(&c.to_string()), "");
            }
        }
    }
}

#[test]
fn texts_are_searched_as_the_standard_library_does() {
    for (text, part) in [("", ""), ("a", ""), ("", "a"), ("banana", "nan"), ("banana", "nab"), ("ab", "abc"), ("\u{e9}t\u{e9}", "t\u{e9}")] {
        assert_eq!(contains_text(text, part), text.contains(part));
        assert_eq!(starts_with_text(text, part), text.starts_with(part));
    }
    assert_eq!(ascii_lowercase("AbZ\u{c9}1"), "AbZ\u{c9}1".to_ascii_lowercase());
}

#[test]
fn texts_are_ordered_as_the_standard_library_does() {
    let words = ["", "a", "A", "ab", "b", "\u{e9}", "\u{10000}", "\u{ffff}", "video10", "video2"];
    for a in words {
        for b in words {
            assert_eq!(text_at_most(a, b), a <= b);
        }
    }
    let mut expected: Vec<String> = words.iter().rev().map(|word| word.to_string()).collect();
    let sorted = sort_texts(expected.clone());
    expected.sort();
    assert_eq!(sorted, expected);
}
