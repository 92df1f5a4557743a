use git_req::text::{
    decimal_string, is_sep_char, is_space_char, is_word_char, trim, word_char_from,
};
use regex::Regex;

#[test]
fn white_space_is_what_std_calls_white_space() {
    for code in 0..=0x10FFFFu32 {
        if let Some(c) = char::from_u32(code) {
            assert_eq!(is_space_char(c), c.is_whitespace(), "{:x}", code);
        }
    }
}

#[test]
fn white_space_is_what_the_pattern_class_matches() {
    let class = Regex::new(r"^\s$").unwrap();
    let mut buf = [0u8; 4];
    for code in (0..0x3100u32).chain([0xFEFF, 0x1F600, 0x10FFFF]) {
        if let Some(c) = char::from_u32(code) {
            assert_eq!(is_space_char(c), class.is_match(c.encode_utf8(&mut buf)), "{:x}", code);
        }
    }
}

#[test]
fn separators_are_colon_and_slash() {
    for code in 0..0x80u32 {
        let c = char::from_u32(code).unwrap();
        assert_eq!(is_sep_char(c), c == ':' || c == '/', "{:?}", c);
    }
    assert!(!is_sep_char('\u{2215}'));
}

#[test]
fn ascii_word_characters_are_letters_digits_and_underscore() {
    for code in 0..0x80u32 {
        let c = char::from_u32(code).unwrap();
        assert_eq!(is_word_char(c), c.is_ascii_alphanumeric() || c == '_', "{:?}", c);
    }
}

#[test]
fn word_characters_beyond_ascii_are_those_of_the_pattern_class() {
    let class = Regex::new(r"^\w$").unwrap();
    let mut buf = [0u8; 4];
    let sample = [
        '\u{e9}', '\u{3b2}', '\u{4e2d}', '\u{301}', '\u{200d}', '\u{203f}', '\u{661}', '\u{2160}',
        '\u{2014}', '\u{bd}', '\u{a0}', '\u{d7}', '\u{1f600}', '\u{80}', '\u{10ffff}', '\u{b2}',
    ];
    for c in sample {
        assert_eq!(is_word_char(c), class.is_match(c.encode_utf8(&mut buf)), "{:?}", c);
    }
    assert!(is_word_char('\u{e9}'));
    assert!(is_word_char('\u{200d}'));
    assert!(!is_word_char('\u{2014}'));
    assert!(!is_word_char('\u{bd}'));
}

#[test]
fn the_answer_of_the_pattern_counts_beyond_ascii_only() {
    assert!(word_char_from('a', None));
    assert!(word_char_from('_', Some(false)));
    assert!(!word_char_from('-', Some(true)));
    assert!(!word_char_from('.', None));
    assert!(word_char_from('\u{e9}', Some(true)));
    assert!(!word_char_from('\u{e9}', Some(false)));
    assert!(!word_char_from('\u{e9}', None));
    assert!(!word_char_from('\u{80}', None));
    assert!(word_char_from('\u{7f}', Some(true)) == false);
}

#[test]
fn decimal_string_writes_digits_and_sign() {
    assert_eq!(decimal_string(0), "0");
    assert_eq!(decimal_string(7), "7");
    assert_eq!(decimal_string(10), "10");
    assert_eq!(decimal_string(42), "42");
    assert_eq!(decimal_string(-1), "-1");
    assert_eq!(decimal_string(-120), "-120");
    assert_eq!(decimal_string(1234567890), "1234567890");
    assert_eq!(decimal_string(i64::MAX), "9223372036854775807");
    assert_eq!(decimal_string(i64::MIN), "-9223372036854775808");
}

#[test]
fn decimal_string_agrees_with_std() {
    let mut n: i64 = 1;
    for _ in 0..200 {
        n = n.wrapping_mul(6364136223846793005).wrapping_add(1442695040888963407);
        for shift in [0, 17, 40, 58] {
            let value = n >> shift;
            assert_eq!(decimal_string(value), format!("{}", value));
        }
    }
}

#[test]
fn trim_drops_white_space_at_both_ends_only() {
    assert_eq!(trim(""), "");
    assert_eq!(trim("   "), "");
    assert_eq!(trim("abc"), "abc");
    assert_eq!(trim("  abc \n"), "abc");
    assert_eq!(trim("\ta b\r\n"), "a b");
    assert_eq!(trim("\u{a0}x\u{3000}"), "x");
    assert_eq!(trim("glpat-12345\n"), "glpat-12345");
}

#[test]
fn trim_agrees_with_std() {
    let alphabet = ['a', ' ', '\n', '\u{2003}', 'b'];
    let mut texts: Vec<String> = vec![String::new()];
    for _ in 0..5 {
        let mut next: Vec<String> = Vec::new();
        for text in &texts {
            for c in alphabet {
                let mut longer = text.clone();
                longer.push(c);
                next.push(longer);
            }
        }
        texts.extend(next);
    }
    for text in &texts {
        assert_eq!(trim(text), text.trim(), "{:?}", text);
    }
}
