use auth_gateway::text::{
    char_ascii_lower_code, char_is_control, char_is_whitespace, chars_of, find_char_in, find_in,
    parse_u16_str, rfind_char_in, starts_with, starts_with_char, str_byte_len, str_eq,
    str_eq_ignore_ascii_case, str_has_forbidden_control, trim_str, u16_to_string,
};

const SAMPLES: [&str; 16] = [
    "",
    " ",
    "a",
    "abc",
    "  abc  ",
    "\t\r\n abc \u{a0}\u{3000}",
    "ABC",
    "aBc",
    "abcd",
    "äbc",
    "ÄBC",
    "://",
    "https://example.com:443",
    "a,b,c",
    "\u{2028}x\u{2029}",
    "\u{200b}x\u{200b}",
];

#[test]
fn control_characters_are_those_of_std() {
    for code in 0..=0x10ffffu32 {
        if let Some(c) = char::from_u32(code) {
            assert_eq!(char_is_control(c), c.is_control(), "U+{:04X}", code);
        }
    }
}

#[test]
fn whitespace_is_that_of_std() {
    for code in 0..=0x10ffffu32 {
        if let Some(c) = char::from_u32(code) {
            assert_eq!(char_is_whitespace(c), c.is_whitespace(), "U+{:04X}", code);
        }
    }
}

#[test]
fn ascii_folding_is_that_of_std() {
    for code in 0..=0x10ffffu32 {
        if let Some(c) = char::from_u32(code) {
            assert_eq!(char_ascii_lower_code(c), c.to_ascii_lowercase() as u32, "U+{:04X}", code);
        }
    }
}

#[test]
fn chars_and_bytes() {
    for s in SAMPLES {
        assert_eq!(chars_of(s), s.chars().collect::<Vec<char>>());
        assert_eq!(str_byte_len(s), s.len());
    }
    assert_eq!(str_byte_len("é"), 2);
    assert_eq!(chars_of("é").len(), 1);
}

#[test]
fn comparisons_agree_with_std() {
    for a in SAMPLES {
        for b in SAMPLES {
            assert_eq!(str_eq(a, b), a == b, "{:?} {:?}", a, b);
            assert_eq!(str_eq_ignore_ascii_case(a, b), a.eq_ignore_ascii_case(b), "{:?} {:?}", a, b);
            assert_eq!(starts_with(a, b), a.starts_with(b), "{:?} {:?}", a, b);
        }
        for c in ['a', ' ', ':', 'ä', '\t'] {
            assert_eq!(starts_with_char(a, c), a.starts_with(c), "{:?} {:?}", a, c);
        }
    }
}

#[test]
fn search_agrees_with_std_on_ascii() {
    let texts = ["", "a", "aaa", "abcabc", "https://example.com:443", "a..b", "x://y://z", ".."];
    let patterns = ["", "a", "aa", "bc", "://", "..", "abcabcabc", "c"];
    for text in texts {
        let chars = chars_of(text);
        for pattern in patterns {
            let pat = chars_of(pattern);
            assert_eq!(find_in(&chars, &pat, 0), text.find(pattern), "{:?} {:?}", text, pattern);
            for from in 0..=text.len() + 1 {
                let expected = if from <= text.len() {
                    text[from..].find(pattern).map(|i| i + from)
                } else {
                    None
                };
                assert_eq!(find_in(&chars, &pat, from), expected, "{:?} {:?} {}", text, pattern, from);
            }
        }
        for c in ['a', ':', '.', 'z'] {
            assert_eq!(find_char_in(&chars, c, 0), text.find(c), "{:?} {:?}", text, c);
            assert_eq!(rfind_char_in(&chars, c), text.rfind(c), "{:?} {:?}", text, c);
        }
    }
}

#[test]
fn search_counts_characters() {
    let chars = chars_of("ä://é:x");
    assert_eq!(find_in(&chars, &chars_of("://"), 0), Some(1));
    assert_eq!(find_char_in(&chars, ':', 2), Some(5));
    assert_eq!(rfind_char_in(&chars, ':'), Some(5));
}

#[test]
fn trim_agrees_with_std() {
    for s in SAMPLES {
        assert_eq!(trim_str(s), s.trim(), "{:?}", s);
    }
    assert_eq!(trim_str("  a b  "), "a b");
    assert_eq!(trim_str(" \t\n"), "");
}

#[test]
fn forbidden_controls() {
    assert!(!str_has_forbidden_control(""));
    assert!(!str_has_forbidden_control("plain text"));
    assert!(!str_has_forbidden_control("tab\tseparated"));
    assert!(str_has_forbidden_control("line\nbreak"));
    assert!(str_has_forbidden_control("\u{1b}[0m"));
    assert!(str_has_forbidden_control("end\u{9f}"));
    for s in SAMPLES {
        let expected = s.chars().any(|c| c.is_control() && c != '\t');
        assert_eq!(str_has_forbidden_control(s), expected, "{:?}", s);
    }
}

#[test]
fn u16_parsing_agrees_with_std() {
    let inputs = [
        "", "0", "7", "80", "443", "65535", "65536", "99999", "100000", "4294967296", "+", "-",
        "+0", "+80", "-80", "++80", "+-80", "0080", "00000000000000000000080", " 80", "80 ",
        "8 0", "8_0", "0x50", "80a", "a80", "８０", "٨٠", "1e3", "+65535", "+65536",
    ];
    for input in inputs {
        assert_eq!(parse_u16_str(input), input.parse::<u16>().ok(), "{:?}", input);
    }
    for n in 0..=u16::MAX {
        assert_eq!(parse_u16_str(&n.to_string()), Some(n));
    }
}

#[test]
fn decimal_numerals_agree_with_std() {
    for n in 0..=u16::MAX {
        assert_eq!(u16_to_string(n), n.to_string());
    }
}
