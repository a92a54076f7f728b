use recruitment::text::{chars_of, find, is_whitespace, starts_at};

fn chars(s: &str) -> Vec<char> {
    s.chars().collect()
}

#[test]
fn chars_of_gives_the_characters_in_order() {
    assert_eq!(chars_of("a✋b"), vec!['a', '✋', 'b']);
    assert_eq!(chars_of(""), Vec::<char>::new());
}

#[test]
fn find_gives_the_first_occurrence_from_the_start_index() {
    let hay = chars("abcabc");
    assert_eq!(find(&hay, &chars("bc"), 0), Some(1));
    assert_eq!(find(&hay, &chars("bc"), 1), Some(1));
    assert_eq!(find(&hay, &chars("bc"), 2), Some(4));
    assert_eq!(find(&hay, &chars("bc"), 5), None);
    assert_eq!(find(&hay, &chars("bc"), 50), None);
    assert_eq!(find(&hay, &chars("abcabcd"), 0), None);
    assert_eq!(find(&hay, &chars(""), 3), Some(3));
    assert_eq!(find(&hay, &chars(""), 6), Some(6));
    assert_eq!(find(&hay, &chars(""), 7), None);
}

#[test]
fn starts_at_compares_in_place() {
    let hay = chars("abcabc");
    assert!(starts_at(&hay, &chars("cab"), 2));
    assert!(!starts_at(&hay, &chars("cab"), 3));
    assert!(!starts_at(&hay, &chars("bc"), 5));
}

#[test]
fn white_space_is_what_unicode_says() {
    for c in ['\t', '\n', '\u{b}', '\u{c}', '\r', ' ', '\u{85}', '\u{a0}', '\u{1680}', '\u{2000}',
        '\u{200a}', '\u{2028}', '\u{2029}', '\u{202f}', '\u{205f}', '\u{3000}']
    {
        assert!(is_whitespace(c));
    }
    for c in ['a', '\u{0}', '\u{8}', '\u{e}', '\u{200b}', '\u{feff}', '`'] {
        assert!(!is_whitespace(c));
    }
    for code in 0u32..0x3100 {
        if let Some(c) = char::from_u32(code) {
            assert_eq!(is_whitespace(c), c.is_whitespace());
        }
    }
}
