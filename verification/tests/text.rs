use ferrous_test::text::{
    char_is_whitespace, chars_of, contains_char, ends_with_char, find_char, spells, trim_bounds,
    trimmed_spells,
};

fn trim(s: &str) -> String {
    let chars = chars_of(s);
    let (start, end) = trim_bounds(&chars);
    chars[start..end].iter().collect()
}

#[test]
fn whitespace_is_the_unicode_property() {
    let mut code: u32 = 0;
    let mut count: u32 = 0;
    while code <= 0x10ffff {
        if let Some(c) = char::from_u32(code) {
            assert_eq!(char_is_whitespace(c), c.is_whitespace(), "U+{:04X}", code);
            if char_is_whitespace(c) {
                count += 1;
            }
        }
        code += 1;
    }
    assert_eq!(count, 25);
}

#[test]
fn chars_of_keeps_every_character() {
    assert_eq!(chars_of(""), Vec::<char>::new());
    assert_eq!(chars_of("a b\n"), vec!['a', ' ', 'b', '\n']);
    assert_eq!(chars_of("\u{e9}\u{1f600}x"), vec!['\u{e9}', '\u{1f600}', 'x']);
}

#[test]
fn trim_removes_both_ends_only() {
    assert_eq!(trim("  a b \n"), "a b");
    assert_eq!(trim("a"), "a");
    assert_eq!(trim(""), "");
    assert_eq!(trim(" \t\r\n"), "");
    assert_eq!(trim("\u{3000}\u{e9}t\u{e9} \u{2028}"), "\u{e9}t\u{e9}");
    assert_eq!(trim("x\ny\n"), "x\ny");
}

#[test]
fn trim_agrees_with_std() {
    let samples = ["", " ", "a", " a", "a ", " a b ", "\n\na\n\n", "\u{85}z\u{a0}", "\u{200b}a "];
    for s in samples {
        assert_eq!(trim(s), s.trim());
    }
}

#[test]
fn trim_bounds_are_character_positions() {
    assert_eq!(trim_bounds(&chars_of("  a b \n")), (2, 5));
    assert_eq!(trim_bounds(&chars_of("")), (0, 0));
    assert_eq!(trim_bounds(&chars_of("   ")), (3, 3));
    assert_eq!(trim_bounds(&chars_of("\u{a0}\u{e9}\u{e9} ")), (1, 3));
    assert_eq!(trim_bounds(&chars_of("abc")), (0, 3));
}

#[test]
fn find_char_counts_characters() {
    assert_eq!(find_char(&chars_of("abc def"), ' '), Some(3));
    assert_eq!(find_char(&chars_of("abc"), ' '), None);
    assert_eq!(find_char(&chars_of(""), ' '), None);
    assert_eq!(find_char(&chars_of(" a b"), ' '), Some(0));
    assert_eq!(find_char(&chars_of("\u{e9}\u{e9} x"), ' '), Some(2));
}

#[test]
fn contains_and_ends_with() {
    assert!(contains_char(&chars_of("a\nb"), '\n'));
    assert!(!contains_char(&chars_of("ab"), '\n'));
    assert!(ends_with_char(&chars_of("ab\n"), '\n'));
    assert!(!ends_with_char(&chars_of("a\nb"), '\n'));
    assert!(!ends_with_char(&chars_of(""), '\n'));
}

#[test]
fn spells_compares_every_character() {
    assert!(spells(&chars_of("PUBLISH"), "PUBLISH"));
    assert!(!spells(&chars_of("PUBLISH"), "PUBLISH\n"));
    assert!(!spells(&chars_of("PUBLISH\n"), "PUBLISH"));
    assert!(!spells(&chars_of("PUBLISH"), "PUBLISK"));
    assert!(!spells(&chars_of("QUBLISH"), "PUBLISH"));
    assert!(spells(&chars_of(""), ""));
    assert!(!spells(&chars_of(""), "a"));
    assert!(!spells(&chars_of("a"), ""));
}

#[test]
fn trimmed_spells_ignores_the_ends() {
    assert!(trimmed_spells(" admin\n", "admin"));
    assert!(trimmed_spells("admin", "admin"));
    assert!(!trimmed_spells("ad min", "admin"));
    assert!(!trimmed_spells("", "admin"));
    assert!(trimmed_spells("  ", ""));
}
