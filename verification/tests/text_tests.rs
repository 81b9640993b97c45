use smauglys::text::{is_whitespace, split_whitespace};

#[test]
fn whitespace_agrees_with_std_on_every_char() {
    for v in 0u32..=0x10FFFF {
        if let Some(c) = char::from_u32(v) {
            assert_eq!(is_whitespace(c), c.is_whitespace(), "at U+{:04X}", v);
        }
    }
}

#[test]
fn split_list_of_extensions() {
    let words = split_whitespace("ms-python.python\r\nhediet.debug-visualizer\r\n");
    assert_eq!(words, vec!["ms-python.python".to_string(), "hediet.debug-visualizer".to_string()]);
}

#[test]
fn split_empty_and_blank_text() {
    assert!(split_whitespace("").is_empty());
    assert!(split_whitespace(" \t\r\n\u{3000}").is_empty());
}

#[test]
fn split_on_unicode_spaces() {
    assert_eq!(split_whitespace("a\u{a0}b\u{2003}c"), vec!["a", "b", "c"]);
    assert_eq!(split_whitespace("ąčę  ėį"), vec!["ąčę", "ėį"]);
}

#[test]
fn split_agrees_with_std() {
    let samples = [
        "",
        "one",
        "  lead",
        "trail  ",
        " a  b   c ",
        "x\u{85}y\u{2028}z\u{205f}w",
        "\u{1680}\u{200a}only\u{202f}",
        "tab\tseparated\tvalues",
    ];
    for s in samples.iter() {
        let expected: Vec<String> = s.split_whitespace().map(|w| w.to_string()).collect();
        assert_eq!(split_whitespace(s), expected, "for {:?}", s);
    }
}

#[test]
fn words_are_nonempty_and_free_of_white_space() {
    for w in split_whitespace("  a\u{a0}\u{a0}bc \n d\t").iter() {
        assert!(!w.is_empty());
        assert!(!w.chars().any(|c| c.is_whitespace()));
    }
}
