use chartpedia::text::{chars_of, join, split_lines, trim, CharClass};

fn list(text: &[&str]) -> Vec<String> {
    text.iter().map(|item| item.to_string()).collect()
}

#[test]
fn split_lines_splits_at_line_feeds() {
    assert_eq!(split_lines(""), list(&[""]));
    assert_eq!(split_lines("a"), list(&["a"]));
    assert_eq!(split_lines("a\n"), list(&["a", ""]));
    assert_eq!(split_lines("a\nb"), list(&["a", "b"]));
    assert_eq!(split_lines("\n\n"), list(&["", "", ""]));
    assert_eq!(split_lines("é\nß\n"), list(&["é", "ß", ""]));
}

#[test]
fn split_lines_drops_one_carriage_return() {
    assert_eq!(split_lines("a\r\nb\r"), list(&["a", "b"]));
    assert_eq!(split_lines("a\r\r\n"), list(&["a\r", ""]));
    assert_eq!(split_lines("\r\nx\r\n\n"), list(&["", "x", "", ""]));
    assert_eq!(split_lines("a\rb"), list(&["a\rb"]));
}

#[test]
fn trim_strips_white_space_at_both_ends() {
    assert_eq!(trim("  a b \t\n"), "a b");
    assert_eq!(trim("a"), "a");
    assert_eq!(trim(""), "");
    assert_eq!(trim(" \u{a0}\u{3000} "), "");
    assert_eq!(trim("\u{2003}x\u{2003}"), "x");
    assert_eq!(trim("[ a ]"), "[ a ]");
}

#[test]
fn join_puts_the_separator_between() {
    assert_eq!(join(&Vec::new(), ", "), "");
    assert_eq!(join(&list(&["a"]), ", "), "a");
    assert_eq!(join(&list(&["a", "b", "c"]), ", "), "a, b, c");
    assert_eq!(join(&list(&["", ""]), "\n"), "\n");
    assert_eq!(join(&list(&["a", "b"]), ""), "ab");
}

#[test]
fn split_and_join_undo_each_other() {
    let text = "one\ntwo\n\nfour";
    assert_eq!(join(&split_lines(text), "\n"), text);
}

#[test]
fn chars_of_lists_the_characters() {
    assert_eq!(chars_of("a→b"), vec!['a', '→', 'b']);
    assert!(chars_of("").is_empty());
}

#[test]
fn white_space_is_the_unicode_set() {
    let set: [u32; 25] = [
        0x0009, 0x000A, 0x000B, 0x000C, 0x000D, 0x0020, 0x0085, 0x00A0, 0x1680, 0x2000, 0x2001,
        0x2002, 0x2003, 0x2004, 0x2005, 0x2006, 0x2007, 0x2008, 0x2009, 0x200A, 0x2028, 0x2029,
        0x202F, 0x205F, 0x3000,
    ];
    let mut code: u32 = 0;
    while code <= 0x10FFFF {
        if let Some(c) = char::from_u32(code) {
            assert_eq!(c.is_whitespace(), set.contains(&code), "code point {:#x}", code);
            assert_eq!(CharClass::Whitespace.has(c), set.contains(&code));
        }
        code += 1;
    }
}

#[test]
fn char_classes() {
    assert!(CharClass::Whitespace.has(' '));
    assert!(CharClass::Whitespace.has('\u{2028}'));
    assert!(!CharClass::Whitespace.has('a'));
    assert!(CharClass::Bracket.has('['));
    assert!(CharClass::Bracket.has(']'));
    assert!(!CharClass::Bracket.has('('));
}
