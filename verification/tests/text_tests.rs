use luauncher::text::{
    chars_of, contains, ends_with, escape_ampersands, is_blank, is_space, join, same_text,
};

#[test]
fn chars_of_keeps_every_character_in_order() {
    assert_eq!(chars_of(""), Vec::<char>::new());
    assert_eq!(chars_of("a&b"), vec!['a', '&', 'b']);
    assert_eq!(chars_of("né\u{3000}x"), vec!['n', 'é', '\u{3000}', 'x']);
}

#[test]
fn contains_finds_a_needle_anywhere() {
    assert!(contains("notepad.exe   1234 Console", "notepad.exe"));
    assert!(contains("   1234 notepad.exe", "notepad.exe"));
    assert!(contains("a notepad.exe b", "notepad.exe"));
    assert!(contains("notepad.exe", "notepad.exe"));
    assert!(contains("xnotepad.exex", "pad"));
}

#[test]
fn contains_rejects_what_is_not_there() {
    assert!(!contains("notepad.exe", "notepad.exe "));
    assert!(!contains("notepad", "notepad.exe"));
    assert!(!contains("", "a"));
    assert!(!contains("aaab", "aab "));
    assert!(!contains("Notepad", "notepad"));
}

#[test]
fn contains_finds_the_empty_needle_everywhere() {
    assert!(contains("", ""));
    assert!(contains("abc", ""));
}

#[test]
fn contains_backs_up_after_a_partial_match() {
    assert!(contains("aaab", "aab"));
    assert!(contains("ababac", "abac"));
}

#[test]
fn contains_agrees_with_std() {
    let hays = ["", "a", "ab", "aab", "abab", "INFO: No tasks are running", "é&é", "  \n"];
    let needles = ["", "a", "b", "ab", "ba", "aab", "tasks", "é", "&é", "\n", "abc"];
    for hay in hays {
        for needle in needles {
            assert_eq!(contains(hay, needle), hay.contains(needle), "{hay:?} {needle:?}");
        }
    }
}

#[test]
fn ends_with_checks_the_tail_only() {
    assert!(ends_with("game.lua", ".lua"));
    assert!(ends_with(".lua", ".lua"));
    assert!(ends_with("anything", ""));
    assert!(!ends_with("lua", ".lua"));
    assert!(!ends_with("game.lua.txt", ".lua"));
    assert!(!ends_with("game.LUA", ".lua"));
    assert!(!ends_with("", ".lua"));
}

#[test]
fn same_text_compares_character_by_character() {
    assert!(same_text("", ""));
    assert!(same_text("openURL", "openURL"));
    assert!(!same_text("openURL", "openUrl"));
    assert!(!same_text("open", "openApp"));
    assert!(!same_text("openApp", "open"));
}

#[test]
fn is_space_agrees_with_std_on_every_character() {
    let mut code: u32 = 0;
    while code <= 0x10FFFF {
        if let Some(c) = char::from_u32(code) {
            assert_eq!(is_space(c), c.is_whitespace(), "U+{code:04X}");
        }
        code += 1;
    }
}

#[test]
fn is_blank_sees_through_every_kind_of_white_space() {
    assert!(is_blank(""));
    assert!(is_blank(" "));
    assert!(is_blank(" \t\r\n"));
    assert!(is_blank("\u{00A0}\u{3000}\u{2028}\u{0085}"));
    assert!(!is_blank("12345\n"));
    assert!(!is_blank("  x  "));
    assert!(!is_blank("\u{200B}"));
}

#[test]
fn is_blank_agrees_with_trimming() {
    let samples = ["", " ", "\n\n", "a", " a ", "\t4194311\n", "\u{1680}", "\u{180E}", "\u{FEFF}"];
    for s in samples {
        assert_eq!(is_blank(s), s.trim().is_empty(), "{s:?}");
    }
}

#[test]
fn escape_ampersands_puts_a_caret_before_each() {
    assert_eq!(escape_ampersands(""), "");
    assert_eq!(escape_ampersands("notepad.exe"), "notepad.exe");
    assert_eq!(escape_ampersands("a&b"), "a^&b");
    assert_eq!(escape_ampersands("&"), "^&");
    assert_eq!(escape_ampersands("&&"), "^&^&");
    assert_eq!(escape_ampersands("^&"), "^^&");
    assert_eq!(escape_ampersands("https://x.test/?a=1&b=2&c=é"), "https://x.test/?a=1^&b=2^&c=é");
}

#[test]
fn escape_ampersands_agrees_with_replace() {
    let samples = ["", "&", "a&", "&a", "a&&b", "no ampersand", "Tom & Jerry & Co"];
    for s in samples {
        assert_eq!(escape_ampersands(s), s.replace("&", "^&"));
    }
}

#[test]
fn join_appends() {
    assert_eq!(join("", ""), "");
    assert_eq!(join("IMAGENAME eq ", "game.exe"), "IMAGENAME eq game.exe");
    assert_eq!(join("game", ".lua"), "game.lua");
}
