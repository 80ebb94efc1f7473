use luauncher::games::{get_game_path, same_name};
use luauncher::text::{chars_of, fold, trim_bounds};

fn games(list: &[(&str, &str)]) -> Vec<(String, String)> {
    list.iter().map(|(n, p)| (n.to_string(), p.to_string())).collect()
}

fn trim(s: &str) -> String {
    let cs = chars_of(s);
    let (a, b) = trim_bounds(&cs);
    cs[a..b].iter().collect()
}

#[test]
fn trim_bounds_leave_the_white_space_at_both_ends_out() {
    assert_eq!(trim("  My Game \t\n"), "My Game");
    assert_eq!(trim("My Game"), "My Game");
    assert_eq!(trim(""), "");
    assert_eq!(trim(" \u{3000}\u{00A0} "), "");
    assert_eq!(trim("x "), "x");
    assert_eq!(trim(" x"), "x");
    assert_eq!(trim("\u{2028}a b\u{0085}"), "a b");
}

#[test]
fn trim_bounds_agree_with_std() {
    let samples = ["", " ", "a", " a", "a ", "  a  b  ", "\t\n", "\u{200B} x", "é \u{1680}", "\u{FEFF}a "];
    for s in samples {
        assert_eq!(trim(s), s.trim(), "{s:?}");
        let cs = chars_of(s);
        let (a, b) = trim_bounds(&cs);
        assert!(a <= b && b <= cs.len());
    }
}

#[test]
fn fold_takes_ascii_capitals_for_small_letters() {
    assert_eq!(fold('A'), 'a' as u32);
    assert_eq!(fold('Z'), 'z' as u32);
    assert_eq!(fold('a'), 'a' as u32);
    assert_eq!(fold('@'), '@' as u32);
    assert_eq!(fold('['), '[' as u32);
    assert_eq!(fold('É'), 'É' as u32);
    assert_eq!(fold('é'), 'é' as u32);
}

#[test]
fn fold_agrees_with_std_on_every_character() {
    let mut code: u32 = 0;
    while code <= 0x10FFFF {
        if let Some(c) = char::from_u32(code) {
            assert_eq!(fold(c), c.to_ascii_lowercase() as u32, "U+{code:04X}");
        }
        code += 1;
    }
}

#[test]
fn same_name_leaves_ends_and_ascii_case_aside() {
    assert!(same_name("My Game", "my game"));
    assert!(same_name("  My Game\n", "MY GAME"));
    assert!(same_name("", "  "));
    assert!(same_name("Café", "CAFé"));
}

#[test]
fn same_name_holds_everything_else_apart() {
    assert!(!same_name("My Game", "MyGame"));
    assert!(!same_name("My  Game", "My Game"));
    assert!(!same_name("Café", "CafÉ"));
    assert!(!same_name("game", "game2"));
    assert!(!same_name("game", ""));
    assert!(!same_name("a", "b"));
}

#[test]
fn same_name_agrees_with_std() {
    let names = ["", " ", "a", "A ", " a", "ab", "Ab", "aB ", "é", "É", "k", "\u{212A}", "a b", "A  B"];
    for a in names {
        for b in names {
            assert_eq!(same_name(a, b), a.trim().eq_ignore_ascii_case(b.trim()), "{a:?} {b:?}");
        }
    }
}

#[test]
fn get_game_path_finds_a_game_by_its_name() {
    let list = games(&[("Chess", "C:\\Games\\chess.exe"), ("My Game", "/opt/my game/run")]);
    assert_eq!(get_game_path(&list, "My Game"), Some("/opt/my game/run".to_string()));
    assert_eq!(get_game_path(&list, " my game "), Some("/opt/my game/run".to_string()));
    assert_eq!(get_game_path(&list, "CHESS"), Some("C:\\Games\\chess.exe".to_string()));
}

#[test]
fn get_game_path_trims_the_listed_name_too() {
    let list = games(&[(" Chess\t", "c")]);
    assert_eq!(get_game_path(&list, "chess"), Some("c".to_string()));
}

#[test]
fn get_game_path_finds_nothing_for_an_unlisted_game() {
    let list = games(&[("Chess", "c"), ("My Game", "m")]);
    assert_eq!(get_game_path(&list, "Go"), None);
    assert_eq!(get_game_path(&list, "Ches"), None);
    assert_eq!(get_game_path(&list, ""), None);
    assert_eq!(get_game_path(&games(&[]), "Chess"), None);
}

#[test]
fn get_game_path_takes_the_first_of_two_entries_that_match() {
    let list = games(&[("Go", "g"), ("chess", "first"), ("CHESS", "second")]);
    assert_eq!(get_game_path(&list, "Chess"), Some("first".to_string()));
}
