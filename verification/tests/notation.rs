//! Move notation and the text functions under it.

use gnubg_engine_server::notation::{is_numbered, normalize_notation, notation_from_an_move};
use gnubg_engine_server::order::{is_text_le, sort};
use gnubg_engine_server::text::{
    chars_of, decimal_text, is_white_space, join, lower_char, same_text, signed_decimal_text,
    split_words,
};

#[test]
fn notation_formats_bar_off_and_points() {
    assert_eq!(notation_from_an_move(&[23, 22, 12, 9, -1, -1, -1, -1]), "24/23 13/10");
    assert_eq!(notation_from_an_move(&[24, 21, 5, -1, -1, -1, -1, -1]), "bar/22 6/off");
    assert_eq!(notation_from_an_move(&[-1; 8]), "");
}

#[test]
fn normalize_is_case_star_and_order_insensitive() {
    assert_eq!(normalize_notation("Bar/22* 13/10"), normalize_notation("13/10 bar/22"));
    assert_ne!(normalize_notation("24/23 13/10"), normalize_notation("24/21 13/12"));
}

#[test]
fn notation_stops_at_the_first_negative_start() {
    assert_eq!(notation_from_an_move(&[]), "");
    assert_eq!(notation_from_an_move(&[5]), "");
    assert_eq!(notation_from_an_move(&[5, 3, 7]), "6/4");
    assert_eq!(notation_from_an_move(&[5, 3, -1, 7, 4, 2]), "6/4");
    assert_eq!(notation_from_an_move(&[5, -7, 0, -1]), "6/off 1/off");
    assert_eq!(notation_from_an_move(&[7, 4, 7, 4, 5, 2, 5, 2]), "8/5 8/5 6/3 6/3");
}

#[test]
fn points_are_numbered_below_the_largest() {
    assert!(is_numbered(&[]));
    assert!(is_numbered(&[i32::MAX - 1, i32::MIN]));
    assert!(!is_numbered(&[i32::MAX, 0]));
    assert!(!is_numbered(&[5, 3, 7, i32::MAX]));
    // What stands behind the end of the move is not written.
    assert!(is_numbered(&[5, 3, -1, i32::MAX]));
    assert!(is_numbered(&[i32::MAX]));
    let highest = notation_from_an_move(&[i32::MAX - 1, i32::MIN]);
    assert_eq!(highest, "2147483647/off");
}

#[test]
fn normalized_forms() {
    assert_eq!(normalize_notation(""), "");
    assert_eq!(normalize_notation("  \t 6/5  \u{3000}8/5*\n"), "6/5 8/5");
    assert_eq!(normalize_notation("8/5 24/23 13/10"), "13/10 24/23 8/5");
    assert_eq!(normalize_notation("BAR/OFF"), "bar/off");
    assert_eq!(normalize_notation("\u{c9}*\u{e9}"), "\u{c9}\u{e9}");
}

#[test]
fn normalizing_matches_the_library_functions_of_std() {
    let by_std = |text: &str| {
        let mut tokens: Vec<String> = text
            .split_whitespace()
            .map(|t| t.chars().filter(|c| *c != '*').collect::<String>().to_ascii_lowercase())
            .collect();
        tokens.sort_unstable();
        tokens.join(" ")
    };
    for text in [
        "", " ", "*", "* *", "a *", "* A b*", "13/10 Bar/22*", "b a ab aa", "\u{85}x\u{a0}y",
        "z\u{10ffff} z\u{ffff} z", "A\u{2003}B\u{200b}C", "8/5(2) 6/3*(2)",
    ] {
        assert_eq!(normalize_notation(text), by_std(text), "{text:?}");
    }
}

#[test]
fn normalizing_twice_is_normalizing_once() {
    for text in ["Bar/22* 13/10", "8/5 8/5 6/3", "24/23*"] {
        let once = normalize_notation(text);
        assert_eq!(normalize_notation(&once), once);
    }
    // A word of stars alone leaves an empty word behind.
    assert_eq!(normalize_notation("* a"), " a");
    assert_eq!(normalize_notation(" a"), "a");
}

#[test]
fn same_play_same_form() {
    let one = notation_from_an_move(&[23, 22, 12, 9]);
    let other = notation_from_an_move(&[12, 9, 23, 22, -1, -1]);
    assert_ne!(one, other);
    assert_eq!(normalize_notation(&one), normalize_notation(&other));
    let off = notation_from_an_move(&[5, -1]);
    let far_off = notation_from_an_move(&[5, -6]);
    assert_eq!(off, far_off);
    let twice = notation_from_an_move(&[7, 4, 7, 4]);
    let once = notation_from_an_move(&[7, 4]);
    assert_ne!(normalize_notation(&twice), normalize_notation(&once));
}

#[test]
fn white_space_is_that_of_std() {
    for n in 0..=0x10ffff_u32 {
        if let Some(c) = char::from_u32(n) {
            assert_eq!(is_white_space(c), c.is_whitespace(), "{n:x}");
        }
    }
}

#[test]
fn words_are_split_as_std_splits() {
    for text in ["", " ", "a", " a", "a ", "a  b", "\u{1680}x\u{2028}yz\u{205f}"] {
        let words: Vec<String> =
            split_words(text).into_iter().map(|w| w.into_iter().collect()).collect();
        let by_std: Vec<String> = text.split_whitespace().map(|w| w.to_string()).collect();
        assert_eq!(words, by_std);
    }
}

#[test]
fn numerals() {
    for n in [0, 9, 10, 100, 1234567890, u64::MAX] {
        assert_eq!(decimal_text(n), n.to_string());
    }
    for n in [0, -1, 7, i32::MAX, i32::MIN] {
        assert_eq!(signed_decimal_text(n), n.to_string());
    }
}

#[test]
fn texts_are_ordered_as_strings() {
    let texts = ["", "a", "ab", "b", "B", "\u{e9}", "\u{ffff}", "\u{10000}", "13/10", "8/5"];
    for a in texts {
        for b in texts {
            assert_eq!(is_text_le(a, b), a <= b);
            assert_eq!(same_text(a, b), a == b);
        }
    }
    let parts: Vec<String> = texts.iter().rev().map(|t| t.to_string()).collect();
    let mut by_std = parts.clone();
    by_std.sort();
    assert_eq!(sort(parts), by_std);
}

#[test]
fn joining_and_letters() {
    assert_eq!(join(&Vec::new()), "");
    assert_eq!(join(&vec!["a".to_string()]), "a");
    assert_eq!(join(&vec!["a".to_string(), String::new(), "b".to_string()]), "a  b");
    assert_eq!(chars_of("h\u{e9}"), ['h', '\u{e9}']);
    for c in ['A', 'Z', 'a', '@', '[', '\u{c9}'] {
        assert_eq!(lower_char(c), c.to_ascii_lowercase());
    }
}

#[test]
fn written_moves_are_plain_already() {
    let text = notation_from_an_move(&[24, 20, 5, -1, 12, 9]);
    assert_eq!(text, "bar/21 6/off 13/10");
    let words: Vec<String> =
        split_words(&text).into_iter().map(|w| w.into_iter().collect()).collect();
    assert_eq!(join(&sort(words)), normalize_notation(&text));
}

#[test]
fn consecutive_moves_are_written_one_after_the_other() {
    let (first, second) = ([24, 20], [12, 9, 5, -1]);
    let both: Vec<i32> = first.iter().chain(second.iter()).copied().collect();
    assert_eq!(
        notation_from_an_move(&both),
        format!("{} {}", notation_from_an_move(&first), notation_from_an_move(&second))
    );
    // A negative start or a lone last point ends the move.
    assert_eq!(notation_from_an_move(&[24, 20, -1, 7, 3, 2]), notation_from_an_move(&first));
    assert_eq!(notation_from_an_move(&[24, 20, 7]), notation_from_an_move(&first));
}
