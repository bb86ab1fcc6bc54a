use crit_sim::text::{chars_of, contains, is_exactly, starts_with};

fn letters(text: &str) -> Vec<char> {
    text.chars().collect()
}

#[test]
fn chars_of_keeps_every_character_in_order() {
    assert_eq!(chars_of("gyro"), vec!['g', 'y', 'r', 'o']);
    assert_eq!(chars_of(""), Vec::<char>::new());
    assert_eq!(chars_of("é-1"), vec!['é', '-', '1']);
}

#[test]
fn starts_with_matches_only_at_the_start() {
    assert!(starts_with(&letters("config:biped"), "config"));
    assert!(!starts_with(&letters(" config:biped"), "config"));
    assert!(!starts_with(&letters("conf"), "config"));
    assert!(starts_with(&letters("head"), "head"));
    assert!(starts_with(&letters("anything"), ""));
    assert!(starts_with(&letters(""), ""));
}

#[test]
fn contains_finds_a_word_anywhere() {
    assert!(contains(&letters("is ammo lrm 20"), "ammo"));
    assert!(contains(&letters("ammo"), "ammo"));
    assert!(contains(&letters("lrm ammo"), "ammo"));
    assert!(!contains(&letters("amm o"), "ammo"));
    assert!(!contains(&letters("amm"), "ammo"));
    assert!(!contains(&letters(""), "ammo"));
    assert!(contains(&letters(""), ""));
    assert!(contains(&letters("aab"), "ab"));
    assert!(contains(&letters("heavy duty gyro"), "heavy duty"));
}

#[test]
fn contains_agrees_with_the_standard_library() {
    let texts = ["", "a", "ab", "aab", "abab", "caseii", "case", "xcasey", "gaussrifleé"];
    let words = ["", "a", "b", "ab", "ba", "case", "caseii", "é", "rifle"];
    for text in texts {
        for word in words {
            assert_eq!(contains(&letters(text), word), text.contains(word), "{:?} {:?}", text, word);
            assert_eq!(
                starts_with(&letters(text), word),
                text.starts_with(word),
                "{:?} {:?}",
                text,
                word
            );
            assert_eq!(is_exactly(&letters(text), word), text == word, "{:?} {:?}", text, word);
        }
    }
}

#[test]
fn is_exactly_compares_whole_texts() {
    assert!(is_exactly(&letters("-empty-"), "-empty-"));
    assert!(!is_exactly(&letters("-empty- "), "-empty-"));
    assert!(!is_exactly(&letters("-empty"), "-empty-"));
    assert!(is_exactly(&letters(""), ""));
}
