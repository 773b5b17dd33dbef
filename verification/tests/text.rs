use exercises::text::{
    chars_of, contains, push_decimal, push_signed_decimal, same_text, starts_with,
};

fn decimal_string(n: u64) -> String {
    let mut out = String::new();
    push_decimal(&mut out, n);
    out
}

#[test]
fn chars_of_gives_every_character() {
    assert_eq!(chars_of("abc"), vec!['a', 'b', 'c']);
    assert_eq!(chars_of(""), Vec::<char>::new());
    assert_eq!(chars_of("crêpe"), vec!['c', 'r', 'ê', 'p', 'e']);
}

#[test]
fn contains_finds_a_run_anywhere() {
    assert!(contains("onion soup", "soup"));
    assert!(contains("soup of the day", "soup"));
    assert!(contains("a souper soup", "soup"));
    assert!(contains("soup", "soup"));
    assert!(!contains("sou", "soup"));
    assert!(!contains("so up", "soup"));
    assert!(!contains("", "soup"));
}

#[test]
fn contains_agrees_with_the_standard_library() {
    let texts = ["", "a", "ab", "aab", "abab", "crème brûlée", "ßß", "日本語"];
    let patterns = ["", "a", "b", "ab", "ba", "brû", "ß", "本", "語日"];
    for text in texts {
        for pattern in patterns {
            assert_eq!(contains(text, pattern), text.contains(pattern), "{text:?} {pattern:?}");
        }
    }
}

#[test]
fn the_empty_pattern_is_everywhere() {
    assert!(contains("", ""));
    assert!(contains("bread", ""));
    assert!(starts_with("", ""));
    assert!(starts_with("bread", ""));
}

#[test]
fn starts_with_looks_at_the_beginning_only() {
    assert!(starts_with("player", "player"));
    assert!(starts_with("player1", "player"));
    assert!(!starts_with("a player", "player"));
    assert!(!starts_with("play", "player"));
    assert!(!starts_with("", "player"));
}

#[test]
fn starts_with_agrees_with_the_standard_library() {
    let texts = ["", "a", "ab", "aab", "abab", "crème", "ßa"];
    let prefixes = ["", "a", "b", "ab", "aa", "cr", "crè", "ß"];
    for text in texts {
        for prefix in prefixes {
            assert_eq!(starts_with(text, prefix), text.starts_with(prefix), "{text:?} {prefix:?}");
        }
    }
}

#[test]
fn same_text_compares_whole_texts() {
    assert!(same_text("player", "player"));
    assert!(same_text("", ""));
    assert!(!same_text("player", "player1"));
    assert!(!same_text("player1", "player"));
    assert!(!same_text("player", "plaYer"));
}

#[test]
fn decimals_of_small_and_large_numbers() {
    assert_eq!(decimal_string(0), "0");
    assert_eq!(decimal_string(7), "7");
    assert_eq!(decimal_string(10), "10");
    assert_eq!(decimal_string(42), "42");
    assert_eq!(decimal_string(1000), "1000");
    assert_eq!(decimal_string(u64::MAX), "18446744073709551615");
}

#[test]
fn decimals_agree_with_the_standard_library() {
    for n in [0u64, 1, 9, 10, 11, 99, 100, 101, 255, 65535, 4294967295, 1234567890123] {
        assert_eq!(decimal_string(n), format!("{}", n));
    }
}

#[test]
fn push_decimal_writes_at_the_end() {
    let mut out = String::from("Score: ");
    push_decimal(&mut out, 305);
    assert_eq!(out, "Score: 305");
}

#[test]
fn signed_decimals_carry_their_sign() {
    for i in [0i64, 1, -1, 9, -9, 10, -10, 2147483647, -2147483648, i64::MAX, i64::MIN] {
        let mut out = String::from("gopher");
        push_signed_decimal(&mut out, i);
        assert_eq!(out, format!("gopher{}", i));
    }
}
