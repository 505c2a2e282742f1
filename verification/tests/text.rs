use tuitube::collections::{TextMap, TextSet};
use tuitube::text::{
    after_prefix, chars, comes_first, contains, join, joined, lines, number, parse_number, same,
    signed_number, sorted, space, text_of, trim, words,
};

fn list(values: &[&str]) -> Vec<String> {
    values.iter().map(|v| v.to_string()).collect()
}

#[test]
fn numbers_are_written_and_read_back() {
    assert_eq!(number(0), "0");
    assert_eq!(number(1_234_567), "1234567");
    assert_eq!(number(u64::MAX), "18446744073709551615");
    for n in [0, 7, 10, 99, 100, u64::MAX] {
        assert_eq!(parse_number(&number(n)), Some(n));
    }
    assert_eq!(signed_number(-5), "-5");
    assert_eq!(signed_number(0), "0");
    assert_eq!(signed_number(i64::MIN), "-9223372036854775808");
}

#[test]
fn what_is_no_number_is_not_read_as_one() {
    for text in ["", " 1", "1 ", "a", "1a", "-1", "18446744073709551616"] {
        assert_eq!(parse_number(text), None, "{text:?}");
    }
}

#[test]
fn spaces_are_taken_off_both_ends() {
    assert_eq!(trim("  a b \n"), "a b");
    assert_eq!(trim("\u{3000}ラーメン\u{3000}"), "ラーメン");
    assert_eq!(trim(" \t "), "");
    assert!(space(' ') && space('\n') && space('\u{3000}'));
    assert!(!space('a'));
}

#[test]
fn a_part_is_found_wherever_it_stands() {
    assert!(contains("abcabd", "abd"));
    assert!(contains("abc", ""));
    assert!(!contains("abc", "abcd"));
    assert!(!contains("", "a"));
}

#[test]
fn a_prefix_is_taken_off_only_where_it_stands_first() {
    assert_eq!(after_prefix("~/x", "~/").as_deref(), Some("x"));
    assert_eq!(after_prefix("/~/x", "~/"), None);
}

#[test]
fn lines_end_at_line_feeds_and_lose_a_carriage_return() {
    assert_eq!(lines("a\nb"), ["a", "b"]);
    assert_eq!(lines("a\r\nb\n"), ["a", "b"]);
    assert_eq!(lines("\n\n"), ["", ""]);
    assert!(lines("").is_empty());
}

#[test]
fn words_are_parted_by_any_run_of_spaces() {
    assert_eq!(words("  a \n b\tc "), ["a", "b", "c"]);
    assert!(words("  ").is_empty());
}

#[test]
fn texts_are_put_together() {
    assert_eq!(joined("a", "b", "c"), "abc");
    assert_eq!(join(&list(&["a", "b", "c"]), ", "), "a, b, c");
    assert_eq!(join(&list(&["a"]), ", "), "a");
    assert_eq!(join(&list(&[]), ", "), "");
    assert_eq!(text_of(&chars("動画です"), 1, 3), "画で");
    assert!(same("a", "a"));
    assert!(!same("a", "A"));
}

#[test]
fn texts_are_sorted_by_their_characters() {
    assert_eq!(sorted(&list(&["b", "", "ab", "a", "b"])), ["", "a", "ab", "b", "b"]);
    assert!(comes_first("a", "b"));
    assert!(comes_first("a", "aa"));
    assert!(!comes_first("b", "aa"));
}

#[test]
fn a_map_keeps_one_value_for_each_text() {
    let mut map: TextMap<u64> = TextMap::new();
    assert!(map.is_empty());
    map.insert("a", 3);
    map.insert("b", 1);
    map.insert("a", 2);
    assert_eq!(map.len(), 2);
    assert_eq!(map.get("a"), Some(2));
    assert_eq!(map.entry("b"), Some(&1));
    assert_eq!(map.least().as_deref(), Some("b"));
    map.remove("b");
    assert!(!map.contains("b"));
    assert_eq!(map.keys(), ["a"]);
    assert_eq!(map.get("b"), None);
}

#[test]
fn a_set_holds_each_text_once() {
    let mut set = TextSet::from_list(&list(&["a", "b", "a"]));
    assert_eq!(set.items().len(), 2);
    assert!(set.contains("a") && set.contains("b"));
    set.insert("b");
    set.remove("a");
    assert_eq!(set.items(), ["b"]);
    assert!(!set.is_empty());
    assert!(TextSet::new().is_empty());
}

#[test]
fn maps_and_sets_are_equal_where_they_hold_the_same() {
    let order = |keys: &[&str]| {
        let mut map: TextMap<u64> = TextMap::new();
        for key in keys {
            map.insert(key, key.len() as u64);
        }
        map
    };
    let map = order(&["b", "", "ab", "a"]);
    assert_eq!(map, order(&["a", "ab", "b", ""]));
    assert_eq!(map.keys(), ["", "a", "ab", "b"]);
    assert_ne!(map, order(&["a", "ab", "b"]));
    let mut changed = order(&["a", "ab", "b", ""]);
    changed.insert("a", 9);
    assert_ne!(map, changed);
    changed.insert("c", 1);
    changed.insert("a", 1);
    changed.remove("c");
    assert_eq!(map, changed);

    assert_eq!(
        TextSet::from_list(&list(&["b", "a", "b"])),
        TextSet::from_list(&list(&["a", "b"]))
    );
    assert_ne!(TextSet::from_list(&list(&["a"])), TextSet::new());
}
