use techpulse::text::{
    blank, char_is_whitespace, chars_of, contains_dash, contains_text, decimal_string, text_eq,
};
use techpulse::text_map::TextMap;
use techpulse::ranking::highest_first;

#[test]
fn whitespace_is_what_the_standard_library_calls_whitespace() {
    for code in 0..=0x10FFFFu32 {
        if let Some(c) = char::from_u32(code) {
            assert_eq!(char_is_whitespace(c), c.is_whitespace(), "U+{:04X}", code);
        }
    }
}

#[test]
fn blank_is_what_trimming_leaves_empty() {
    for text in ["", " ", "\t\r\n", "\u{2003}\u{205f}", " a ", "a", "\u{200b}", "_", " \u{feff}"] {
        assert_eq!(blank(text), text.trim().is_empty(), "{:?}", text);
    }
}

#[test]
fn dashes_are_found_wherever_they_stand() {
    let cases = [
        ("", false),
        ("-", true),
        ("a-", true),
        ("-a", true),
        ("abc", false),
        ("a–b", false),
        ("é-é", true),
        ("a_b", false),
    ];
    for (text, found) in cases {
        assert_eq!(contains_dash(text), found, "{:?}", text);
    }
}

#[test]
fn numbers_are_written_in_base_ten() {
    for n in [0u64, 1, 9, 10, 11, 99, 100, 101, 12345, 1000000007, u64::MAX - 1, u64::MAX] {
        assert_eq!(decimal_string(n), n.to_string());
    }
    assert_eq!(decimal_string(u64::MAX), "18446744073709551615");
}

#[test]
fn texts_are_searched_character_by_character() {
    let cases = [
        ("", "", true),
        ("abc", "", true),
        ("", "a", false),
        ("abc", "abc", true),
        ("abc", "abcd", false),
        ("abc", "bc", true),
        ("abc", "ac", false),
        ("aaab", "aab", true),
        ("abab", "bab", true),
        ("héllo wörld", "o w", true),
        ("héllo", "e", false),
        ("日本語のテキスト", "語の", true),
    ];
    for (hay, needle, found) in cases {
        assert_eq!(contains_text(&chars_of(hay), &chars_of(needle)), found, "{:?} in {:?}", needle, hay);
        assert_eq!(hay.contains(needle), found);
    }
}

#[test]
fn characters_and_equality() {
    assert_eq!(chars_of("héy"), vec!['h', 'é', 'y']);
    assert!(chars_of("").is_empty());
    assert!(text_eq("", ""));
    assert!(text_eq("abc", "abc"));
    assert!(!text_eq("abc", "abd"));
    assert!(!text_eq("abc", "ab"));
}

#[test]
fn a_text_map_keeps_one_value_for_each_key() {
    let mut map: TextMap<u32> = TextMap::new();
    assert!(map.is_empty());
    assert_eq!(map.len(), 0);
    assert!(map.get("a").is_none());
    assert!(map.position("a").is_none());

    map.insert("a".into(), 1);
    map.insert("b".into(), 2);
    map.insert("a".into(), 3);
    map.insert("".into(), 4);

    assert!(!map.is_empty());
    assert_eq!(map.len(), 3);
    assert_eq!(map.get("a"), Some(&3));
    assert_eq!(map.get("b"), Some(&2));
    assert_eq!(map.get(""), Some(&4));
    assert!(map.get("A").is_none());
    // A key stays where it was first put.
    assert_eq!(map.position("a"), Some(0));
    assert_eq!(map.position("b"), Some(1));
    assert_eq!(map.position(""), Some(2));
    assert_eq!(map.key_at(0), "a");
    assert_eq!(*map.value_at(0), 3);
    assert_eq!(map.key_at(2), "");
    assert_eq!(*map.value_at(1), 2);
}

#[test]
fn ranking_puts_the_highest_first_and_keeps_ties_in_place() {
    assert_eq!(highest_first(&Vec::new()), Vec::<usize>::new());
    assert_eq!(highest_first(&vec![5]), vec![0]);
    assert_eq!(highest_first(&vec![1, 2, 3]), vec![2, 1, 0]);
    assert_eq!(highest_first(&vec![3, 2, 1]), vec![0, 1, 2]);
    assert_eq!(highest_first(&vec![2, 9, 2, 9, 1]), vec![1, 3, 0, 2, 4]);
    assert_eq!(highest_first(&vec![i128::MIN, i128::MAX, 0, -1]), vec![1, 2, 3, 0]);
    assert_eq!(highest_first(&vec![7, 7, 7]), vec![0, 1, 2]);
}
