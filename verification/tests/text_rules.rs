use webcodex::cut::{
    piece_at, split_once, split_text, str_byte_skip, str_lower, str_replace_char,
    str_strip_prefixes, str_trim_end_set, str_trim_set, str_trim_start_set,
};
use webcodex::lines::{join_all, join_from, split_char, split_lines, split_words};
use webcodex::numbers::{decimal_u64, parse_i64, parse_u64};
use webcodex::order::str_less;
use webcodex::text::{
    contains_text, find_text, starts_with, str_byte_len, str_trim, str_trim_end,
    str_trim_start, strip_prefix,
};
use webcodex::text_map::TextMap;

fn strings(v: &[&str]) -> Vec<String> {
    v.iter().map(|s| s.to_string()).collect()
}

#[test]
fn trimming_agrees_with_std() {
    for s in ["", " ", " a ", "\t\n a b \r\n", "\u{3000}x\u{a0}", "a", "\u{200b}a"] {
        assert_eq!(str_trim(s), s.trim());
        assert_eq!(str_trim_start(s), s.trim_start());
        assert_eq!(str_trim_end(s), s.trim_end());
    }
}

#[test]
fn lines_agree_with_std() {
    for s in ["", "\n", "a", "a\n", "a\nb", "a\r\nb\r\n", "a\n\nb", "\r", "a\rb\n"] {
        let expected: Vec<String> = s.lines().map(str::to_string).collect();
        assert_eq!(split_lines(s), expected, "{s:?}");
    }
}

#[test]
fn splitting_agrees_with_std() {
    for s in ["", ",", "a,b", ",a,,b,", "abc"] {
        let expected: Vec<String> = s.split(',').map(str::to_string).collect();
        assert_eq!(split_char(s, ','), expected, "{s:?}");
    }
    for s in ["", "--", "a--b", "a---b", "--a----b"] {
        let expected: Vec<String> = s.split("--").map(str::to_string).collect();
        assert_eq!(split_text(s, "--"), expected, "{s:?}");
        assert_eq!(split_once(s, "--"), s.split_once("--"), "{s:?}");
    }
    for s in ["", "  ", " a  b\tc\n", "one"] {
        let expected: Vec<String> = s.split_whitespace().map(str::to_string).collect();
        assert_eq!(split_words(s), expected, "{s:?}");
    }
}

#[test]
fn joining_undoes_splitting() {
    for s in ["", "a,b,,c", ","] {
        assert_eq!(join_all(&split_char(s, ','), ","), s);
    }
    let parts = strings(&["a", "b", "c"]);
    assert_eq!(join_from(&parts, 1, "-"), "b-c");
    assert_eq!(join_from(&parts, 3, "-"), "");
}

#[test]
fn pieces_behind_the_end_are_empty() {
    let parts = strings(&["a", "b"]);
    assert_eq!(piece_at(&parts, 1), "b");
    assert_eq!(piece_at(&parts, 2), "");
}

#[test]
fn sets_of_characters_are_cut_off() {
    assert_eq!(str_trim_set("--a-b--", "-"), "a-b");
    assert_eq!(str_trim_start_set("./x/.", "./"), "x/.");
    assert_eq!(str_trim_end_set("./x/.", "./"), "./x");
    assert_eq!(str_strip_prefixes("./././a", "./"), "a");
    assert_eq!(str_strip_prefixes("a./", "./"), "a./");
}

#[test]
fn byte_positions_need_a_boundary() {
    assert_eq!(str_byte_skip("abc", 2), Some("c"));
    assert_eq!(str_byte_skip("abc", 3), Some(""));
    assert_eq!(str_byte_skip("abc", 4), None);
    assert_eq!(str_byte_skip("\u{e9}a", 1), None);
    assert_eq!(str_byte_skip("\u{e9}a", 2), Some("a"));
    assert_eq!(str_byte_len("\u{e9}\u{20ac}\u{1f600}a"), 10);
}

#[test]
fn ascii_letters_are_lowered() {
    assert_eq!(str_lower("AbC-1"), "abc-1");
    assert_eq!(str_replace_char("it's", '\'', "'\"'\"'"), "it'\"'\"'s");
}

#[test]
fn texts_are_found() {
    assert_eq!(find_text("abcabc", "bc", 0), Some(1));
    assert_eq!(find_text("abcabc", "bc", 2), Some(4));
    assert_eq!(find_text("abc", "x", 0), None);
    assert!(contains_text("abc", ""));
    assert!(starts_with("abc", "ab") && !starts_with("abc", "b"));
    assert_eq!(strip_prefix("a/b", "a/"), Some("b"));
    assert_eq!(strip_prefix("b", "a/"), None);
}

#[test]
fn numbers_are_written_and_read() {
    for n in [0u64, 7, 10, 4096, u64::MAX] {
        assert_eq!(decimal_u64(n), n.to_string());
        assert_eq!(parse_u64(&n.to_string(), u64::MAX), Some(n));
    }
    for n in [0i64, -1, 42, i64::MAX, i64::MIN] {
        assert_eq!(parse_i64(&n.to_string()), Some(n));
    }
    for s in ["", "-", "+", "a", "1a", " 1", "18446744073709551616"] {
        assert_eq!(parse_u64(s, u64::MAX), s.parse::<u64>().ok(), "{s:?}");
        assert_eq!(parse_i64(s), s.parse::<i64>().ok(), "{s:?}");
    }
    assert_eq!(parse_u64("+5", u64::MAX), "+5".parse::<u64>().ok());
    assert_eq!(parse_i64("+5"), Some(5));
    assert_eq!(parse_u64("256", 255), None);
    assert_eq!(parse_u64("255", 255), Some(255));
}

#[test]
fn texts_are_ordered_as_in_std() {
    let all = ["", "a", "aa", "ab", "b", "\u{e9}", "\u{ffff}", "\u{10000}"];
    for a in all {
        for b in all {
            assert_eq!(str_less(a, b), a < b, "{a:?} {b:?}");
        }
    }
}

#[test]
fn maps_keep_one_value_for_each_key() {
    let mut map: TextMap<u64> = TextMap::new();
    assert_eq!(map.len(), 0);
    map.insert("b".to_string(), 1);
    map.insert("a".to_string(), 2);
    map.insert("b".to_string(), 3);
    assert_eq!(map.len(), 2);
    assert_eq!(map.get("b"), Some(&3));
    assert_eq!(map.get("c"), None);
    if let Some(v) = map.get_mut("a") {
        *v += 5;
    }
    assert_eq!(map.get("a"), Some(&7));
    assert_eq!(map.remove("b"), Some(3));
    assert_eq!(map.remove("b"), None);
    assert!(!map.contains_key("b") && map.contains_key("a"));
}
