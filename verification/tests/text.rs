use stream_gate::table::Table;
use stream_gate::text::{chars_of, html, replace_text, same_text, split_text};

#[test]
fn splitting_is_that_of_the_standard_library() {
    for text in ["", "/", "a", "a/b", "/a//b/", "rtmp://host/app/live", "ä/ö/ü", "//"] {
        let expected: Vec<String> = text.split('/').map(|piece| piece.to_string()).collect();
        assert_eq!(split_text(text, '/'), expected, "{}", text);
    }
}

#[test]
fn joined_pieces_are_the_text() {
    for text in ["", "/", "a/b/c", "//a"] {
        assert_eq!(split_text(text, '/').join("/"), text);
    }
}

#[test]
fn replacing_is_that_of_the_standard_library() {
    for (text, pat, to) in [
        ("", "a", "b"),
        ("aaa", "aa", "b"),
        ("aaaa", "aa", "b"),
        ("a/b/a/b", "/b", ""),
        ("abc", "", "-"),
        ("", "", "-"),
        ("äöä", "ä", "xy"),
        ("abab", "aba", "ba"),
        ("abc", "abcd", "x"),
        ("abc", "abc", ""),
    ] {
        assert_eq!(replace_text(text, pat, to), text.replace(pat, to), "{} {}", text, pat);
    }
}

#[test]
fn texts_are_compared_by_character() {
    assert!(same_text("", ""));
    assert!(same_text("ä", "ä"));
    assert!(!same_text("a", "A"));
    assert!(!same_text("a", "ab"));
    assert_eq!(chars_of("aß"), vec!['a', 'ß']);
}

#[test]
fn templates_are_filled_in_order() {
    let fill = |from: &str, to: &str| (from.to_string(), to.to_string());
    assert_eq!(html("<b>{name}</b>", &vec![fill("{name}", "x")]), "<b>x</b>");
    assert_eq!(html("a", &vec![fill("a", "b"), fill("b", "c")]), "c");
    assert_eq!(html("a", &vec![fill("b", "c"), fill("a", "b")]), "b");
    assert_eq!(html("a", &Vec::new()), "a");
}

#[test]
fn a_table_keeps_each_key_once() {
    let mut table: Table<String, u32> = Table::new();
    let key = |key: &str| key.to_string();
    assert!(!table.contains(&key("a")));
    table.insert(key("a"), 1);
    table.insert(key("b"), 2);
    table.insert(key("a"), 3);
    assert_eq!(table.get(&key("a")), Some(&3));
    assert_eq!(table.list().len(), 2);
    assert_eq!(table.remove(&key("a")), Some(3));
    assert_eq!(table.remove(&key("a")), None);
    assert_eq!(table.get(&key("a")), None);
    assert_eq!(table.get(&key("b")), Some(&2));
}
