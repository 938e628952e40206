//! Text operations, against what the standard library does.

use imkitchen::forms;
use imkitchen::json;
use imkitchen::text;

#[test]
fn white_space_is_that_of_the_standard_library() {
    for n in 0..=0x10ffff_u32 {
        if let Some(c) = char::from_u32(n) {
            assert_eq!(text::white_space(c), c.is_whitespace(), "{:x}", n);
        }
    }
}

#[test]
fn trimming_is_that_of_the_standard_library() {
    for s in ["", " ", "a", " a", "a ", "\u{2003}a b\u{3000}\n", "é\u{a0}", "\u{200b}x"] {
        assert_eq!(text::trim(s), s.trim());
        assert_eq!(text::is_blank(s), s.trim().is_empty());
    }
}

#[test]
fn numbers_are_read_as_by_the_standard_library() {
    for s in [
        "", "+", "-", "0", "7", "+7", "-7", "007", "4294967295", "4294967296", "99999999999999",
        " 1", "1 ", "1.5", "0x10", "٣", "++1", "1+",
    ] {
        assert_eq!(text::parse_u32(s), s.parse::<u32>().ok(), "{}", s);
    }
}

#[test]
fn numbers_are_written_in_decimal() {
    for n in [0, 9, 10, 101, 4294967296, u64::MAX] {
        assert_eq!(text::decimal_text(n), n.to_string());
    }
}

#[test]
fn texts_are_split_at_the_first_and_the_last() {
    assert_eq!(text::split_first("a:b:c", ':'), Some(("a", "b:c")));
    assert_eq!(text::split_last("a.b.c", '.'), Some(("a.b", "c")));
    assert_eq!(text::split_first("abc", ':'), None);
    assert_eq!(text::split_last("é.", '.'), Some(("é", "")));
}

#[test]
fn texts_are_searched() {
    assert!(text::contains_text("text/html+partial, */*", "text/html+partial"));
    assert!(!text::contains_text("text/html", "text/html+partial"));
    assert!(text::contains_text("abc", ""));
    assert!(text::begins_with("multipart/form-data; x", "multipart/form-data"));
    assert!(!text::begins_with("multi", "multipart"));
    assert!(text::lowers_to("JSon", "json"));
    assert!(!text::lowers_to("jsonÉ", "jsoné"));
}

#[test]
fn form_bodies_are_taken_apart() {
    let pairs = forms::fields(b"a=1&b=x+y%26z&a=2&&c");
    assert_eq!(
        pairs,
        vec![
            ("a".to_string(), "1".to_string()),
            ("b".to_string(), "x y&z".to_string()),
            ("a".to_string(), "2".to_string()),
            ("c".to_string(), "".to_string()),
        ]
    );
    assert_eq!(forms::first_in(&pairs, "a").as_deref(), Some("1"));
    assert_eq!(forms::last_in(&pairs, "a").as_deref(), Some("2"));
    assert_eq!(forms::all_in(&pairs, "a"), vec!["1".to_string(), "2".to_string()]);
    assert_eq!(forms::first_in(&pairs, "d"), None);
    assert!(forms::all_in(&pairs, "d").is_empty());
}

#[test]
fn queries_are_read_back_as_they_were_written() {
    let pairs = vec![("filter", "main"), ("q", "a&b = é+%"), ("", "")];
    let query = forms::query(&pairs);
    assert_eq!(query, "filter=main&q=a%26b+%3D+%C3%A9%2B%25&=");
    let read = forms::fields(query.as_bytes());
    assert_eq!(read.len(), 3);
    for (i, (name, value)) in pairs.iter().enumerate() {
        assert_eq!(read[i], (name.to_string(), value.to_string()));
    }
    assert_eq!(forms::query(&vec![]), "");
}

#[test]
fn lists_of_texts_are_read_back_as_they_were_written() {
    let items = vec!["a".to_string(), "\"q\"\n\u{1}".to_string(), "é🍲".to_string()];
    let json_text = json::json_of(&items);
    assert_eq!(json_text, "[\"a\",\"\\\"q\\\"\\n\\u0001\",\"é🍲\"]");
    assert_eq!(json::texts_of(&json_text), items);
    assert_eq!(json::json_of(&vec![]), "[]");
    assert!(json::texts_of("not json").is_empty());
    assert!(json::texts_of("[\"a\", 1]").is_empty());
    assert!(json::list_or_empty(None).is_empty());
}
