use traewelling_rss::text::{push_decimal, split};

fn decimal(n: u32) -> String {
    let mut out = String::new();
    push_decimal(&mut out, n);
    out
}

#[test]
fn decimal_of_small_and_large_numbers() {
    assert_eq!(decimal(0), "0");
    assert_eq!(decimal(7), "7");
    assert_eq!(decimal(10), "10");
    assert_eq!(decimal(42), "42");
    assert_eq!(decimal(1_000), "1000");
    assert_eq!(decimal(u32::MAX), "4294967295");
}

#[test]
fn decimal_is_appended_to_what_is_there() {
    let mut out = String::from("/status/");
    push_decimal(&mut out, 305);
    assert_eq!(out, "/status/305");
}

#[test]
fn decimal_agrees_with_the_standard_library() {
    let mut n: u32 = 1;
    for _ in 0..40 {
        assert_eq!(decimal(n), n.to_string());
        n = n.wrapping_mul(7).wrapping_add(3);
    }
}

#[test]
fn split_of_the_empty_text_is_one_empty_piece() {
    assert_eq!(split("", ','), vec![""]);
}

#[test]
fn split_without_a_separator_is_the_text() {
    assert_eq!(split("alice", ','), vec!["alice"]);
}

#[test]
fn split_keeps_empty_pieces() {
    assert_eq!(split("alice,bob", ','), vec!["alice", "bob"]);
    assert_eq!(split(",alice,,bob,", ','), vec!["", "alice", "", "bob", ""]);
    assert_eq!(split(",", ','), vec!["", ""]);
}

#[test]
fn split_counts_characters_not_bytes() {
    assert_eq!(split("jürgen,zoë,李", ','), vec!["jürgen", "zoë", "李"]);
}

#[test]
fn split_agrees_with_the_standard_library() {
    for text in ["", ",", "a", "a,", ",a", "a,b,c", ",,,", "ä,,ö", " a , b "] {
        let expected: Vec<&str> = text.split(',').collect();
        assert_eq!(split(text, ','), expected);
    }
}
