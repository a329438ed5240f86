use search_api_server::text::{characters, join, number_text, parse_number, same_text};

#[test]
fn numbers_are_written_in_decimal() {
    assert_eq!(number_text(0), "0");
    assert_eq!(number_text(9), "9");
    assert_eq!(number_text(10), "10");
    assert_eq!(number_text(4096), "4096");
    assert_eq!(number_text(1234567890), "1234567890");
    assert_eq!(number_text(u64::MAX), "18446744073709551615");
}

#[test]
fn written_numbers_are_read_back() {
    for n in [0, 1, 7, 10, 99, 100, 512, 65535, u64::MAX - 1, u64::MAX] {
        assert_eq!(parse_number(number_text(n).as_bytes()), Some(n));
        assert_eq!(number_text(n), n.to_string());
    }
}

#[test]
fn numbers_are_read_as_the_standard_library_reads_them() {
    for text in [
        "0",
        "00",
        "007",
        "+5",
        "++5",
        "+",
        "",
        "-1",
        "-0",
        " 1",
        "1 ",
        "1_000",
        "12a",
        "a12",
        "1.5",
        "18446744073709551615",
        "18446744073709551616",
        "18446744073709551620",
        "000000000000000000000000000000001",
        "99999999999999999999999999x",
        "\u{0661}",
    ] {
        assert_eq!(parse_number(text.as_bytes()), text.parse::<u64>().ok(), "{:?}", text);
    }
}

#[test]
fn lists_are_joined_with_a_separator() {
    let list = |parts: &[&str]| parts.iter().map(|s| s.to_string()).collect::<Vec<String>>();
    assert_eq!(join(&list(&[]), ","), "");
    assert_eq!(join(&list(&["a"]), ","), "a");
    assert_eq!(join(&list(&["a", "b"]), ","), "a,b");
    assert_eq!(join(&list(&["a", "", "c"]), ", "), "a, , c");
}

#[test]
fn texts_are_compared_by_character() {
    assert!(same_text("", ""));
    assert!(same_text("/echo", "/echo"));
    assert!(!same_text("/echo", "/Echo"));
    assert!(!same_text("/echo", "/echo/"));
    assert_eq!(characters("a\u{e9}\u{1f600}"), vec!['a', '\u{e9}', '\u{1f600}']);
}
