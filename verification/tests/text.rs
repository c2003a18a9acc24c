use cf_ddns_ipv6::text::{
    ascii_lowered_chars, char_is_whitespace, chars_contain, chars_of, decimal_text,
    eq_ignore_ascii_case, is_blank, joined, same_optional_text, same_text, sorted_positions,
    text_contains, text_precedes, trim_text,
};

#[test]
fn chars_of_keeps_every_character() {
    assert_eq!(chars_of("aé\u{1F600}z"), vec!['a', 'é', '\u{1F600}', 'z']);
    assert_eq!(chars_of(""), Vec::<char>::new());
}

#[test]
fn whitespace_is_what_the_standard_library_calls_whitespace() {
    let mut code: u32 = 0;
    while code <= 0x10ffff {
        if let Some(c) = char::from_u32(code) {
            assert_eq!(char_is_whitespace(c), c.is_whitespace(), "code point {:x}", code);
        }
        code += 1;
    }
}

#[test]
fn trim_text_agrees_with_the_standard_library() {
    let samples = [
        "",
        " ",
        "  a  ",
        "\t\r\n x y \u{a0}\u{3000}",
        "no-space",
        "\u{2003}wide\u{2003}",
        " é ",
        "a b",
    ];
    for sample in samples {
        assert_eq!(trim_text(sample), sample.trim());
        assert_eq!(is_blank(sample), sample.trim().is_empty());
    }
}

#[test]
fn ascii_lowering_touches_ascii_capitals_only() {
    let lowered: String = ascii_lowered_chars("AbC É Z@[").into_iter().collect();
    assert_eq!(lowered, "AbC É Z@[".to_ascii_lowercase());
    assert_eq!(lowered, "abc É z@[");
}

#[test]
fn eq_ignore_ascii_case_agrees_with_the_standard_library() {
    let pairs = [("Example.COM", "example.com"), ("a", "b"), ("", ""), ("É", "é"), ("ab", "abc")];
    for (a, b) in pairs {
        assert_eq!(eq_ignore_ascii_case(a, b), a.eq_ignore_ascii_case(b));
    }
}

#[test]
fn contains_finds_a_needle_anywhere() {
    assert!(text_contains("the chinanet backbone", "chinanet"));
    assert!(text_contains("abc", ""));
    assert!(text_contains("", ""));
    assert!(text_contains("abc", "c"));
    assert!(text_contains("abc", "abc"));
    assert!(!text_contains("abc", "abcd"));
    assert!(!text_contains("abc", "ca"));
    assert!(!text_contains("", "a"));
    assert!(chars_contain(&vec!['a', 'a', 'b'], &vec!['a', 'b']));
}

#[test]
fn text_order_agrees_with_the_standard_library() {
    let samples = ["", "a", "ab", "b", "B", "é", "2001:db8::1", "2001:db8::10", "fe80::1", "\u{1F600}"];
    for a in samples {
        for b in samples {
            assert_eq!(text_precedes(a, b), a < b, "{:?} < {:?}", a, b);
        }
    }
}

#[test]
fn same_text_compares_characters() {
    assert!(same_text("eth0", "eth0"));
    assert!(!same_text("eth0", "eth1"));
    assert!(!same_text("eth0", "eth"));
    assert!(same_optional_text(&None, &None));
    assert!(same_optional_text(&Some("a".to_string()), &Some("a".to_string())));
    assert!(!same_optional_text(&Some("a".to_string()), &None));
    assert!(!same_optional_text(&Some("a".to_string()), &Some("b".to_string())));
}

#[test]
fn decimal_text_writes_numbers_without_leading_zeros() {
    assert_eq!(decimal_text(0), "0");
    assert_eq!(decimal_text(7), "7");
    assert_eq!(decimal_text(10), "10");
    assert_eq!(decimal_text(8080), "8080");
    assert_eq!(decimal_text(65535), "65535");
    assert_eq!(decimal_text(u64::MAX), u64::MAX.to_string());
}

#[test]
fn joined_concatenates() {
    assert_eq!(joined("http://", "host"), "http://host");
    assert_eq!(joined("", ""), "");
}

#[test]
fn sorted_positions_is_a_stable_sort() {
    let keys: Vec<String> = ["b", "a", "c", "a", "b"].iter().map(|s| s.to_string()).collect();
    assert_eq!(sorted_positions(&keys), vec![1, 3, 0, 4, 2]);
    assert_eq!(sorted_positions(&Vec::new()), Vec::<usize>::new());
    let single = vec!["x".to_string()];
    assert_eq!(sorted_positions(&single), vec![0]);
}

#[test]
fn sorted_positions_agrees_with_the_standard_sort() {
    let keys: Vec<String> =
        ["wlan0", "eth1", "lo", "eth0", "docker0", "eth0", "Wi-Fi", "br-1"].iter().map(|s| s.to_string()).collect();
    let arranged: Vec<String> = sorted_positions(&keys).into_iter().map(|i| keys[i].clone()).collect();
    let mut expected = keys.clone();
    expected.sort();
    assert_eq!(arranged, expected);
}
