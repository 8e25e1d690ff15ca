use rain_status::text::{chars_of, decimal_of, has, join_all, lowercase, replace_all, strip_all_prefixes, trimmed};

fn s(v: Vec<char>) -> String {
    v.into_iter().collect()
}

#[test]
fn trim_removes_unicode_space() {
    assert_eq!(s(trimmed(&chars_of("\u{3000} a b\t\n"))), "a b");
    assert_eq!(s(trimmed(&chars_of("   "))), "");
}

#[test]
fn lowercase_is_ascii_only() {
    assert_eq!(s(lowercase(&chars_of("AbC-ÄÖ"))), "abc-ÄÖ");
}

#[test]
fn contains_finds_substrings() {
    assert!(has(&chars_of("music.youtube.com"), &chars_of("youtube")));
    assert!(!has(&chars_of("you"), &chars_of("youtube")));
    assert!(has(&chars_of("x"), &chars_of("")));
}

#[test]
fn strip_repeated_prefix() {
    assert_eq!(s(strip_all_prefixes(&chars_of("www.www.example.com"), &chars_of("www."))), "example.com");
}

#[test]
fn join_with_separator() {
    let v = vec!["a".to_string(), "b".to_string(), "c".to_string()];
    assert_eq!(s(join_all(&v, &chars_of(", "))), "a, b, c");
    assert_eq!(s(join_all(&vec![], &chars_of(", "))), "");
}

#[test]
fn replace_all_occurrences() {
    assert_eq!(s(replace_all(&chars_of("aXbXXc"), &chars_of("X"), &chars_of("--"))), "a--b----c");
    assert_eq!(s(replace_all(&chars_of("aaa"), &chars_of("aa"), &chars_of("b"))), "ba");
}

#[test]
fn decimal_matches_display() {
    for n in [0i64, 7, 10, 42, -1, -305, i64::MAX, i64::MIN] {
        assert_eq!(s(decimal_of(n)), n.to_string());
    }
}
