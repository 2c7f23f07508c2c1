use tmpfs::replace::replacen_str;

#[test]
fn replace_first_occurrence_only() {
    assert_eq!(replacen_str("foo foo", "foo", "bar", 1), "bar foo");
}

#[test]
fn replace_two_occurrences() {
    assert_eq!(replacen_str("foo foo", "foo", "bar", 2), "bar bar");
}

#[test]
fn count_zero_replaces_nothing() {
    assert_eq!(replacen_str("foo foo", "foo", "bar", 0), "foo foo");
}

#[test]
fn count_beyond_occurrences_replaces_all() {
    assert_eq!(replacen_str("aaa", "a", "b", 10), "bbb");
}

#[test]
fn occurrences_do_not_overlap() {
    assert_eq!(replacen_str("aaa", "aa", "b", 2), "ba");
}

#[test]
fn missing_pattern_leaves_text_unchanged() {
    assert_eq!(replacen_str("hello", "xyz", "q", 3), "hello");
}

#[test]
fn replacement_may_be_longer() {
    assert_eq!(replacen_str("a-b-c", "-", "--", 2), "a--b--c");
}

#[test]
fn matches_std_replacen() {
    let cases: Vec<(&str, &str, &str, usize)> = vec![
        ("foo foo", "foo", "bar", 1),
        ("banana", "an", "o", 2),
        ("aaaa", "aa", "a", 3),
        ("", "a", "b", 1),
        ("abc", "", "x", 2),
        ("ab", "", "x", 5),
        ("", "", "x", 1),
        ("h\u{e9}llo", "\u{e9}", "e", 1),
    ];
    for (s, pat, to, n) in cases {
        assert_eq!(replacen_str(s, pat, to, n), s.replacen(pat, to, n));
    }
}
