use football_rustbot::text::{
    chars_of, clone_opt_string, join_strings, replace_all, str_eq, string_from_chars,
    u64_to_string,
};

#[test]
fn decimal_rendering_matches_the_usual_notation() {
    assert_eq!(u64_to_string(0), "0");
    assert_eq!(u64_to_string(7), "7");
    assert_eq!(u64_to_string(10), "10");
    assert_eq!(u64_to_string(1230), "1230");
    assert_eq!(u64_to_string(u64::MAX), "18446744073709551615");
}

#[test]
fn chars_round_trip_through_a_vector() {
    let v = chars_of("héllo ⚽");
    assert_eq!(v.len(), 7);
    assert_eq!(string_from_chars(&v), "héllo ⚽");
    assert!(chars_of("").is_empty());
}

#[test]
fn replace_substitutes_every_occurrence() {
    assert_eq!(replace_all("a<X>b<X>c", "<X>", "ZZ"), "aZZbZZc");
    assert_eq!(replace_all("<X><X>", "<X>", ""), "");
    assert_eq!(replace_all("abc", "<X>", "ZZ"), "abc");
    assert_eq!(replace_all("", "<X>", "ZZ"), "");
}

#[test]
fn replace_with_an_empty_pattern_changes_nothing() {
    assert_eq!(replace_all("abc", "", "ZZ"), "abc");
}

#[test]
fn replace_does_not_rescan_replaced_text() {
    assert_eq!(replace_all("aaa", "aa", "a"), "aa");
    assert_eq!(replace_all("abab", "ab", "ba"), "baba");
}

#[test]
fn string_equality_compares_characters() {
    assert!(str_eq("abc", "abc"));
    assert!(!str_eq("abc", "abd"));
    assert!(!str_eq("abc", "ab"));
    assert!(str_eq("", ""));
}

#[test]
fn joining_inserts_the_separator_between_lines() {
    assert_eq!(join_strings(&vec![], "\n"), "");
    assert_eq!(join_strings(&vec!["a".to_string()], "\n"), "a");
    assert_eq!(
        join_strings(&vec!["a".to_string(), "b".to_string(), "c".to_string()], "\n"),
        "a\nb\nc"
    );
}

#[test]
fn optional_strings_copy_exactly() {
    assert_eq!(clone_opt_string(&Some("x".to_string())), Some("x".to_string()));
    assert_eq!(clone_opt_string(&None), None);
}
