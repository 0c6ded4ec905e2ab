use readiness_barrier::text::str_eq;

#[test]
fn equal_strings_compare_equal() {
    assert!(str_eq("frontend", "frontend"));
    assert!(str_eq("", ""));
    assert!(str_eq("a", "a"));
}

#[test]
fn different_lengths_compare_unequal() {
    assert!(!str_eq("frontend", "front"));
    assert!(!str_eq("", "backend"));
    assert!(!str_eq("backend", "backends"));
}

#[test]
fn same_length_different_characters_compare_unequal() {
    assert!(!str_eq("backend", "backand"));
    assert!(!str_eq("unknown", "backend"));
    assert!(!str_eq("Frontend", "frontend"));
}

#[test]
fn multibyte_characters_are_compared_by_character() {
    assert!(str_eq("héllo", "héllo"));
    assert!(!str_eq("héllo", "hello"));
}
