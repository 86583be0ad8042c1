use patreon::text::str_eq;

#[test]
fn equal_slices_are_equal() {
    assert!(str_eq("", ""));
    assert!(str_eq("paid", "paid"));
    assert!(str_eq("p\u{e4}id \u{1f600}", "p\u{e4}id \u{1f600}"));
}

#[test]
fn different_slices_are_different() {
    assert!(!str_eq("paid", "Paid"));
    assert!(!str_eq("paid", "pai"));
    assert!(!str_eq("", " "));
    assert!(!str_eq("p\u{e4}id", "paid"));
    assert!(!str_eq("abc", "abd"));
}
