use launcher_config::text::str_eq;

#[test]
fn equal_texts_are_equal() {
    assert!(str_eq("", ""));
    assert!(str_eq("stable", "stable"));
    assert!(str_eq("gr\u{fc}n \u{1f600}", "gr\u{fc}n \u{1f600}"));
}

#[test]
fn texts_of_different_length_differ() {
    assert!(!str_eq("stable", "stabl"));
    assert!(!str_eq("", "x"));
    assert!(!str_eq("stable", "stable "));
}

#[test]
fn texts_of_the_same_length_differ_by_one_character() {
    assert!(!str_eq("stable", "stablE"));
    assert!(!str_eq("xtable", "stable"));
    assert!(!str_eq("gr\u{fc}n", "gr\u{f6}n"));
}
