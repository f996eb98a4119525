use launcher_config::str_eq;

#[test]
fn equal_strings_compare_equal() {
    assert!(str_eq("", ""));
    assert!(str_eq("BOTH", "BOTH"));
    assert!(str_eq("/usr/lib/jvm/java", &String::from("/usr/lib/jvm/java")));
    assert!(str_eq("h\u{e4}uschen \u{2602}", "h\u{e4}uschen \u{2602}"));
}

#[test]
fn strings_of_different_length_differ() {
    assert!(!str_eq("", " "));
    assert!(!str_eq("BOTH", "BOTH "));
    assert!(!str_eq(" BOTH", "BOTH"));
    assert!(!str_eq("BOT", "BOTH"));
}

#[test]
fn strings_of_equal_length_that_differ() {
    assert!(!str_eq("BOTH", "both"));
    assert!(!str_eq("BOTH", "BOTh"));
    assert!(!str_eq("aOTH", "BOTH"));
    assert!(!str_eq("\u{e9}", "e\u{301}"));
    assert!(!str_eq("ab", "\u{e9}"));
}
