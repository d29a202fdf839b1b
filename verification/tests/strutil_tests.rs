use shellm::strutil::{str_eq, str_starts_with, trim, trim_quotes};

#[test]
fn trim_removes_surrounding_whitespace_only() {
    assert_eq!(trim("  echo hi  \n"), "echo hi");
    assert_eq!(trim("\t x y \r\n"), "x y");
    assert_eq!(trim("no-op"), "no-op");
    assert_eq!(trim(""), "");
    assert_eq!(trim(" \n\t "), "");
    assert_eq!(trim("a  b"), "a  b");
    assert_eq!(trim("\u{a0}x\u{3000}"), "x");
}

#[test]
fn trim_quotes_removes_surrounding_quotes_only() {
    assert_eq!(trim_quotes("\"ubuntu\""), "ubuntu");
    assert_eq!(trim_quotes("ubuntu"), "ubuntu");
    assert_eq!(trim_quotes("\"\"x\"\""), "x");
    assert_eq!(trim_quotes("a\"b"), "a\"b");
    assert_eq!(trim_quotes("\"\""), "");
}

#[test]
fn character_equality_and_prefix() {
    assert!(str_eq("abc", "abc"));
    assert!(!str_eq("abc", "abd"));
    assert!(!str_eq("abc", "ab"));
    assert!(str_eq("", ""));
    assert!(str_starts_with("ID=ubuntu", "ID="));
    assert!(!str_starts_with("IX=ubuntu", "ID="));
    assert!(!str_starts_with("ID", "ID="));
    assert!(str_starts_with("anything", ""));
}
