use kswitch::text::{chars_of, join, str_lt, trim};

#[test]
fn trim_both_ends() {
    assert_eq!(trim("  a b\t\n"), "a b");
    assert_eq!(trim("\u{3000}x\u{a0}"), "x");
    assert_eq!(trim(" \n\t "), "");
    assert_eq!(trim(""), "");
    assert_eq!(trim("abc"), "abc");
}

#[test]
fn string_order() {
    assert!(str_lt("5.10.0", "5.9.0"));
    assert!(!str_lt("5.9.0", "5.10.0"));
    assert!(str_lt("5.1", "5.1.0"));
    assert!(!str_lt("5.1", "5.1"));
    assert!(str_lt("", "a"));
    assert!(str_lt("Z", "a"));
}

#[test]
fn chars_and_concat() {
    assert_eq!(chars_of("aé"), vec!['a', 'é']);
    assert_eq!(join("/boot/", "x"), "/boot/x");
}
