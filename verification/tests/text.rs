use mongo_embedded::text::{
    contains_char, decimal_text, encode_slashes_in, ends_with, last_segment, same_text,
};

#[test]
fn decimal_writing() {
    assert_eq!(decimal_text(0), "0");
    assert_eq!(decimal_text(7), "7");
    assert_eq!(decimal_text(10), "10");
    assert_eq!(decimal_text(27017), "27017");
    assert_eq!(decimal_text(u16::MAX), "65535");
}

#[test]
fn slashes_are_encoded() {
    assert_eq!(encode_slashes_in("/tmp/mongo.sock"), "%2Ftmp%2Fmongo.sock");
    assert_eq!(encode_slashes_in("no-slash"), "no-slash");
    assert_eq!(encode_slashes_in(""), "");
    assert_eq!(encode_slashes_in("ü/é"), "ü%2Fé");
}

#[test]
fn last_segments() {
    assert_eq!(last_segment("a/b/c"), "c");
    assert_eq!(last_segment("abc"), "abc");
    assert_eq!(last_segment("abc/"), "");
    assert_eq!(last_segment(""), "");
    assert_eq!(last_segment("/x"), "x");
}

#[test]
fn comparisons() {
    assert!(same_text("ab", "ab"));
    assert!(!same_text("ab", "abc"));
    assert!(!same_text("ab", "ac"));
    assert!(contains_char("a/b", '/'));
    assert!(!contains_char("ab", '/'));
    assert!(ends_with("m.sock", ".sock"));
    assert!(ends_with(".sock", ".sock"));
    assert!(!ends_with("sock", ".sock"));
    assert!(!ends_with("m.sockx", ".sock"));
}
