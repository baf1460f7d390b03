use frostflake::text::{approves, approves_normalized, last_segment, same_text};

#[test]
fn approval_needs_a_single_y() {
    assert!(approves("Y"));
    assert!(approves(" y\r\n"));
    assert!(!approves("n"));
    assert!(!approves("yes"));
    assert!(!approves(""));
}

#[test]
fn normalized_approval_is_exact() {
    assert!(approves_normalized("Y"));
    assert!(!approves_normalized("y"));
    assert!(!approves_normalized(" Y"));
}

#[test]
fn last_segment_follows_the_last_slash() {
    assert_eq!(last_segment("/ws/abc"), "abc");
    assert_eq!(last_segment("abc"), "abc");
    assert_eq!(last_segment("/a/"), "");
    assert_eq!(last_segment(""), "");
}

#[test]
fn same_text_compares_characters() {
    assert!(same_text("abc", "abc"));
    assert!(!same_text("abc", "abd"));
    assert!(!same_text("abc", "ab"));
    assert!(same_text("", ""));
}
