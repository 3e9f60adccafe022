use dfx::text::{appended, bytes_eq, str_eq, str_le};

#[test]
fn texts_are_equal_where_their_characters_are() {
    assert!(str_eq("", ""));
    assert!(str_eq("anonymous", "anonymous"));
    assert!(!str_eq("anonymous", "anonymouse"));
    assert!(!str_eq("anonymous", "Anonymous"));
    assert!(!str_eq("a", ""));
    assert!(str_eq("日本", "日本"));
    assert!(!str_eq("日本", "日"));
}

#[test]
fn texts_are_ordered_as_strings_are() {
    let samples = ["", "a", "A", "ab", "b", "10", "9", "é", "z", "日本", "a\u{0}", "\u{10ffff}"];
    for a in samples {
        for b in samples {
            assert_eq!(str_le(a, b), a <= b, "{:?} against {:?}", a, b);
        }
    }
}

#[test]
fn prefix_stands_before_its_extensions() {
    assert!(str_le("ab", "abc"));
    assert!(!str_le("abc", "ab"));
    assert!(str_le("abc", "abc"));
}

#[test]
fn appended_puts_the_second_text_behind_the_first() {
    assert_eq!(appended("ab", "cd"), "abcd");
    assert_eq!(appended("", "cd"), "cd");
    assert_eq!(appended("ab", ""), "ab");
}

#[test]
fn byte_strings_are_equal_where_their_bytes_are() {
    assert!(bytes_eq(&[], &[]));
    assert!(bytes_eq(&[1, 2, 3], &[1, 2, 3]));
    assert!(!bytes_eq(&[1, 2, 3], &[1, 2]));
    assert!(!bytes_eq(&[1, 2, 3], &[1, 2, 4]));
    assert!(!bytes_eq(&[], &[0]));
}
