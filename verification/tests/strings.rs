use issue_bot::strutil::{
    find_first_char, find_last_slash, has_triple_dot, second_token, str_eq, str_starts_with,
};

#[test]
fn last_slash_position() {
    assert_eq!(find_last_slash("a/b/c"), Some(3));
    assert_eq!(find_last_slash("/"), Some(0));
    assert_eq!(find_last_slash("abc"), None);
    assert_eq!(find_last_slash(""), None);
}

#[test]
fn first_char_position() {
    assert_eq!(find_first_char("a b c", ' '), Some(1));
    assert_eq!(find_first_char("abc", ' '), None);
}

#[test]
fn triple_dot_detection() {
    assert!(has_triple_dot("a...b"));
    assert!(has_triple_dot("..."));
    assert!(!has_triple_dot("a..b"));
    assert!(!has_triple_dot(".."));
    assert!(!has_triple_dot(""));
    assert!(has_triple_dot("...."));
}

#[test]
fn prefix_test() {
    assert!(str_starts_with("++fakeit 12", "++fakeit"));
    assert!(str_starts_with("abc", ""));
    assert!(!str_starts_with("+fakeit", "++fakeit"));
    assert!(!str_starts_with("ab", "abc"));
}

#[test]
fn string_equality() {
    assert!(str_eq("abc", "abc"));
    assert!(!str_eq("abc", "abd"));
    assert!(!str_eq("abc", "ab"));
    assert!(str_eq("", ""));
}

#[test]
fn second_field_extraction() {
    assert_eq!(second_token("++fakeit 906"), Some("906".to_string()));
    assert_eq!(second_token("a b c"), Some("b".to_string()));
    assert_eq!(second_token("a  b"), Some(String::new()));
    assert_eq!(second_token("justone"), None);
    assert_eq!(second_token("trailing "), Some(String::new()));
}
