use cr8s_quickstart::text::{find_char, join_strings, split_lines, str_starts_with, u64_to_dec};

#[test]
fn dec_renders_zero() {
    assert_eq!(u64_to_dec(0).as_str(), "0");
}

#[test]
fn dec_renders_single_digit() {
    assert_eq!(u64_to_dec(7).as_str(), "7");
}

#[test]
fn dec_renders_round_number() {
    assert_eq!(u64_to_dec(1000).as_str(), "1000");
    assert_eq!(u64_to_dec(60000).as_str(), "60000");
}

#[test]
fn dec_renders_max() {
    assert_eq!(u64_to_dec(u64::MAX).as_str(), "18446744073709551615");
}

#[test]
fn join_empty_is_empty() {
    let parts: Vec<String> = Vec::new();
    assert_eq!(join_strings(&parts, "\n").as_str(), "");
}

#[test]
fn join_single_has_no_separator() {
    let parts = vec![String::from("alone")];
    assert_eq!(join_strings(&parts, ", ").as_str(), "alone");
}

#[test]
fn join_many() {
    let parts = vec![String::from("a"), String::from("b"), String::from("c")];
    assert_eq!(join_strings(&parts, " ").as_str(), "a b c");
}

#[test]
fn split_no_newline_is_one_line() {
    let lines = split_lines("just one");
    assert_eq!(lines.len(), 1);
    assert_eq!(lines[0].as_str(), "just one");
}

#[test]
fn split_empty_is_one_empty_line() {
    let lines = split_lines("");
    assert_eq!(lines.len(), 1);
    assert_eq!(lines[0].as_str(), "");
}

#[test]
fn split_trailing_newline_gives_trailing_empty() {
    let lines = split_lines("a\nb\n");
    assert_eq!(lines.len(), 3);
    assert_eq!(lines[0].as_str(), "a");
    assert_eq!(lines[1].as_str(), "b");
    assert_eq!(lines[2].as_str(), "");
}

#[test]
fn find_char_first_occurrence() {
    assert_eq!(find_char("a\"b\"c", 0, '"'), Some(1));
    assert_eq!(find_char("a\"b\"c", 2, '"'), Some(3));
    assert_eq!(find_char("abc", 0, '"'), None);
}

#[test]
fn starts_with_prefix() {
    assert!(str_starts_with("version = \"1\"", "version"));
    assert!(!str_starts_with("ver", "version"));
    assert!(!str_starts_with("Version = \"1\"", "version"));
}
