use e_chess::text::{complete_lines, join_text, decimal_text, same_text, split_words};

#[test]
fn complete_lines_keeps_the_rest() {
    let mut buffer = String::from("ab");
    let lines = complete_lines(&mut buffer, "c\n  \n d \nef");
    assert_eq!(lines, vec!["abc".to_string(), "d".to_string()]);
    assert_eq!(buffer, "ef");
}

#[test]
fn lines_do_not_depend_on_chunking() {
    let text = "first\nsecond\n\nthird\nrest";
    let mut whole = String::new();
    let all = complete_lines(&mut whole, text);
    for cut in 0..text.len() {
        let mut buffer = String::new();
        let mut lines = complete_lines(&mut buffer, &text[..cut]);
        lines.extend(complete_lines(&mut buffer, &text[cut..]));
        assert_eq!(lines, all);
        assert_eq!(buffer, whole);
    }
}

#[test]
fn small_text_helpers() {
    assert_eq!(join_text("ab", "cd"), "abcd");
    assert!(same_text("abc", "abc"));
    assert!(!same_text("abc", "abd"));
    assert!(!same_text("abc", "ab"));
    assert_eq!(split_words(" e2e4  e7e5 "), vec!["e2e4".to_string(), "e7e5".to_string()]);
    assert!(split_words("").is_empty());
    assert_eq!(decimal_text(0), "0");
    assert_eq!(decimal_text(404), "404");
    assert_eq!(decimal_text(u64::MAX), "18446744073709551615");
}

#[test]
fn lines_are_trimmed_of_unicode_white_space() {
    let mut buffer = String::new();
    let lines = e_chess::text::complete_lines(&mut buffer, "\u{3000}x\u{a0}\n\u{2028}\n");
    assert_eq!(lines, vec!["x".to_string()]);
}

#[test]
fn trimming_and_white_space() {
    assert_eq!(e_chess::text::trim("\t x y \u{3000}"), "x y");
    assert_eq!(e_chess::text::trim("   "), "");
    assert!(e_chess::text::is_whitespace('\u{85}'));
    assert!(!e_chess::text::is_whitespace('x'));
}
