use rpassword::{fix_line_issues, normalize, PasswordError};

#[test]
fn strips_line_feed() {
    assert_eq!(fix_line_issues(String::from("hello\n")), Ok(String::from("hello")));
}

#[test]
fn strips_carriage_return_and_line_feed() {
    assert_eq!(fix_line_issues(String::from("hello\r\n")), Ok(String::from("hello")));
}

#[test]
fn rejects_line_without_terminator() {
    assert_eq!(fix_line_issues(String::from("hello")), Err(PasswordError::UnexpectedEof));
}

#[test]
fn rejects_empty_input() {
    assert_eq!(fix_line_issues(String::new()), Err(PasswordError::UnexpectedEof));
}

#[test]
fn rejects_line_that_ends_in_carriage_return_only() {
    assert_eq!(fix_line_issues(String::from("hello\r")), Err(PasswordError::UnexpectedEof));
}

#[test]
fn empty_secret_from_bare_terminator() {
    assert_eq!(fix_line_issues(String::from("\n")), Ok(String::new()));
    assert_eq!(fix_line_issues(String::from("\r\n")), Ok(String::new()));
}

#[test]
fn strips_one_carriage_return_only() {
    assert_eq!(fix_line_issues(String::from("a\r\r\n")), Ok(String::from("a\r")));
}

#[test]
fn keeps_inner_control_characters() {
    assert_eq!(fix_line_issues(String::from("a\rb\n")), Ok(String::from("a\rb")));
    assert_eq!(fix_line_issues(String::from("a\nb\n")), Ok(String::from("a\nb")));
    assert_eq!(fix_line_issues(String::from("a\u{15}b\n")), Ok(String::from("a\u{15}b")));
}

#[test]
fn keeps_characters_of_several_bytes() {
    assert_eq!(fix_line_issues(String::from("pässwörd€\r\n")), Ok(String::from("pässwörd€")));
}

#[test]
fn normalize_strips_in_place() {
    let mut line = String::from("secret\r\n");
    assert_eq!(normalize(&mut line), Ok(()));
    assert_eq!(line, "secret");

    let mut line = String::from("secret\n");
    assert_eq!(normalize(&mut line), Ok(()));
    assert_eq!(line, "secret");
}

#[test]
fn normalize_erases_line_without_terminator() {
    let mut line = String::from("partial");
    assert_eq!(normalize(&mut line), Err(PasswordError::UnexpectedEof));
    assert!(line.is_empty());
    assert_eq!(line.len(), 0);
}

#[test]
fn round_trip_of_any_secret_without_trailing_carriage_return() {
    for secret in ["", "a", "hello", "with space", "tab\there", "ünï", "x\ry"] {
        let lf = format!("{}\n", secret);
        let crlf = format!("{}\r\n", secret);
        assert_eq!(fix_line_issues(lf), Ok(String::from(secret)));
        assert_eq!(fix_line_issues(crlf), Ok(String::from(secret)));
        assert_eq!(fix_line_issues(String::from(secret)), Err(PasswordError::UnexpectedEof));
    }
}
