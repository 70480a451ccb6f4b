use mail_read::template::extract_body_from_template;

#[test]
fn body_after_bare_blank_line() {
    assert_eq!(extract_body_from_template("From: a\n\nBody text"), "Body text");
}

#[test]
fn body_after_crlf_blank_line() {
    assert_eq!(extract_body_from_template("From: a\r\n\r\nBody"), "Body");
}

#[test]
fn identity_without_separator() {
    assert_eq!(
        extract_body_from_template("NoSeparatorHere"),
        "NoSeparatorHere"
    );
}

#[test]
fn bare_blank_line_wins_over_later_crlf() {
    assert_eq!(
        extract_body_from_template("Subject: x\n\nbody\r\n\r\nrest"),
        "body\r\n\r\nrest"
    );
}

#[test]
fn bare_blank_line_wins_even_after_crlf_pair() {
    // The "\n\n" separator is looked for first over the whole string,
    // so it wins even when a "\r\n\r\n" stands earlier.
    assert_eq!(extract_body_from_template("A\r\n\r\nB\n\nC"), "C");
}

#[test]
fn empty_template_is_empty_body() {
    assert_eq!(extract_body_from_template(""), "");
}

#[test]
fn separator_at_end_gives_empty_body() {
    assert_eq!(extract_body_from_template("Header: v\n\n"), "");
}
