use mail_read::headers::project_headers;
use mail_read::mime::parse_mime;

#[test]
fn parses_simple_message_headers() {
    let raw = b"From: Alice <alice@example.com>\r\n\
To: Bob <bob@example.com>\r\n\
Subject: Hi\r\n\
Message-ID: <m1@example.com>\r\n\
Date: Tue, 1 Jul 2003 10:52:37 +0200\r\n\
\r\n\
Hello";
    let parsed = parse_mime(raw).expect("message should parse");
    let h = project_headers(&parsed);
    assert_eq!(h.from, Some("Alice <alice@example.com>".to_string()));
    assert_eq!(h.to, Some("Bob <bob@example.com>".to_string()));
    assert_eq!(h.subject, Some("Hi".to_string()));
    assert_eq!(h.message_id, Some("m1@example.com".to_string()));
    assert_eq!(h.date, Some("2003-07-01T10:52:37+02:00".to_string()));
    assert_eq!(h.cc, None);
    assert_eq!(h.bcc, None);
    assert_eq!(h.in_reply_to, None);
}

#[test]
fn parses_group_addresses() {
    let raw = b"To: Team: alice@example.com, bob@example.com;\r\n\
Subject: Group\r\n\
\r\n\
Body";
    let parsed = parse_mime(raw).expect("message should parse");
    let h = project_headers(&parsed);
    assert_eq!(h.to, Some("Team: alice@example.com, bob@example.com;".to_string()));
}

#[test]
fn keeps_first_in_reply_to() {
    let raw = b"From: a@example.com\r\n\
In-Reply-To: <first@example.com> <second@example.com>\r\n\
\r\n\
Body";
    let parsed = parse_mime(raw).expect("message should parse");
    let h = project_headers(&parsed);
    assert_eq!(h.in_reply_to, Some("first@example.com".to_string()));
}

#[test]
fn unparsable_bytes_give_none() {
    assert!(parse_mime(b"").is_none());
}
