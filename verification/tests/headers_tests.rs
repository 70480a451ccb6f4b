use mail_read::address::{AddressEntry, AddressField};
use mail_read::headers::{project_headers, MessageHeaders, ParsedMime};

fn empty_parsed() -> ParsedMime {
    ParsedMime {
        from: None,
        to: None,
        cc: None,
        bcc: None,
        subject: None,
        date: None,
        message_id: None,
        in_reply_to: vec![],
    }
}

#[test]
fn only_subject_projects_to_only_subject() {
    let mut p = empty_parsed();
    p.subject = Some("Hi".to_string());
    let h = project_headers(&p);
    assert_eq!(h.subject, Some("Hi".to_string()));
    assert_eq!(h.from, None);
    assert_eq!(h.to, None);
    assert_eq!(h.cc, None);
    assert_eq!(h.bcc, None);
    assert_eq!(h.date, None);
    assert_eq!(h.message_id, None);
    assert_eq!(h.in_reply_to, None);
}

#[test]
fn address_fields_are_formatted() {
    let mut p = empty_parsed();
    p.from = Some(AddressField::Flat(vec![AddressEntry {
        name: Some("Alice".to_string()),
        address: Some("alice@example.com".to_string()),
    }]));
    let h = project_headers(&p);
    assert_eq!(h.from, Some("Alice <alice@example.com>".to_string()));
}

#[test]
fn in_reply_to_keeps_first_identifier_only() {
    let mut p = empty_parsed();
    p.in_reply_to = vec!["<first@x>".to_string(), "<second@x>".to_string()];
    let h = project_headers(&p);
    assert_eq!(h.in_reply_to, Some("<first@x>".to_string()));
}

#[test]
fn date_and_message_id_pass_through() {
    let mut p = empty_parsed();
    p.date = Some("2003-07-01T10:52:37+02:00".to_string());
    p.message_id = Some("<m1@example.com>".to_string());
    let h = project_headers(&p);
    assert_eq!(h.date, Some("2003-07-01T10:52:37+02:00".to_string()));
    assert_eq!(h.message_id, Some("<m1@example.com>".to_string()));
}

#[test]
fn default_headers_are_all_absent() {
    let h = MessageHeaders::default();
    assert_eq!(h, project_headers(&empty_parsed()));
}
