use mail_read::command::{
    assemble_rendered, FetchMode, HeaderFilterPolicy, MessageReadCommand, RenderFailure,
};
use mail_read::headers::ParsedMime;
use mail_read::index_to_string;
use mail_read::message::{assemble_messages, FetchedInput};

fn parsed_with_subject(subject: &str) -> ParsedMime {
    ParsedMime {
        from: None,
        to: None,
        cc: None,
        bcc: None,
        subject: Some(subject.to_string()),
        date: None,
        message_id: None,
        in_reply_to: vec![],
    }
}

fn input(template: &str, parsed: Option<ParsedMime>) -> FetchedInput {
    FetchedInput {
        template: template.to_string(),
        parsed,
    }
}

fn ids(v: &[&str]) -> Vec<String> {
    v.iter().map(|s| s.to_string()).collect()
}

#[test]
fn output_order_is_input_order() {
    let ids = ids(&["2", "5", "1"]);
    let items = vec![
        input("Subject: a\n\nbody a", None),
        input("Subject: b\n\nbody b", None),
        input("Subject: c\n\nbody c", None),
    ];
    let out = assemble_messages(&ids, &items);
    let got: Vec<&str> = out.0.iter().map(|m| m.id.as_str()).collect();
    assert_eq!(got, vec!["2", "5", "1"]);
    assert_eq!(out.0[0].body, "body a");
    assert_eq!(out.0[1].body, "body b");
    assert_eq!(out.0[2].body, "body c");
}

#[test]
fn end_to_end_single_message() {
    let ids = ids(&["2"]);
    let items = vec![input("Hello", Some(parsed_with_subject("Hi")))];
    let out = assemble_messages(&ids, &items);
    assert_eq!(out.0.len(), 1);
    assert_eq!(out.0[0].id, "2");
    assert_eq!(out.0[0].headers.subject, Some("Hi".to_string()));
    assert_eq!(out.0[0].headers.from, None);
    assert_eq!(out.0[0].headers.date, None);
    assert_eq!(out.0[0].body, "Hello");
    assert_eq!(out.flattened_text(), "Hello");
}

#[test]
fn fallback_id_is_positional_index() {
    let ids = ids(&["7", "8"]);
    let items = vec![
        input("a", None),
        input("b", None),
        input("c", None),
        input("d", None),
    ];
    let out = assemble_messages(&ids, &items);
    let got: Vec<&str> = out.0.iter().map(|m| m.id.as_str()).collect();
    assert_eq!(got, vec!["7", "8", "2", "3"]);
}

#[test]
fn repeated_assembly_gives_identical_output() {
    let ids = ids(&["1", "2"]);
    let items = vec![
        input("Subject: a\n\nfirst", Some(parsed_with_subject("a"))),
        input("Subject: b\n\nsecond", None),
    ];
    let once = assemble_messages(&ids, &items);
    let twice = assemble_messages(&ids, &items);
    assert_eq!(once, twice);
}

#[test]
fn parse_failure_degrades_headers_but_keeps_body() {
    let ids = ids(&["1"]);
    let items = vec![input("Subject: shown\n\nstill here", None)];
    let out = assemble_messages(&ids, &items);
    assert_eq!(out.0[0].headers.subject, None);
    assert_eq!(out.0[0].body, "still here");
}

#[test]
fn flattened_text_joins_bodies_with_one_blank_line() {
    let ids = ids(&["1", "2", "3"]);
    let items = vec![
        input("H: x\n\nfirst", None),
        input("H: y\n\nsecond", None),
        input("H: z\n\nthird", None),
    ];
    let out = assemble_messages(&ids, &items);
    assert_eq!(out.flattened_text(), "first\n\nsecond\n\nthird");
}

#[test]
fn flattened_text_of_empty_collection_is_empty() {
    let out = assemble_messages(&ids(&[]), &vec![]);
    assert_eq!(out.flattened_text(), "");
}

#[test]
fn assemble_rendered_succeeds_when_all_rendered() {
    let ids = ids(&["1", "2"]);
    let rendered: Vec<Result<FetchedInput, RenderFailure>> = vec![
        Ok(input("A: 1\n\none", None)),
        Ok(input("A: 2\n\ntwo", None)),
    ];
    let out = assemble_rendered(&ids, &rendered).unwrap();
    assert_eq!(out.0.len(), 2);
    assert_eq!(out.0[0].body, "one");
    assert_eq!(out.0[1].body, "two");
}

#[test]
fn assemble_rendered_fails_fast_on_first_failure() {
    let ids = ids(&["1", "2", "3"]);
    let rendered: Vec<Result<FetchedInput, RenderFailure>> = vec![
        Ok(input("A: 1\n\none", None)),
        Err(RenderFailure {
            message: "template engine choked".to_string(),
        }),
        Err(RenderFailure {
            message: "never reached".to_string(),
        }),
    ];
    let err = assemble_rendered(&ids, &rendered).unwrap_err();
    assert_eq!(err.message, "template engine choked");
}

#[test]
fn header_policy_hide_all_wins() {
    let cmd = MessageReadCommand {
        folder: None,
        ids: ids(&["1"]),
        preview: false,
        no_headers: true,
        headers: vec![],
        account: None,
    };
    assert!(matches!(cmd.header_policy(), HeaderFilterPolicy::HideAll));
}

#[test]
fn header_policy_show_only_listed() {
    let cmd = MessageReadCommand {
        folder: None,
        ids: ids(&["1"]),
        preview: false,
        no_headers: false,
        headers: ids(&["From", "Subject"]),
        account: None,
    };
    match cmd.header_policy() {
        HeaderFilterPolicy::ShowOnly(hs) => assert_eq!(hs, ids(&["From", "Subject"])),
        other => panic!("unexpected policy {:?}", other),
    }
}

#[test]
fn header_policy_defaults_to_configured() {
    let cmd = MessageReadCommand {
        folder: None,
        ids: ids(&["1"]),
        preview: false,
        no_headers: false,
        headers: vec![],
        account: None,
    };
    assert!(matches!(
        cmd.header_policy(),
        HeaderFilterPolicy::ShowConfigured
    ));
}

#[test]
fn preview_selects_peek() {
    let mut cmd = MessageReadCommand {
        folder: None,
        ids: ids(&["1"]),
        preview: true,
        no_headers: false,
        headers: vec![],
        account: None,
    };
    assert_eq!(cmd.fetch_mode(), FetchMode::Peek);
    cmd.preview = false;
    assert_eq!(cmd.fetch_mode(), FetchMode::Get);
}

#[test]
fn command_assemble_uses_its_own_ids() {
    let cmd = MessageReadCommand {
        folder: Some("INBOX".to_string()),
        ids: ids(&["9"]),
        preview: true,
        no_headers: true,
        headers: vec![],
        account: None,
    };
    let out = cmd.assemble(&vec![input("plain body", None)]);
    assert_eq!(out.0[0].id, "9");
    assert_eq!(out.0[0].body, "plain body");
}

#[test]
fn index_rendering_is_plain_decimal() {
    assert_eq!(index_to_string(0), "0");
    assert_eq!(index_to_string(7), "7");
    assert_eq!(index_to_string(42), "42");
    assert_eq!(index_to_string(1000), "1000");
}
