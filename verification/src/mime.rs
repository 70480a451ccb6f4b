use vstd::prelude::*;

use crate::address::{AddressEntry, AddressField, AddressGroup};
use crate::headers::ParsedMime;

verus! {

#[verifier::external_type_specification]
#[verifier::external_body]
pub struct ExMessage<'a>(mail_parser::Message<'a>);

#[verifier::external_type_specification]
#[verifier::external_body]
pub struct ExAddress<'a>(mail_parser::Address<'a>);

#[verifier::external_type_specification]
#[verifier::external_body]
pub struct ExAddr<'a>(mail_parser::Addr<'a>);

#[verifier::external_type_specification]
#[verifier::external_body]
pub struct ExGroup<'a>(mail_parser::Group<'a>);

/// Relies on mail_parser::MessageParser::parse: a best-effort
/// RFC 5322 parse of the raw bytes that never panics and returns
/// `None` when no headers are found.
#[verifier::external_body]
fn parse_message<'a>(bytes: &'a [u8]) -> (r: Option<mail_parser::Message<'a>>) {
    mail_parser::MessageParser::default().parse(bytes)
}

/// Relies on the public `name` and `address` fields of
/// mail_parser::Addr; this only copies them out as owned strings.
#[verifier::external_body]
fn entry_of_addr(a: &mail_parser::Addr) -> (r: AddressEntry) {
    AddressEntry {
        name: a.name.as_ref().map(|c| c.to_string()),
        address: a.address.as_ref().map(|c| c.to_string()),
    }
}

/// Relies on the public `name` and `addresses` fields of
/// mail_parser::Group; this only copies the group out, entry by
/// entry.
#[verifier::external_body]
fn group_of(g: &mail_parser::Group) -> (r: AddressGroup) {
    AddressGroup {
        name: g.name.as_ref().map(|c| c.to_string()),
        addresses: g.addresses.iter().map(entry_of_addr).collect(),
    }
}

/// Relies on the two variants of mail_parser::Address, a flat `List`
/// of addresses or a `Group` list; this only copies the one found.
#[verifier::external_body]
fn field_of_address(a: &mail_parser::Address) -> (r: AddressField) {
    match a {
        mail_parser::Address::List(v) => AddressField::Flat(v.iter().map(entry_of_addr).collect()),
        mail_parser::Address::Group(gs) => AddressField::Grouped(gs.iter().map(group_of).collect()),
    }
}

/// Relies on mail_parser::Message::from: the From header as parsed
/// addresses, or `None` when the header is absent or malformed.
#[verifier::external_body]
fn from_field(m: &mail_parser::Message) -> (r: Option<AddressField>) {
    m.from().map(field_of_address)
}

/// Relies on mail_parser::Message::to, as `from_field` does on
/// `from`.
#[verifier::external_body]
fn to_field(m: &mail_parser::Message) -> (r: Option<AddressField>) {
    m.to().map(field_of_address)
}

/// Relies on mail_parser::Message::cc, as `from_field` does on
/// `from`.
#[verifier::external_body]
fn cc_field(m: &mail_parser::Message) -> (r: Option<AddressField>) {
    m.cc().map(field_of_address)
}

/// Relies on mail_parser::Message::bcc, as `from_field` does on
/// `from`.
#[verifier::external_body]
fn bcc_field(m: &mail_parser::Message) -> (r: Option<AddressField>) {
    m.bcc().map(field_of_address)
}

/// Relies on mail_parser::Message::subject: the text of the Subject
/// header when one was parsed.
#[verifier::external_body]
fn subject_field(m: &mail_parser::Message) -> (r: Option<String>) {
    m.subject().map(|s| s.to_string())
}

/// Relies on mail_parser::Message::date and
/// mail_parser::DateTime::to_rfc3339: the Date header, already
/// rendered in its RFC 3339 form.
#[verifier::external_body]
fn date_field(m: &mail_parser::Message) -> (r: Option<String>) {
    m.date().map(|d| d.to_rfc3339())
}

/// Relies on mail_parser::Message::message_id: the text of the
/// Message-ID header when one was parsed.
#[verifier::external_body]
fn message_id_field(m: &mail_parser::Message) -> (r: Option<String>) {
    m.message_id().map(|s| s.to_string())
}

/// Relies on mail_parser::Message::in_reply_to and
/// mail_parser::HeaderValue::as_text_list: the In-Reply-To
/// identifiers in header order, or `None` when the header holds no
/// text.
#[verifier::external_body]
fn in_reply_to_field(m: &mail_parser::Message) -> (r: Option<Vec<String>>) {
    m.in_reply_to().as_text_list().map(|l| l.iter().map(|c| c.to_string()).collect())
}

/// Reduces a parsed message to the plain-value record the header
/// projector works on. The parsed message is opaque here, so nothing
/// is claimed of the field values themselves; every later step is
/// verified for whatever they are.
pub fn parsed_of_message(m: &mail_parser::Message) -> (r: ParsedMime) {
    ParsedMime {
        from: from_field(m),
        to: to_field(m),
        cc: cc_field(m),
        bcc: bcc_field(m),
        subject: subject_field(m),
        date: date_field(m),
        message_id: message_id_field(m),
        in_reply_to: match in_reply_to_field(m) {
            Some(v) => v,
            None => Vec::new(),
        },
    }
}

/// Parses raw message bytes into the plain-value parse record, or
/// `None` when MIME parsing fails; the pipeline absorbs that failure
/// as an all-absent headers record.
pub fn parse_mime(bytes: &[u8]) -> (r: Option<ParsedMime>) {
    match parse_message(bytes) {
        Some(m) => Some(parsed_of_message(&m)),
        None => None,
    }
}

} // verus!
