use vstd::prelude::*;

use crate::address::{format_address, format_address_spec, AddressField, AddressFieldV};
use crate::strutil::{clone_opt_string, clone_strings, opt_string_view};

verus! {

/// The structured headers of one message. A field is `Some` only when
/// the parsed message carries a non-empty value for it; absent fields
/// stay `None` and are omitted from any serialized form.
#[derive(Clone, Debug, PartialEq)]
pub struct MessageHeaders {
    pub from: Option<String>,
    pub to: Option<String>,
    pub cc: Option<String>,
    pub bcc: Option<String>,
    pub subject: Option<String>,
    pub date: Option<String>,
    pub message_id: Option<String>,
    pub in_reply_to: Option<String>,
}

pub struct MessageHeadersV {
    pub from: Option<Seq<char>>,
    pub to: Option<Seq<char>>,
    pub cc: Option<Seq<char>>,
    pub bcc: Option<Seq<char>>,
    pub subject: Option<Seq<char>>,
    pub date: Option<Seq<char>>,
    pub message_id: Option<Seq<char>>,
    pub in_reply_to: Option<Seq<char>>,
}

impl View for MessageHeaders {
    type V = MessageHeadersV;

    open spec fn view(&self) -> MessageHeadersV {
        MessageHeadersV {
            from: opt_string_view(self.from),
            to: opt_string_view(self.to),
            cc: opt_string_view(self.cc),
            bcc: opt_string_view(self.bcc),
            subject: opt_string_view(self.subject),
            date: opt_string_view(self.date),
            message_id: opt_string_view(self.message_id),
            in_reply_to: opt_string_view(self.in_reply_to),
        }
    }
}

/// The all-absent headers record, used when MIME parsing failed.
pub open spec fn empty_headers_v() -> MessageHeadersV {
    MessageHeadersV {
        from: None,
        to: None,
        cc: None,
        bcc: None,
        subject: None,
        date: None,
        message_id: None,
        in_reply_to: None,
    }
}

impl Default for MessageHeaders {
    /// All fields absent.
    fn default() -> (r: Self)
        ensures
            r@ == empty_headers_v(),
    {
        MessageHeaders {
            from: None,
            to: None,
            cc: None,
            bcc: None,
            subject: None,
            date: None,
            message_id: None,
            in_reply_to: None,
        }
    }
}

/// What the MIME parser reported of one message, reduced to plain
/// values: the four address fields, the subject, the date already in
/// its RFC 3339 rendering, the message id, and the in-reply-to
/// identifiers in order (empty when the header is absent).
#[derive(Clone, Debug)]
pub struct ParsedMime {
    pub from: Option<AddressField>,
    pub to: Option<AddressField>,
    pub cc: Option<AddressField>,
    pub bcc: Option<AddressField>,
    pub subject: Option<String>,
    pub date: Option<String>,
    pub message_id: Option<String>,
    pub in_reply_to: Vec<String>,
}

pub struct ParsedMimeV {
    pub from: Option<AddressFieldV>,
    pub to: Option<AddressFieldV>,
    pub cc: Option<AddressFieldV>,
    pub bcc: Option<AddressFieldV>,
    pub subject: Option<Seq<char>>,
    pub date: Option<Seq<char>>,
    pub message_id: Option<Seq<char>>,
    pub in_reply_to: Seq<Seq<char>>,
}

pub open spec fn opt_field_view(o: Option<AddressField>) -> Option<AddressFieldV> {
    match o {
        Some(f) => Some(f@),
        None => None,
    }
}

impl View for ParsedMime {
    type V = ParsedMimeV;

    open spec fn view(&self) -> ParsedMimeV {
        ParsedMimeV {
            from: opt_field_view(self.from),
            to: opt_field_view(self.to),
            cc: opt_field_view(self.cc),
            bcc: opt_field_view(self.bcc),
            subject: opt_string_view(self.subject),
            date: opt_string_view(self.date),
            message_id: opt_string_view(self.message_id),
            in_reply_to: self.in_reply_to@.map_values(|s: String| s@),
        }
    }
}

pub open spec fn opt_field_rendering(o: Option<AddressFieldV>) -> Option<Seq<char>> {
    match o {
        Some(f) => Some(format_address_spec(f)),
        None => None,
    }
}

/// The structured headers owed to a parsed message: address fields
/// formatted for display, subject, date and message id passed
/// through, and only the first in-reply-to identifier kept.
pub open spec fn projected_headers(p: ParsedMimeV) -> MessageHeadersV {
    MessageHeadersV {
        from: opt_field_rendering(p.from),
        to: opt_field_rendering(p.to),
        cc: opt_field_rendering(p.cc),
        bcc: opt_field_rendering(p.bcc),
        subject: p.subject,
        date: p.date,
        message_id: p.message_id,
        in_reply_to: if p.in_reply_to.len() > 0 {
            Some(p.in_reply_to[0])
        } else {
            None
        },
    }
}

fn render_opt_field(o: &Option<AddressField>) -> (r: Option<String>)
    ensures
        opt_string_view(r) == opt_field_rendering(opt_field_view(*o)),
{
    match o {
        Some(f) => Some(format_address(f)),
        None => None,
    }
}

fn duplicate_opt_field(o: &Option<AddressField>) -> (r: Option<AddressField>)
    ensures
        opt_field_view(r) == opt_field_view(*o),
{
    match o {
        Some(f) => Some(f.duplicate()),
        None => None,
    }
}

impl ParsedMime {
    /// An exact copy of the parse outcome.
    pub fn duplicate(&self) -> (r: Self)
        ensures
            r@ == self@,
    {
        ParsedMime {
            from: duplicate_opt_field(&self.from),
            to: duplicate_opt_field(&self.to),
            cc: duplicate_opt_field(&self.cc),
            bcc: duplicate_opt_field(&self.bcc),
            subject: clone_opt_string(&self.subject),
            date: clone_opt_string(&self.date),
            message_id: clone_opt_string(&self.message_id),
            in_reply_to: clone_strings(&self.in_reply_to),
        }
    }
}

/// Projects the structured headers out of one parsed message.
pub fn project_headers(p: &ParsedMime) -> (r: MessageHeaders)
    ensures
        r@ == projected_headers(p@),
{
    MessageHeaders {
        from: render_opt_field(&p.from),
        to: render_opt_field(&p.to),
        cc: render_opt_field(&p.cc),
        bcc: render_opt_field(&p.bcc),
        subject: clone_opt_string(&p.subject),
        date: clone_opt_string(&p.date),
        message_id: clone_opt_string(&p.message_id),
        in_reply_to: if p.in_reply_to.len() > 0 {
            Some(p.in_reply_to[0].clone())
        } else {
            None
        },
    }
}

/// Law of the header projector: a parsed message that reports nothing
/// but a subject projects to a record whose only present field is
/// that subject.
pub proof fn lemma_only_subject_projected(p: ParsedMimeV)
    requires
        p.from is None,
        p.to is None,
        p.cc is None,
        p.bcc is None,
        p.subject is Some,
        p.date is None,
        p.message_id is None,
        p.in_reply_to.len() == 0,
    ensures
        projected_headers(p).subject == p.subject,
        projected_headers(p).from is None,
        projected_headers(p).to is None,
        projected_headers(p).cc is None,
        projected_headers(p).bcc is None,
        projected_headers(p).date is None,
        projected_headers(p).message_id is None,
        projected_headers(p).in_reply_to is None,
{
}

} // verus!
