use vstd::prelude::*;

use crate::decimal_digits;
use crate::headers::{
    empty_headers_v, projected_headers, MessageHeaders, MessageHeadersV, ParsedMime, ParsedMimeV,
};
use crate::index_to_string;
use crate::strutil::join;
use crate::template::{body_of, extract_body_from_template};

verus! {

/// One message as the pipeline reports it: its id, the projected
/// headers, and the plain body taken from the rendered template.
#[derive(Clone, Debug, PartialEq)]
pub struct StructuredMessage {
    pub id: String,
    pub headers: MessageHeaders,
    pub body: String,
}

pub struct StructuredMessageV {
    pub id: Seq<char>,
    pub headers: MessageHeadersV,
    pub body: Seq<char>,
}

impl View for StructuredMessage {
    type V = StructuredMessageV;

    open spec fn view(&self) -> StructuredMessageV {
        StructuredMessageV { id: self.id@, headers: self.headers@, body: self.body@ }
    }
}

/// The ordered collection of structured messages of one invocation.
#[derive(Clone, Debug, PartialEq)]
pub struct StructuredMessages(pub Vec<StructuredMessage>);

impl View for StructuredMessages {
    type V = Seq<StructuredMessageV>;

    open spec fn view(&self) -> Seq<StructuredMessageV> {
        self.0@.map_values(|m: StructuredMessage| m@)
    }
}

/// What reached the pipeline for one fetched message: the rendered
/// display template, and the parse outcome (`None` when MIME parsing
/// failed; that failure is absorbed, not propagated).
#[derive(Clone, Debug)]
pub struct FetchedInput {
    pub template: String,
    pub parsed: Option<ParsedMime>,
}

pub struct FetchedInputV {
    pub template: Seq<char>,
    pub parsed: Option<ParsedMimeV>,
}

impl View for FetchedInput {
    type V = FetchedInputV;

    open spec fn view(&self) -> FetchedInputV {
        FetchedInputV {
            template: self.template@,
            parsed: match self.parsed {
                Some(p) => Some(p@),
                None => None,
            },
        }
    }
}

impl FetchedInput {
    /// An exact copy of the fetch result.
    pub fn duplicate(&self) -> (r: Self)
        ensures
            r@ == self@,
    {
        FetchedInput {
            template: self.template.clone(),
            parsed: match &self.parsed {
                Some(p) => Some(p.duplicate()),
                None => None,
            },
        }
    }
}

/// The headers owed for one fetched message: projected from the
/// parse outcome, or all-absent when parsing failed.
pub open spec fn expected_headers(parsed: Option<ParsedMimeV>) -> MessageHeadersV {
    match parsed {
        Some(p) => projected_headers(p),
        None => empty_headers_v(),
    }
}

/// The id owed to the message at position `i`: the input envelope id
/// at that position, or the position itself in decimal when the input
/// list is shorter.
pub open spec fn expected_id(ids: Seq<Seq<char>>, i: int) -> Seq<char> {
    if 0 <= i < ids.len() {
        ids[i]
    } else {
        decimal_digits(i)
    }
}

/// The record owed for the fetched message at position `i`.
pub open spec fn expected_message(ids: Seq<Seq<char>>, item: FetchedInputV, i: int)
    -> StructuredMessageV {
    StructuredMessageV {
        id: expected_id(ids, i),
        headers: expected_headers(item.parsed),
        body: body_of(item.template),
    }
}

/// The whole pipeline output: one record per fetched message, in
/// fetch order, which is the input order of the ids.
pub open spec fn pipeline_spec(ids: Seq<Seq<char>>, items: Seq<FetchedInputV>)
    -> Seq<StructuredMessageV> {
    Seq::new(items.len(), |i: int| expected_message(ids, items[i], i))
}

pub open spec fn string_views(v: Seq<String>) -> Seq<Seq<char>> {
    v.map_values(|s: String| s@)
}

pub open spec fn input_views(v: Seq<FetchedInput>) -> Seq<FetchedInputV> {
    v.map_values(|it: FetchedInput| it@)
}

fn build_one(ids: &Vec<String>, item: &FetchedInput, i: usize) -> (r: StructuredMessage)
    ensures
        r@ == expected_message(string_views(ids@), item@, i as int),
{
    let headers = match &item.parsed {
        Some(p) => crate::headers::project_headers(p),
        None => MessageHeaders::default(),
    };
    let body = extract_body_from_template(item.template.as_str());
    let id = if i < ids.len() {
        ids[i].clone()
    } else {
        index_to_string(i)
    };
    StructuredMessage { id, headers, body }
}

/// Assembles the structured output of one invocation from the
/// envelope ids and the per-message fetch results, in order.
pub fn assemble_messages(ids: &Vec<String>, items: &Vec<FetchedInput>) -> (r: StructuredMessages)
    ensures
        r@ == pipeline_spec(string_views(ids@), input_views(items@)),
{
    let ghost itemsv = input_views(items@);
    let mut out: Vec<StructuredMessage> = Vec::new();
    let mut i: usize = 0;
    while i < items.len()
        invariant
            0 <= i <= items@.len(),
            itemsv == input_views(items@),
            out@.map_values(|m: StructuredMessage| m@) == pipeline_spec(
                string_views(ids@),
                itemsv,
            ).subrange(0, i as int),
        decreases items@.len() - i,
    {
        let msg = build_one(ids, &items[i], i);
        let ghost prev = out@.map_values(|m: StructuredMessage| m@);
        let ghost msgv = msg@;
        out.push(msg);
        proof {
            assert(itemsv[i as int] == items@[i as int]@);
            assert(msgv == expected_message(string_views(ids@), itemsv[i as int], i as int));
            assert(out@.map_values(|m: StructuredMessage| m@) =~= prev.push(msgv));
            assert(prev.push(msgv) =~= pipeline_spec(string_views(ids@), itemsv).subrange(
                0,
                i + 1,
            ));
        }
        i = i + 1;
    }
    proof {
        assert(pipeline_spec(string_views(ids@), itemsv).subrange(
            0,
            itemsv.len() as int,
        ) =~= pipeline_spec(string_views(ids@), itemsv));
    }
    StructuredMessages(out)
}

/// The bodies of the records, in order.
pub open spec fn bodies(msgs: Seq<StructuredMessageV>) -> Seq<Seq<char>>
    decreases msgs.len(),
{
    if msgs.len() == 0 {
        Seq::empty()
    } else {
        bodies(msgs.drop_last()).push(msgs.last().body)
    }
}

/// The human-readable rendering of a collection: the bodies joined by
/// one blank line, with no header text and no trailing separator.
pub open spec fn flattened_spec(msgs: Seq<StructuredMessageV>) -> Seq<char> {
    join(bodies(msgs), "\n\n"@)
}

impl StructuredMessages {
    /// The flattened text rendering: each message's body, adjacent
    /// bodies separated by exactly one blank line, no headers shown.
    pub fn flattened_text(&self) -> (r: String)
        ensures
            r@ == flattened_spec(self@),
    {
        let mut out = String::new();
        let mut i: usize = 0;
        while i < self.0.len()
            invariant
                0 <= i <= self.0@.len(),
                out@ == flattened_spec(self@.subrange(0, i as int)),
            decreases self.0@.len() - i,
        {
            proof {
                assert(self@.subrange(0, i + 1).drop_last() =~= self@.subrange(0, i as int));
                assert(self@.subrange(0, i + 1).last() == self.0@[i as int]@);
                let parts = bodies(self@.subrange(0, i as int));
                let all = bodies(self@.subrange(0, i + 1));
                assert(all == parts.push(self.0@[i as int]@.body));
                assert(all.drop_last() =~= parts);
                assert(parts.len() == i as int) by {
                    lemma_bodies_len(self@.subrange(0, i as int));
                }
                assert(all.len() == i + 1) by {
                    lemma_bodies_len(self@.subrange(0, i + 1));
                }
            }
            if i > 0 {
                out.append("\n\n");
            }
            out.append(self.0[i].body.as_str());
            i = i + 1;
        }
        proof {
            assert(self@.subrange(0, self@.len() as int) =~= self@);
        }
        out
    }
}

proof fn lemma_bodies_len(msgs: Seq<StructuredMessageV>)
    ensures
        bodies(msgs).len() == msgs.len(),
    decreases msgs.len(),
{
    if msgs.len() > 0 {
        lemma_bodies_len(msgs.drop_last());
    }
}

/// Law of the flattened rendering: a collection of one message
/// flattens to exactly that message's body — no separator, no header
/// text.
pub proof fn lemma_flattened_single(msgs: Seq<StructuredMessageV>)
    requires
        msgs.len() == 1,
    ensures
        flattened_spec(msgs) == msgs[0].body,
{
    assert(bodies(msgs) == bodies(msgs.drop_last()).push(msgs.last().body));
    lemma_bodies_len(msgs.drop_last());
}

/// Law of the pipeline: the structured output is a function of the
/// envelope ids and the fetched inputs alone, so repeated invocations
/// over identical ids and an unchanged backend state report the very
/// same collection.
pub proof fn lemma_pipeline_deterministic(
    ids: Seq<Seq<char>>,
    items: Seq<FetchedInputV>,
    r1: Seq<StructuredMessageV>,
    r2: Seq<StructuredMessageV>,
)
    requires
        r1 == pipeline_spec(ids, items),
        r2 == pipeline_spec(ids, items),
    ensures
        r1 == r2,
{
}

/// Law of the pipeline: output order is input order — the record at
/// position `i` carries the id given at position `i`, whatever order
/// the backend fetched in.
pub proof fn lemma_pipeline_preserves_order(ids: Seq<Seq<char>>, items: Seq<FetchedInputV>, i: int)
    requires
        0 <= i < items.len(),
        i < ids.len(),
    ensures
        pipeline_spec(ids, items)[i].id == ids[i],
{
}

/// Law of the pipeline: a fetched message beyond the end of the id
/// list is reported under its position rendered in decimal.
pub proof fn lemma_pipeline_fallback_id(ids: Seq<Seq<char>>, items: Seq<FetchedInputV>, i: int)
    requires
        0 <= i < items.len(),
        i >= ids.len(),
    ensures
        pipeline_spec(ids, items)[i].id == decimal_digits(i),
{
}

} // verus!
