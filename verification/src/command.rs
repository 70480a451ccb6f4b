use vstd::prelude::*;

use crate::message::{
    assemble_messages, input_views, pipeline_spec, string_views, FetchedInput, FetchedInputV,
    StructuredMessages,
};
use crate::strutil::clone_strings;

verus! {

/// Which headers the rendered template shows. Exactly one variant
/// applies per invocation; the hide-all and show-only forms exclude
/// each other by construction.
#[derive(Clone, Debug)]
pub enum HeaderFilterPolicy {
    /// Default: the header list configured externally.
    ShowConfigured,
    /// No headers at all.
    HideAll,
    /// Only the named headers, in this order.
    ShowOnly(Vec<String>),
}

/// How messages are fetched: `Get` applies the seen flag as a side
/// effect, `Peek` leaves all flags untouched.
#[derive(Clone, Copy, Debug, PartialEq, Eq, Structural)]
pub enum FetchMode {
    Get,
    Peek,
}

/// A template rendering failure for one message; it aborts the whole
/// invocation.
#[derive(Clone, Debug, PartialEq)]
pub struct RenderFailure {
    pub message: String,
}

/// The read-message invocation: target folder (`None` defaults
/// externally), the ordered envelope ids, the preview flag, and the
/// header visibility flags (`no_headers` and `headers` exclude each
/// other upstream).
#[derive(Clone, Debug)]
pub struct MessageReadCommand {
    pub folder: Option<String>,
    pub ids: Vec<String>,
    pub preview: bool,
    pub no_headers: bool,
    pub headers: Vec<String>,
    pub account: Option<String>,
}

impl MessageReadCommand {
    /// The header policy this invocation asks for: hide everything
    /// when `no_headers` is set, show only the listed headers when
    /// any were named, the configured default otherwise.
    pub fn header_policy(&self) -> (p: HeaderFilterPolicy)
        ensures
            self.no_headers ==> p is HideAll,
            !self.no_headers && self.headers@.len() > 0 ==> (p matches
            HeaderFilterPolicy::ShowOnly(hs) && hs@ == self.headers@),
            !self.no_headers && self.headers@.len() == 0 ==> p is ShowConfigured,
    {
        if self.no_headers {
            HeaderFilterPolicy::HideAll
        } else if self.headers.len() > 0 {
            HeaderFilterPolicy::ShowOnly(clone_strings(&self.headers))
        } else {
            HeaderFilterPolicy::ShowConfigured
        }
    }

    /// The retrieval mode this invocation asks for: peek, which
    /// leaves the seen flag alone, exactly when previewing.
    pub fn fetch_mode(&self) -> (m: FetchMode)
        ensures
            m == (if self.preview {
                FetchMode::Peek
            } else {
                FetchMode::Get
            }),
    {
        if self.preview {
            FetchMode::Peek
        } else {
            FetchMode::Get
        }
    }

    /// Assembles this invocation's structured output from the
    /// per-message fetch results.
    pub fn assemble(&self, items: &Vec<FetchedInput>) -> (r: StructuredMessages)
        ensures
            r@ == pipeline_spec(string_views(self.ids@), input_views(items@)),
    {
        assemble_messages(&self.ids, items)
    }
}

pub open spec fn render_ok_views(v: Seq<Result<FetchedInput, RenderFailure>>)
    -> Seq<FetchedInputV> {
    v.map_values(
        |x: Result<FetchedInput, RenderFailure>|
            match x {
                Ok(it) => it@,
                Err(_) => FetchedInputV { template: Seq::empty(), parsed: None },
            },
    )
}

/// Assembles the structured output from per-message render outcomes,
/// failing fast: the first rendering failure aborts the whole
/// invocation, and success is owed exactly when every message
/// rendered.
pub fn assemble_rendered(ids: &Vec<String>, rendered: &Vec<Result<FetchedInput, RenderFailure>>)
    -> (r: Result<StructuredMessages, RenderFailure>)
    ensures
        r is Ok <==> (forall|k: int|
            0 <= k < rendered@.len() ==> rendered@[k] is Ok),
        r matches Ok(msgs) ==> msgs@ == pipeline_spec(
            string_views(ids@),
            render_ok_views(rendered@),
        ),
        r matches Err(e) ==> exists|j: int|
            #![trigger rendered@[j]]
            {
                &&& 0 <= j < rendered@.len()
                &&& rendered@[j] matches Err(f) && e == f
                &&& forall|k: int| 0 <= k < j ==> rendered@[k] is Ok
            },
{
    let mut items: Vec<FetchedInput> = Vec::new();
    let mut i: usize = 0;
    while i < rendered.len()
        invariant
            0 <= i <= rendered@.len(),
            forall|k: int| 0 <= k < i ==> rendered@[k] is Ok,
            items@.map_values(|it: FetchedInput| it@) == render_ok_views(rendered@).subrange(
                0,
                i as int,
            ),
        decreases rendered@.len() - i,
    {
        match &rendered[i] {
            Ok(item) => {
                let ghost prev = items@.map_values(|it: FetchedInput| it@);
                let copy = item.duplicate();
                let ghost itemv = copy@;
                items.push(copy);
                proof {
                    assert(items@.map_values(|it: FetchedInput| it@) =~= prev.push(itemv));
                    assert(prev.push(itemv) =~= render_ok_views(rendered@).subrange(0, i + 1));
                }
            },
            Err(e) => {
                let failure = RenderFailure { message: e.message.clone() };
                proof {
                    assert(rendered@[i as int] matches Err(f) && failure == f);
                }
                return Err(failure);
            },
        }
        i = i + 1;
    }
    proof {
        assert(render_ok_views(rendered@).subrange(0, rendered@.len() as int) =~= render_ok_views(
            rendered@,
        ));
        assert(input_views(items@) == items@.map_values(|it: FetchedInput| it@));
    }
    Ok(assemble_messages(ids, &items))
}

} // verus!
