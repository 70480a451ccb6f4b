use vstd::prelude::*;

use crate::strutil::{
    clone_opt_string, contains_seq, join, lemma_join_contains_part, opt_string_view,
};

verus! {

/// One recipient of a parsed address field: a display name, an
/// e-mail address, both, or neither.
#[derive(Clone, Debug)]
pub struct AddressEntry {
    pub name: Option<String>,
    pub address: Option<String>,
}

/// A named group of recipients, as RFC 5322 allows in address fields.
#[derive(Clone, Debug)]
pub struct AddressGroup {
    pub name: Option<String>,
    pub addresses: Vec<AddressEntry>,
}

/// A parsed address field: either a flat recipient list or a list of
/// named groups.
#[derive(Clone, Debug)]
pub enum AddressField {
    Flat(Vec<AddressEntry>),
    Grouped(Vec<AddressGroup>),
}

pub struct AddressEntryV {
    pub name: Option<Seq<char>>,
    pub address: Option<Seq<char>>,
}

pub struct AddressGroupV {
    pub name: Option<Seq<char>>,
    pub addresses: Seq<AddressEntryV>,
}

pub enum AddressFieldV {
    Flat(Seq<AddressEntryV>),
    Grouped(Seq<AddressGroupV>),
}

impl View for AddressEntry {
    type V = AddressEntryV;

    open spec fn view(&self) -> AddressEntryV {
        AddressEntryV {
            name: opt_string_view(self.name),
            address: opt_string_view(self.address),
        }
    }
}

impl View for AddressGroup {
    type V = AddressGroupV;

    open spec fn view(&self) -> AddressGroupV {
        AddressGroupV {
            name: opt_string_view(self.name),
            addresses: self.addresses@.map_values(|e: AddressEntry| e@),
        }
    }
}

impl View for AddressField {
    type V = AddressFieldV;

    open spec fn view(&self) -> AddressFieldV {
        match self {
            AddressField::Flat(es) => AddressFieldV::Flat(es@.map_values(|e: AddressEntry| e@)),
            AddressField::Grouped(gs) => AddressFieldV::Grouped(
                gs@.map_values(|g: AddressGroup| g@),
            ),
        }
    }
}

impl AddressEntry {
    /// An exact copy of the entry.
    pub fn duplicate(&self) -> (r: Self)
        ensures
            r@ == self@,
    {
        AddressEntry {
            name: clone_opt_string(&self.name),
            address: clone_opt_string(&self.address),
        }
    }
}

fn duplicate_entries(v: &Vec<AddressEntry>) -> (r: Vec<AddressEntry>)
    ensures
        r@.map_values(|e: AddressEntry| e@) == v@.map_values(|e: AddressEntry| e@),
{
    let mut out: Vec<AddressEntry> = Vec::new();
    let mut i: usize = 0;
    while i < v.len()
        invariant
            0 <= i <= v@.len(),
            out@.map_values(|e: AddressEntry| e@) == v@.map_values(|e: AddressEntry| e@).subrange(
                0,
                i as int,
            ),
        decreases v@.len() - i,
    {
        let ghost prev = out@.map_values(|e: AddressEntry| e@);
        out.push(v[i].duplicate());
        proof {
            assert(out@.map_values(|e: AddressEntry| e@) =~= prev.push(v@[i as int]@));
            assert(prev.push(v@[i as int]@) =~= v@.map_values(|e: AddressEntry| e@).subrange(
                0,
                i + 1,
            ));
        }
        i = i + 1;
    }
    proof {
        let m = v@.map_values(|e: AddressEntry| e@);
        assert(m.subrange(0, m.len() as int) =~= m);
    }
    out
}

impl AddressGroup {
    /// An exact copy of the group.
    pub fn duplicate(&self) -> (r: Self)
        ensures
            r@ == self@,
    {
        AddressGroup {
            name: clone_opt_string(&self.name),
            addresses: duplicate_entries(&self.addresses),
        }
    }
}

impl AddressField {
    /// An exact copy of the field.
    pub fn duplicate(&self) -> (r: Self)
        ensures
            r@ == self@,
    {
        match self {
            AddressField::Flat(es) => AddressField::Flat(duplicate_entries(es)),
            AddressField::Grouped(gs) => {
                let mut out: Vec<AddressGroup> = Vec::new();
                let mut i: usize = 0;
                while i < gs.len()
                    invariant
                        0 <= i <= gs@.len(),
                        out@.map_values(|g: AddressGroup| g@) == gs@.map_values(
                            |g: AddressGroup| g@,
                        ).subrange(0, i as int),
                    decreases gs@.len() - i,
                {
                    let ghost prev = out@.map_values(|g: AddressGroup| g@);
                    out.push(gs[i].duplicate());
                    proof {
                        assert(out@.map_values(|g: AddressGroup| g@) =~= prev.push(gs@[i as int]@));
                        assert(prev.push(gs@[i as int]@) =~= gs@.map_values(
                            |g: AddressGroup| g@,
                        ).subrange(0, i + 1));
                    }
                    i = i + 1;
                }
                proof {
                    let m = gs@.map_values(|g: AddressGroup| g@);
                    assert(m.subrange(0, m.len() as int) =~= m);
                }
                AddressField::Grouped(out)
            },
        }
    }
}

/// An entry contributes to the output iff it has a name or an address.
pub open spec fn entry_present(e: AddressEntryV) -> bool {
    e.name is Some || e.address is Some
}

/// How one flat-list entry renders: `"Name <address>"` with both
/// fields, the one field alone otherwise, nothing with neither.
pub open spec fn entry_rendering(e: AddressEntryV) -> Seq<char> {
    match (e.name, e.address) {
        (Some(n), Some(a)) => n + " <"@ + a + ">"@,
        (None, Some(a)) => a,
        (Some(n), None) => n,
        (None, None) => Seq::empty(),
    }
}

/// The renderings of the present entries of a flat list, in order;
/// entries with neither field are dropped.
pub open spec fn flat_renderings(es: Seq<AddressEntryV>) -> Seq<Seq<char>>
    decreases es.len(),
{
    if es.len() == 0 {
        Seq::empty()
    } else {
        let rest = flat_renderings(es.drop_last());
        if entry_present(es.last()) {
            rest.push(entry_rendering(es.last()))
        } else {
            rest
        }
    }
}

/// The member texts of a group: the addresses only, in order; names
/// inside a group are ignored.
pub open spec fn member_texts(es: Seq<AddressEntryV>) -> Seq<Seq<char>>
    decreases es.len(),
{
    if es.len() == 0 {
        Seq::empty()
    } else {
        let rest = member_texts(es.drop_last());
        match es.last().address {
            Some(a) => rest.push(a),
            None => rest,
        }
    }
}

/// How one group renders: `"Name: member1, member2;"`, with an empty
/// name when the group has none.
pub open spec fn group_rendering(g: AddressGroupV) -> Seq<char> {
    (match g.name {
        Some(n) => n,
        None => Seq::empty(),
    }) + ": "@ + join(member_texts(g.addresses), ", "@) + ";"@
}

/// The renderings of all groups, in order; every group renders, even
/// an empty one.
pub open spec fn group_renderings(gs: Seq<AddressGroupV>) -> Seq<Seq<char>>
    decreases gs.len(),
{
    if gs.len() == 0 {
        Seq::empty()
    } else {
        group_renderings(gs.drop_last()).push(group_rendering(gs.last()))
    }
}

/// The display string of a parsed address field: present flat entries
/// joined with `", "`, or group renderings joined with a single space.
pub open spec fn format_address_spec(f: AddressFieldV) -> Seq<char> {
    match f {
        AddressFieldV::Flat(es) => join(flat_renderings(es), ", "@),
        AddressFieldV::Grouped(gs) => join(group_renderings(gs), " "@),
    }
}

fn render_entry(e: &AddressEntry) -> (r: String)
    ensures
        r@ == entry_rendering(e@),
{
    match (&e.name, &e.address) {
        (Some(n), Some(a)) => {
            let mut s = n.clone();
            s.append(" <");
            s.append(a.as_str());
            s.append(">");
            s
        },
        (None, Some(a)) => a.clone(),
        (Some(n), None) => n.clone(),
        (None, None) => String::new(),
    }
}

fn render_flat(entries: &Vec<AddressEntry>) -> (r: String)
    ensures
        r@ == join(flat_renderings(entries@.map_values(|e: AddressEntry| e@)), ", "@),
{
    let ghost es = entries@.map_values(|e: AddressEntry| e@);
    let mut out = String::new();
    let mut count: usize = 0;
    let mut i: usize = 0;
    while i < entries.len()
        invariant
            0 <= i <= entries@.len(),
            es == entries@.map_values(|e: AddressEntry| e@),
            count as int <= i as int,
            count as int == flat_renderings(es.subrange(0, i as int)).len(),
            out@ == join(flat_renderings(es.subrange(0, i as int)), ", "@),
        decreases entries@.len() - i,
    {
        let e = &entries[i];
        proof {
            assert(es.subrange(0, i + 1).drop_last() =~= es.subrange(0, i as int));
            assert(es.subrange(0, i + 1).last() == e@);
        }
        if e.name.is_some() || e.address.is_some() {
            if count > 0 {
                out.append(", ");
            }
            let t = render_entry(e);
            out.append(t.as_str());
            count = count + 1;
            proof {
                let parts = flat_renderings(es.subrange(0, i as int));
                let all = flat_renderings(es.subrange(0, i + 1));
                assert(all == parts.push(entry_rendering(e@)));
                assert(all.drop_last() =~= parts);
            }
        }
        i = i + 1;
    }
    proof {
        assert(es.subrange(0, es.len() as int) =~= es);
    }
    out
}

fn render_group(g: &AddressGroup) -> (r: String)
    ensures
        r@ == group_rendering(g@),
{
    let ghost ms = g.addresses@.map_values(|e: AddressEntry| e@);
    let mut out = match &g.name {
        Some(n) => n.clone(),
        None => String::new(),
    };
    out.append(": ");
    let ghost head = out@;
    let mut count: usize = 0;
    let mut j: usize = 0;
    while j < g.addresses.len()
        invariant
            0 <= j <= g.addresses@.len(),
            ms == g.addresses@.map_values(|e: AddressEntry| e@),
            count as int <= j as int,
            count as int == member_texts(ms.subrange(0, j as int)).len(),
            out@ == head + join(member_texts(ms.subrange(0, j as int)), ", "@),
        decreases g.addresses@.len() - j,
    {
        let e = &g.addresses[j];
        proof {
            assert(ms.subrange(0, j + 1).drop_last() =~= ms.subrange(0, j as int));
            assert(ms.subrange(0, j + 1).last() == e@);
        }
        if let Some(a) = &e.address {
            if count > 0 {
                out.append(", ");
            }
            out.append(a.as_str());
            count = count + 1;
            proof {
                let parts = member_texts(ms.subrange(0, j as int));
                let all = member_texts(ms.subrange(0, j + 1));
                assert(all == parts.push(e@.address.unwrap()));
                assert(all.drop_last() =~= parts);
            }
        }
        j = j + 1;
    }
    out.append(";");
    proof {
        assert(ms.subrange(0, ms.len() as int) =~= ms);
    }
    out
}

/// Formats a parsed address field into its single display string.
pub fn format_address(field: &AddressField) -> (r: String)
    ensures
        r@ == format_address_spec(field@),
{
    match field {
        AddressField::Flat(entries) => render_flat(entries),
        AddressField::Grouped(groups) => {
            let ghost gs = groups@.map_values(|g: AddressGroup| g@);
            let mut out = String::new();
            let mut i: usize = 0;
            while i < groups.len()
                invariant
                    0 <= i <= groups@.len(),
                    gs == groups@.map_values(|g: AddressGroup| g@),
                    out@ == join(group_renderings(gs.subrange(0, i as int)), " "@),
                decreases groups@.len() - i,
            {
                let g = &groups[i];
                proof {
                    assert(gs.subrange(0, i + 1).drop_last() =~= gs.subrange(0, i as int));
                    assert(gs.subrange(0, i + 1).last() == g@);
                    let parts = group_renderings(gs.subrange(0, i as int));
                    let all = group_renderings(gs.subrange(0, i + 1));
                    assert(all == parts.push(group_rendering(g@)));
                    assert(all.drop_last() =~= parts);
                }
                if i > 0 {
                    out.append(" ");
                }
                let t = render_group(g);
                out.append(t.as_str());
                i = i + 1;
            }
            proof {
                assert(gs.subrange(0, gs.len() as int) =~= gs);
            }
            out
        },
    }
}

/// A flat entry whose renderings list index is sought: the number of
/// present entries strictly before `i`.
pub open spec fn present_count_before(es: Seq<AddressEntryV>, i: int) -> int {
    flat_renderings(es.subrange(0, i)).len() as int
}

proof fn lemma_flat_renderings_index(es: Seq<AddressEntryV>, i: int)
    requires
        0 <= i < es.len(),
        entry_present(es[i]),
    ensures
        0 <= present_count_before(es, i) < flat_renderings(es).len(),
        flat_renderings(es)[present_count_before(es, i)] == entry_rendering(es[i]),
    decreases es.len(),
{
    if i == es.len() - 1 {
        assert(es.subrange(0, i) =~= es.drop_last());
        assert(es.last() == es[i]);
    } else {
        lemma_flat_renderings_index(es.drop_last(), i);
        assert(es.drop_last().subrange(0, i) =~= es.subrange(0, i));
        assert(es.drop_last()[i] == es[i]);
    }
}

/// Law of the flat formatter: an entry that has both a name and an
/// address appears verbatim, as `"Name <address>"`, inside the
/// formatted field.
pub proof fn lemma_flat_entry_appears(es: Seq<AddressEntryV>, i: int)
    requires
        0 <= i < es.len(),
        es[i].name is Some,
        es[i].address is Some,
    ensures
        contains_seq(
            format_address_spec(AddressFieldV::Flat(es)),
            es[i].name.unwrap() + " <"@ + es[i].address.unwrap() + ">"@,
        ),
{
    lemma_flat_renderings_index(es, i);
    lemma_join_contains_part(flat_renderings(es), ", "@, present_count_before(es, i));
}

proof fn lemma_flat_renderings_remove(es: Seq<AddressEntryV>, i: int)
    requires
        0 <= i < es.len(),
        !entry_present(es[i]),
    ensures
        flat_renderings(es.remove(i)) == flat_renderings(es),
    decreases es.len(),
{
    if i == es.len() - 1 {
        assert(es.remove(i) =~= es.drop_last());
        assert(es.last() == es[i]);
    } else {
        lemma_flat_renderings_remove(es.drop_last(), i);
        assert(es.remove(i).drop_last() =~= es.drop_last().remove(i));
        assert(es.remove(i).last() == es.last());
        assert(es.remove(i).len() != 0);
    }
}

/// Law of the flat formatter: an entry with neither name nor address
/// contributes nothing at all — removing it leaves the formatted
/// field, separators included, unchanged.
pub proof fn lemma_flat_empty_entry_dropped(es: Seq<AddressEntryV>, i: int)
    requires
        0 <= i < es.len(),
        es[i].name is None,
        es[i].address is None,
    ensures
        format_address_spec(AddressFieldV::Flat(es.remove(i))) == format_address_spec(
            AddressFieldV::Flat(es),
        ),
{
    lemma_flat_renderings_remove(es, i);
}

} // verus!
