use vstd::prelude::*;

verus! {

/// A view of an optional string as an optional character sequence.
pub open spec fn opt_string_view(o: Option<String>) -> Option<Seq<char>> {
    match o {
        Some(s) => Some(s@),
        None => None,
    }
}

/// An exact copy of an optional string.
pub fn clone_opt_string(o: &Option<String>) -> (r: Option<String>)
    ensures
        opt_string_view(r) == opt_string_view(*o),
{
    match o {
        Some(s) => Some(s.clone()),
        None => None,
    }
}

/// An exact copy of a string list, element for element.
pub fn clone_strings(v: &Vec<String>) -> (r: Vec<String>)
    ensures
        r@ == v@,
{
    let mut out: Vec<String> = Vec::new();
    let mut i: usize = 0;
    while i < v.len()
        invariant
            0 <= i <= v@.len(),
            out@ == v@.subrange(0, i as int),
        decreases v@.len() - i,
    {
        out.push(v[i].clone());
        proof {
            assert(out@ =~= v@.subrange(0, i + 1));
        }
        i = i + 1;
    }
    proof {
        assert(v@.subrange(0, v@.len() as int) =~= v@);
    }
    out
}

/// The parts joined left to right with `sep` between adjacent parts:
/// `join([a, b, c], s) == a + s + b + s + c`. An empty part list
/// yields the empty sequence; every part contributes, empty or not.
pub open spec fn join(parts: Seq<Seq<char>>, sep: Seq<char>) -> Seq<char>
    decreases parts.len(),
{
    if parts.len() == 0 {
        Seq::empty()
    } else if parts.len() == 1 {
        parts[0]
    } else {
        join(parts.drop_last(), sep) + sep + parts.last()
    }
}

/// `needle` occurs in `hay` starting at offset `k`.
pub open spec fn occurs_at(hay: Seq<char>, needle: Seq<char>, k: int) -> bool {
    0 <= k && k + needle.len() <= hay.len() && hay.subrange(k, k + needle.len()) == needle
}

/// `needle` occurs somewhere in `hay` as a contiguous run.
pub open spec fn contains_seq(hay: Seq<char>, needle: Seq<char>) -> bool {
    exists|k: int| occurs_at(hay, needle, k)
}

/// Appending to the right keeps every occurrence where it was.
pub proof fn lemma_contains_extend_right(a: Seq<char>, b: Seq<char>, needle: Seq<char>)
    requires
        contains_seq(a, needle),
    ensures
        contains_seq(a + b, needle),
{
    let k = choose|k: int| occurs_at(a, needle, k);
    assert((a + b).subrange(k, k + needle.len() as int) =~= a.subrange(
        k,
        k + needle.len() as int,
    ));
    assert(occurs_at(a + b, needle, k));
}

/// Prepending on the left shifts every occurrence by the prefix length.
pub proof fn lemma_contains_extend_left(a: Seq<char>, b: Seq<char>, needle: Seq<char>)
    requires
        contains_seq(b, needle),
    ensures
        contains_seq(a + b, needle),
{
    let k = choose|k: int| occurs_at(b, needle, k);
    let j = a.len() + k;
    assert((a + b).subrange(j, j + needle.len() as int) =~= b.subrange(
        k,
        k + needle.len() as int,
    ));
    assert(occurs_at(a + b, needle, j));
}

/// A sequence occurs in itself, at offset zero.
pub proof fn lemma_contains_self(s: Seq<char>)
    ensures
        contains_seq(s, s),
{
    assert(s.subrange(0, s.len() as int) =~= s);
    assert(occurs_at(s, s, 0));
}

/// Joining never loses a part: each part of the list occurs verbatim
/// somewhere in the joined sequence.
pub proof fn lemma_join_contains_part(parts: Seq<Seq<char>>, sep: Seq<char>, j: int)
    requires
        0 <= j < parts.len(),
    ensures
        contains_seq(join(parts, sep), parts[j]),
    decreases parts.len(),
{
    if parts.len() == 1 {
        lemma_contains_self(parts[0]);
    } else if j == parts.len() - 1 {
        lemma_contains_self(parts.last());
        lemma_contains_extend_left(join(parts.drop_last(), sep) + sep, parts.last(), parts.last());
    } else {
        lemma_join_contains_part(parts.drop_last(), sep, j);
        assert(parts.drop_last()[j] == parts[j]);
        lemma_contains_extend_right(join(parts.drop_last(), sep), sep, parts[j]);
        lemma_contains_extend_right(join(parts.drop_last(), sep) + sep, parts.last(), parts[j]);
    }
}

} // verus!
