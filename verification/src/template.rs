use vstd::prelude::*;

verus! {

/// The bare blank-line separator: a line feed pair.
pub open spec fn lf_lf() -> Seq<char> {
    seq!['\n', '\n']
}

/// The carriage-return-terminated blank-line separator.
pub open spec fn crlf_crlf() -> Seq<char> {
    seq!['\r', '\n', '\r', '\n']
}

/// The lowest offset at or after `i` where `sep` occurs in `t`, or
/// `None` when `sep` does not occur at or after `i` (an empty `sep`
/// never counts as occurring).
pub open spec fn first_match_from(t: Seq<char>, sep: Seq<char>, i: int) -> Option<int>
    decreases t.len() - i,
{
    if i < 0 || sep.len() == 0 || i + sep.len() > t.len() {
        None
    } else if t.subrange(i, i + sep.len()) == sep {
        Some(i)
    } else {
        first_match_from(t, sep, i + 1)
    }
}

/// A found offset lies in range and marks a real occurrence.
pub proof fn lemma_first_match_props(t: Seq<char>, sep: Seq<char>, i: int, m: int)
    requires
        first_match_from(t, sep, i) == Some(m),
    ensures
        i <= m,
        m + sep.len() <= t.len(),
        t.subrange(m, m + sep.len() as int) == sep,
    decreases t.len() - i,
{
    if !(i < 0 || sep.len() == 0 || i + sep.len() > t.len()) && t.subrange(
        i,
        i + sep.len() as int,
    ) != sep {
        lemma_first_match_props(t, sep, i + 1, m);
    }
}

/// The body part of a rendered template: everything strictly after
/// the first blank-line separator. A `"\n\n"` anywhere wins over
/// `"\r\n\r\n"`; with no separator at all the whole template is the
/// body.
pub open spec fn body_of(t: Seq<char>) -> Seq<char> {
    match first_match_from(t, lf_lf(), 0) {
        Some(i) => t.subrange(i + 2, t.len() as int),
        None => match first_match_from(t, crlf_crlf(), 0) {
            Some(i) => t.subrange(i + 4, t.len() as int),
            None => t,
        },
    }
}

fn find_lf_lf(tpl: &str) -> (r: Option<usize>)
    ensures
        match r {
            Some(i) => first_match_from(tpl@, lf_lf(), 0) == Some(i as int),
            None => first_match_from(tpl@, lf_lf(), 0) is None,
        },
{
    let n = tpl.unicode_len();
    let mut i: usize = 0;
    while n - i >= 2
        invariant
            n == tpl@.len(),
            0 <= i <= n,
            first_match_from(tpl@, lf_lf(), 0) == first_match_from(tpl@, lf_lf(), i as int),
        decreases n - i,
    {
        let c0 = tpl.get_char(i);
        let c1 = tpl.get_char(i + 1);
        if c0 == '\n' && c1 == '\n' {
            proof {
                assert(tpl@.subrange(i as int, i + 2) =~= lf_lf());
            }
            return Some(i);
        }
        proof {
            assert(tpl@.subrange(i as int, i + 2)[0] == tpl@[i as int]);
            assert(tpl@.subrange(i as int, i + 2)[1] == tpl@[i + 1]);
            assert(tpl@.subrange(i as int, i + 2) != lf_lf());
        }
        i = i + 1;
    }
    None
}

fn find_crlf_crlf(tpl: &str) -> (r: Option<usize>)
    ensures
        match r {
            Some(i) => first_match_from(tpl@, crlf_crlf(), 0) == Some(i as int),
            None => first_match_from(tpl@, crlf_crlf(), 0) is None,
        },
{
    let n = tpl.unicode_len();
    let mut i: usize = 0;
    while n - i >= 4
        invariant
            n == tpl@.len(),
            0 <= i <= n,
            first_match_from(tpl@, crlf_crlf(), 0) == first_match_from(tpl@, crlf_crlf(), i as int),
        decreases n - i,
    {
        let c0 = tpl.get_char(i);
        let c1 = tpl.get_char(i + 1);
        let c2 = tpl.get_char(i + 2);
        let c3 = tpl.get_char(i + 3);
        if c0 == '\r' && c1 == '\n' && c2 == '\r' && c3 == '\n' {
            proof {
                assert(tpl@.subrange(i as int, i + 4) =~= crlf_crlf());
            }
            return Some(i);
        }
        proof {
            assert(tpl@.subrange(i as int, i + 4)[0] == tpl@[i as int]);
            assert(tpl@.subrange(i as int, i + 4)[1] == tpl@[i + 1]);
            assert(tpl@.subrange(i as int, i + 4)[2] == tpl@[i + 2]);
            assert(tpl@.subrange(i as int, i + 4)[3] == tpl@[i + 3]);
            assert(tpl@.subrange(i as int, i + 4) != crlf_crlf());
        }
        i = i + 1;
    }
    None
}

/// Splits a rendered template into its body: the text strictly after
/// the first blank-line separator, or the whole template when no
/// separator occurs. Checks for `"\n\n"` before `"\r\n\r\n"`.
pub fn extract_body_from_template(tpl: &str) -> (r: String)
    ensures
        r@ == body_of(tpl@),
{
    let n = tpl.unicode_len();
    if let Some(i) = find_lf_lf(tpl) {
        proof {
            lemma_first_match_props(tpl@, lf_lf(), 0, i as int);
        }
        String::from_str(tpl.substring_char(i + 2, n))
    } else if let Some(i) = find_crlf_crlf(tpl) {
        proof {
            lemma_first_match_props(tpl@, crlf_crlf(), 0, i as int);
        }
        String::from_str(tpl.substring_char(i + 4, n))
    } else {
        String::from_str(tpl)
    }
}

} // verus!
