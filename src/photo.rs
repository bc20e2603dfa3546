//! Choosing the photo among a page's image sources.
use vstd::prelude::*;

verus! {

/// `p` is a prefix of `s`.
pub open spec fn has_prefix(s: Seq<char>, p: Seq<char>) -> bool {
    p.len() <= s.len() && s.subrange(0, p.len() as int) == p
}

/// `src` lies in the photo directory and is not the placeholder image.
pub open spec fn qualifies(src: Seq<char>, dir: Seq<char>, placeholder: Seq<char>) -> bool {
    has_prefix(src, dir) && src != placeholder
}

/// The first source, in document order, that qualifies; images without a source are passed over.
pub open spec fn first_qualifying(
    srcs: Seq<Option<Seq<char>>>,
    dir: Seq<char>,
    placeholder: Seq<char>,
) -> Option<Seq<char>>
    decreases srcs.len(),
{
    if srcs.len() == 0 {
        None
    } else if srcs[0] matches Some(s) && qualifies(s, dir, placeholder) {
        srcs[0]
    } else {
        first_qualifying(srcs.drop_first(), dir, placeholder)
    }
}

/// The text held by an optional string.
pub open spec fn opt_view(o: Option<String>) -> Option<Seq<char>> {
    match o {
        Some(s) => Some(s@),
        None => None,
    }
}

/// The texts held by a sequence of optional strings.
pub open spec fn opt_views(v: Seq<Option<String>>) -> Seq<Option<Seq<char>>> {
    v.map_values(|o: Option<String>| opt_view(o))
}

/// Whether `p` is a prefix of `s`.
pub fn starts_with(s: &str, p: &str) -> (r: bool)
    ensures
        r == has_prefix(s@, p@),
{
    let n = s.unicode_len();
    let m = p.unicode_len();
    if m > n {
        return false;
    }
    let mut i: usize = 0;
    while i < m
        invariant
            i <= m <= n,
            n == s@.len(),
            m == p@.len(),
            forall|j: int| 0 <= j < i ==> s@[j] == p@[j],
        decreases m - i,
    {
        if s.get_char(i) != p.get_char(i) {
            assert(s@.subrange(0, m as int)[i as int] != p@[i as int]);
            return false;
        }
        i = i + 1;
    }
    assert(s@.subrange(0, m as int) =~= p@);
    true
}

/// Whether `a` and `b` hold the same characters.
pub fn same_text(a: &str, b: &str) -> (r: bool)
    ensures
        r == (a@ == b@),
{
    let n = a.unicode_len();
    if n != b.unicode_len() {
        return false;
    }
    assert(a@ =~= a@.subrange(0, n as int));
    starts_with(a, b)
}

/// The first source that lies in `dir` and is not `placeholder`, if any.
pub fn pick_picture(srcs: &Vec<Option<String>>, dir: &str, placeholder: &str) -> (r: Option<String>)
    ensures
        opt_view(r) == first_qualifying(opt_views(srcs@), dir@, placeholder@),
{
    let ghost v = opt_views(srcs@);
    let mut i: usize = 0;
    assert(v.subrange(0, v.len() as int) =~= v);
    while i < srcs.len()
        invariant
            i <= srcs@.len(),
            v == opt_views(srcs@),
            first_qualifying(v, dir@, placeholder@) == first_qualifying(
                v.subrange(i as int, v.len() as int),
                dir@,
                placeholder@,
            ),
        decreases srcs@.len() - i,
    {
        let ghost rest = v.subrange(i as int, v.len() as int);
        assert(rest[0] == opt_view(srcs@[i as int]));
        assert(rest.drop_first() =~= v.subrange(i + 1, v.len() as int));
        match &srcs[i] {
            Some(s) => {
                if starts_with(s.as_str(), dir) && !same_text(s.as_str(), placeholder) {
                    return Some(s.clone());
                }
            },
            None => {},
        }
        i = i + 1;
    }
    None
}

} // verus!
