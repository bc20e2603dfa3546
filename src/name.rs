//! Turning `"Surname, Firstname"` text into `"Firstname Surname"`.
use vstd::prelude::*;

use crate::outcome::ScrapError;
use crate::text::{is_white_space, trim, trim_end, trim_start, trimmed};

verus! {

/// `k` is the position of the first comma of `s`.
pub open spec fn is_first_comma(s: Seq<char>, k: int) -> bool {
    0 <= k < s.len() && s[k] == ',' && forall|j: int| 0 <= j < k ==> s[j] != ','
}

/// `s` holds at least one comma.
pub open spec fn has_comma(s: Seq<char>) -> bool {
    exists|k: int| 0 <= k < s.len() && s[k] == ','
}

/// The position of the first comma of `s` (meaningful when `has_comma(s)`).
pub open spec fn comma_index(s: Seq<char>) -> int {
    choose|k: int| is_first_comma(s, k)
}

/// The text after the first comma, trimmed, a space, then the text before it, trimmed.
pub open spec fn normalized_name(s: Seq<char>) -> Seq<char> {
    let k = comma_index(s);
    trimmed(s.subrange(k + 1, s.len() as int)) + seq![' '] + trimmed(s.subrange(0, k))
}

/// There is one first comma.
pub proof fn lemma_first_comma_unique(s: Seq<char>, a: int, b: int)
    requires
        is_first_comma(s, a),
        is_first_comma(s, b),
    ensures
        a == b,
{
    if a < b {
        assert(s[a] != ',');
    } else if b < a {
        assert(s[b] != ',');
    }
}

/// A string that holds a comma has a first one, and `comma_index` is it.
pub proof fn lemma_comma_index(s: Seq<char>, k: int)
    requires
        is_first_comma(s, k),
    ensures
        comma_index(s) == k,
{
    lemma_first_comma_unique(s, comma_index(s), k);
}

/// Splits `text` at its first comma into surname and first name, trims each,
/// and composes `"{firstname} {surname}"`. Text without a comma is refused
/// with `ParseName` carrying the text as it came.
pub fn parse_name(text: &str) -> (r: Result<String, ScrapError>)
    ensures
        r is Ok <==> has_comma(text@),
        r matches Ok(n) ==> n@ == normalized_name(text@),
        r matches Err(e) ==> (e matches ScrapError::ParseName(t) && t@ == text@),
{
    let n = text.unicode_len();
    let mut k: usize = 0;
    while k < n && text.get_char(k) != ','
        invariant
            k <= n,
            n == text@.len(),
            forall|j: int| 0 <= j < k ==> text@[j] != ',',
        decreases n - k,
    {
        k = k + 1;
    }
    if k == n {
        return Err(ScrapError::ParseName(String::from_str(text)));
    }
    proof {
        lemma_comma_index(text@, k as int);
    }
    let surname = trim(text.substring_char(0, k));
    let mut name = trim(text.substring_char(k + 1, n));
    proof {
        reveal_strlit(" ");
    }
    name.append(" ");
    name.append(surname.as_str());
    Ok(name)
}

/// Every character of `w` is whitespace.
pub open spec fn all_white_space(w: Seq<char>) -> bool {
    forall|i: int| 0 <= i < w.len() ==> is_white_space(#[trigger] w[i])
}

/// `x` has no whitespace at either end.
pub open spec fn tight(x: Seq<char>) -> bool {
    x.len() > 0 ==> !is_white_space(x[0]) && !is_white_space(x.last())
}

proof fn lemma_trim_start_skips(w: Seq<char>, y: Seq<char>)
    requires
        all_white_space(w),
    ensures
        trim_start(w + y) == trim_start(y),
    decreases w.len(),
{
    if w.len() > 0 {
        assert((w + y).drop_first() =~= w.drop_first() + y);
        lemma_trim_start_skips(w.drop_first(), y);
    } else {
        assert(w + y =~= y);
    }
}

proof fn lemma_trim_end_skips(y: Seq<char>, w: Seq<char>)
    requires
        all_white_space(w),
    ensures
        trim_end(y + w) == trim_end(y),
    decreases w.len(),
{
    if w.len() > 0 {
        assert((y + w).drop_last() =~= y + w.drop_last());
        lemma_trim_end_skips(y, w.drop_last());
    } else {
        assert(y + w =~= y);
    }
}

/// Trimming strips whitespace padding from both sides of a tight text, and no more.
pub proof fn lemma_trimmed_padding(w1: Seq<char>, x: Seq<char>, w2: Seq<char>)
    requires
        all_white_space(w1),
        all_white_space(w2),
        tight(x),
    ensures
        trimmed(w1 + x + w2) == x,
{
    assert(w1 + x + w2 =~= w1 + (x + w2));
    lemma_trim_start_skips(w1, x + w2);
    if x.len() > 0 {
        assert((x + w2)[0] == x[0]);
        lemma_trim_end_skips(x, w2);
        assert(x.last() == x[x.len() - 1]);
    } else {
        assert(x + w2 =~= w2 + x);
        lemma_trim_start_skips(w2, x);
        assert(trim_start(x) == x);
    }
}

/// For a surname without commas and a first name, each without whitespace at its
/// ends, the text `"Surname, Firstname"` with any whitespace around either part
/// holds a comma and normalizes to exactly `"Firstname Surname"`.
pub proof fn lemma_name_normalized(
    w1: Seq<char>,
    surname: Seq<char>,
    w2: Seq<char>,
    w3: Seq<char>,
    firstname: Seq<char>,
    w4: Seq<char>,
)
    requires
        all_white_space(w1),
        all_white_space(w2),
        all_white_space(w3),
        all_white_space(w4),
        tight(surname),
        tight(firstname),
        !has_comma(surname),
    ensures
        has_comma(w1 + surname + w2 + seq![','] + w3 + firstname + w4),
        normalized_name(w1 + surname + w2 + seq![','] + w3 + firstname + w4) == firstname
            + seq![' '] + surname,
{
    let before = w1 + surname + w2;
    let after = w3 + firstname + w4;
    let s = w1 + surname + w2 + seq![','] + w3 + firstname + w4;
    assert(s =~= before + seq![','] + after);
    let k = before.len() as int;
    assert(s[k] == ',');
    assert forall|j: int| 0 <= j < k implies s[j] != ',' by {
        assert(s[j] == before[j]);
        if j < w1.len() {
            assert(is_white_space(w1[j]));
        } else if j < w1.len() + surname.len() {
            assert(surname[j - w1.len()] == before[j]);
        } else {
            assert(is_white_space(w2[j - w1.len() - surname.len()]));
        }
    }
    assert(is_first_comma(s, k));
    lemma_comma_index(s, k);
    assert(s.subrange(0, k) =~= before);
    assert(s.subrange(k + 1, s.len() as int) =~= after);
    lemma_trimmed_padding(w1, surname, w2);
    lemma_trimmed_padding(w3, firstname, w4);
}

} // verus!
