//! Character-level helpers shared by the path model and the configuration
//! reader: the longest prefix or suffix of a character sequence satisfying a
//! predicate, and executable string equality.

use vstd::prelude::*;

verus! {

/// Length of the longest prefix of `s` whose characters all satisfy `pred`.
pub open spec fn leading_span(s: Seq<char>, pred: spec_fn(char) -> bool) -> int
    decreases s.len(),
{
    if s.len() > 0 && pred(s[0]) {
        1 + leading_span(s.drop_first(), pred)
    } else {
        0
    }
}

/// Length of the longest suffix of `s` whose characters all satisfy `pred`.
pub open spec fn trailing_span(s: Seq<char>, pred: spec_fn(char) -> bool) -> int
    decreases s.len(),
{
    if s.len() > 0 && pred(s.last()) {
        1 + trailing_span(s.drop_last(), pred)
    } else {
        0
    }
}

/// The leading span is a position in `s`, everything before it satisfies
/// `pred`, and the character at it (if any) does not.
pub proof fn lemma_leading_span_bounds(s: Seq<char>, pred: spec_fn(char) -> bool)
    ensures
        0 <= leading_span(s, pred) <= s.len(),
        forall|j: int| 0 <= j < leading_span(s, pred) ==> pred(s[j]),
        leading_span(s, pred) < s.len() ==> !pred(s[leading_span(s, pred)]),
    decreases s.len(),
{
    if s.len() > 0 && pred(s[0]) {
        lemma_leading_span_bounds(s.drop_first(), pred);
        assert forall|j: int| 0 <= j < leading_span(s, pred) implies pred(s[j]) by {
            if j > 0 {
                assert(s.drop_first()[j - 1] == s[j]);
            }
        }
    }
}

/// A position before which everything satisfies `pred` and at which `pred`
/// fails is the leading span.
pub proof fn lemma_leading_span_at(s: Seq<char>, pred: spec_fn(char) -> bool, i: int)
    requires
        0 <= i <= s.len(),
        forall|j: int| 0 <= j < i ==> pred(s[j]),
        i < s.len() ==> !pred(s[i]),
    ensures
        leading_span(s, pred) == i,
    decreases s.len(),
{
    if s.len() > 0 && pred(s[0]) {
        assert forall|j: int| 0 <= j < i - 1 implies pred(s.drop_first()[j]) by {
            assert(s.drop_first()[j] == s[j + 1]);
        }
        assert(i - 1 < s.drop_first().len() ==> !pred(s.drop_first()[i - 1]));
        lemma_leading_span_at(s.drop_first(), pred, i - 1);
    }
}

/// The trailing span is a length of a suffix of `s`, everything in that
/// suffix satisfies `pred`, and the character just before it (if any) does
/// not.
pub proof fn lemma_trailing_span_bounds(s: Seq<char>, pred: spec_fn(char) -> bool)
    ensures
        0 <= trailing_span(s, pred) <= s.len(),
        forall|j: int| s.len() - trailing_span(s, pred) <= j < s.len() ==> pred(s[j]),
        trailing_span(s, pred) < s.len() ==> !pred(s[s.len() - trailing_span(s, pred) - 1]),
    decreases s.len(),
{
    if s.len() > 0 && pred(s.last()) {
        lemma_trailing_span_bounds(s.drop_last(), pred);
        assert forall|j: int| s.len() - trailing_span(s, pred) <= j < s.len() implies pred(
            s[j],
        ) by {
            if j < s.len() - 1 {
                assert(s.drop_last()[j] == s[j]);
            }
        }
    }
}

/// A suffix length whose characters all satisfy `pred`, preceded by a
/// character that does not, is the trailing span.
pub proof fn lemma_trailing_span_at(s: Seq<char>, pred: spec_fn(char) -> bool, i: int)
    requires
        0 <= i <= s.len(),
        forall|j: int| s.len() - i <= j < s.len() ==> pred(s[j]),
        i < s.len() ==> !pred(s[s.len() - i - 1]),
    ensures
        trailing_span(s, pred) == i,
    decreases s.len(),
{
    if s.len() > 0 && pred(s.last()) {
        assert forall|j: int| s.drop_last().len() - (i - 1) <= j < s.drop_last().len() implies pred(
            s.drop_last()[j],
        ) by {
            assert(s.drop_last()[j] == s[j]);
        }
        assert(i - 1 < s.drop_last().len() ==> !pred(
            s.drop_last()[s.drop_last().len() - (i - 1) - 1],
        ));
        lemma_trailing_span_at(s.drop_last(), pred, i - 1);
    }
}

/// Whether `c` is a space or a tab.
pub open spec fn spec_is_space(c: char) -> bool {
    c == ' ' || c == '\t'
}

/// Whether `c` is a space or a tab.
#[verifier::when_used_as_spec(spec_is_space)]
pub fn is_space(c: char) -> (r: bool)
    ensures
        r == spec_is_space(c),
{
    c == ' ' || c == '\t'
}

/// Whether `c` may appear in a configuration key: an ASCII letter, digit,
/// underscore or hyphen.
pub open spec fn spec_is_key_char(c: char) -> bool {
    (97 <= (c as u32) && (c as u32) <= 122) || (65 <= (c as u32) && (c as u32) <= 90) || (48 <= (
    c as u32) && (c as u32) <= 57) || c == '_' || c == '-'
}

/// Whether `c` may appear in a configuration key.
#[verifier::when_used_as_spec(spec_is_key_char)]
pub fn is_key_char(c: char) -> (r: bool)
    ensures
        r == spec_is_key_char(c),
{
    let u = c as u32;
    (97 <= u && u <= 122) || (65 <= u && u <= 90) || (48 <= u && u <= 57) || c == '_' || c == '-'
}

/// The view of an optional owned string.
pub open spec fn opt_str_view(o: Option<String>) -> Option<Seq<char>> {
    match o {
        Some(s) => Some(s@),
        None => None,
    }
}

/// Whether two string slices hold the same characters.
pub fn str_eq(a: &str, b: &str) -> (r: bool)
    ensures
        r == (a@ == b@),
{
    let an = a.unicode_len();
    let bn = b.unicode_len();
    if an != bn {
        return false;
    }
    let mut i: usize = 0;
    while i < an
        invariant
            an == a@.len(),
            an == b@.len(),
            0 <= i <= an,
            forall|j: int| 0 <= j < i ==> a@[j] == b@[j],
        decreases an - i,
    {
        if a.get_char(i) != b.get_char(i) {
            return false;
        }
        i = i + 1;
    }
    proof {
        assert(a@ =~= b@);
    }
    true
}

} // verus!
