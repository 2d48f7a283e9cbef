//! A plain-text model of filesystem paths.
//!
//! Paths are strings with `/` as the separator. The model covers exactly the
//! operations the resolvers need: joining a relative path onto a base,
//! walking to the parent, enumerating ancestors closest-first, and taking
//! the last component, file stem and extension of a path.

use vstd::prelude::*;

use crate::chars::{lemma_trailing_span_at, lemma_trailing_span_bounds, trailing_span};

verus! {

/// `base` with relative path `rel` appended, separated by `/` unless one
/// side makes the separator unnecessary.
pub open spec fn spec_join_path(base: Seq<char>, rel: Seq<char>) -> Seq<char> {
    if rel.len() == 0 {
        base
    } else if base.len() == 0 {
        rel
    } else if base.last() == '/' {
        base + rel
    } else {
        base + seq!['/'] + rel
    }
}

/// Join `rel` onto `base` with a `/` separator.
pub fn join_path(base: &str, rel: &str) -> (r: String)
    ensures
        r@ == spec_join_path(base@, rel@),
{
    let bn = base.unicode_len();
    let rn = rel.unicode_len();
    if rn == 0 {
        return base.to_owned();
    }
    if bn == 0 {
        return rel.to_owned();
    }
    let mut r = base.to_owned();
    if base.get_char(bn - 1) != '/' {
        r.append("/");
        proof {
            reveal_strlit("/");
            assert(("/")@ =~= seq!['/']);
        }
    }
    r.append(rel);
    r
}

/// Index of the last `/` in `s`, or `-1` if `s` has none.
pub open spec fn last_slash_index(s: Seq<char>) -> int {
    s.len() - trailing_span(s, |c: char| c != '/') - 1
}

/// Index of the last `.` in `s`, or `-1` if `s` has none.
pub open spec fn last_dot_index(s: Seq<char>) -> int {
    s.len() - trailing_span(s, |c: char| c != '.') - 1
}

/// What `last_slash_index` promises: it names the last slash, or reports
/// that there is none.
pub proof fn lemma_last_slash_index(s: Seq<char>)
    ensures
        -1 <= last_slash_index(s) < s.len(),
        last_slash_index(s) >= 0 ==> s[last_slash_index(s)] == '/',
        forall|j: int| last_slash_index(s) < j < s.len() ==> s[j] != '/',
{
    lemma_trailing_span_bounds(s, |c: char| c != '/');
}

/// The parent directory of `s`: everything before the last `/`, the root
/// `/` itself when the last slash leads, and empty when `s` has no slash.
pub open spec fn spec_parent_of(s: Seq<char>) -> Seq<char> {
    let k = last_slash_index(s);
    if k < 0 {
        Seq::empty()
    } else if k == 0 {
        s.take(1)
    } else {
        s.take(k)
    }
}

/// Whether the upward search stops at `s`: a single character (the
/// filesystem root) or a path without any separator.
pub open spec fn spec_is_search_root(s: Seq<char>) -> bool {
    s.len() <= 1 || last_slash_index(s) < 0
}

/// Every ancestor of `s`, closest first: `s` itself, then its parent, and
/// so on up to the search root.
pub open spec fn spec_ancestors_of(s: Seq<char>) -> Seq<Seq<char>>
    decreases s.len(),
    via spec_ancestors_of_decreases
{
    if spec_is_search_root(s) {
        seq![s]
    } else {
        seq![s] + spec_ancestors_of(spec_parent_of(s))
    }
}

#[via_fn]
proof fn spec_ancestors_of_decreases(s: Seq<char>) {
    if !spec_is_search_root(s) {
        lemma_last_slash_index(s);
    }
}

/// The last path component of `s`: everything after the last `/`.
pub open spec fn spec_last_component(s: Seq<char>) -> Seq<char> {
    s.skip(last_slash_index(s) + 1)
}

/// The file stem of `s`: its last component up to the last `.`, or the
/// whole component when the only dot leads or there is none.
pub open spec fn spec_file_stem(s: Seq<char>) -> Seq<char> {
    let name = spec_last_component(s);
    let d = last_dot_index(name);
    if d <= 0 {
        name
    } else {
        name.take(d)
    }
}

/// Whether the last component of `s` has an extension: a `.` after its
/// first character.
pub open spec fn spec_has_extension(s: Seq<char>) -> bool {
    last_dot_index(spec_last_component(s)) > 0
}

/// Whether `s` is an absolute path.
pub open spec fn spec_is_absolute(s: Seq<char>) -> bool {
    s.len() > 0 && s[0] == '/'
}

/// Whether `s` is absolute.
pub fn is_absolute(s: &str) -> (r: bool)
    ensures
        r == spec_is_absolute(s@),
{
    let n = s.unicode_len();
    if n == 0 {
        return false;
    }
    s.get_char(0) == '/'
}

/// Index just after the last `/` of `s`, or `0` if `s` has none.
fn after_last_slash(s: &str) -> (r: usize)
    ensures
        r == last_slash_index(s@) + 1,
        r <= s@.len(),
{
    let n = s.unicode_len();
    let mut i: usize = n;
    while i > 0
        invariant
            n == s@.len(),
            0 <= i <= n,
            forall|j: int| i <= j < n ==> s@[j] != '/',
        decreases i,
    {
        if s.get_char(i - 1) == '/' {
            proof {
                lemma_trailing_span_at(s@, |c: char| c != '/', n - i);
            }
            return i;
        }
        i = i - 1;
    }
    proof {
        lemma_trailing_span_at(s@, |c: char| c != '/', n as int);
    }
    0
}

/// Index just after the last `.` of `s`, or `0` if `s` has none.
fn after_last_dot(s: &str) -> (r: usize)
    ensures
        r == last_dot_index(s@) + 1,
        r <= s@.len(),
{
    let n = s.unicode_len();
    let mut i: usize = n;
    while i > 0
        invariant
            n == s@.len(),
            0 <= i <= n,
            forall|j: int| i <= j < n ==> s@[j] != '.',
        decreases i,
    {
        if s.get_char(i - 1) == '.' {
            proof {
                lemma_trailing_span_at(s@, |c: char| c != '.', n - i);
            }
            return i;
        }
        i = i - 1;
    }
    proof {
        lemma_trailing_span_at(s@, |c: char| c != '.', n as int);
    }
    0
}

/// The parent directory of `s`.
pub fn parent_of(s: &str) -> (r: String)
    ensures
        r@ == spec_parent_of(s@),
{
    let a = after_last_slash(s);
    if a == 0 {
        String::new()
    } else if a == 1 {
        s.substring_char(0, 1).to_owned()
    } else {
        s.substring_char(0, a - 1).to_owned()
    }
}

/// Whether the upward search stops at `s`.
pub fn is_search_root(s: &str) -> (r: bool)
    ensures
        r == spec_is_search_root(s@),
{
    if s.unicode_len() <= 1 {
        return true;
    }
    after_last_slash(s) == 0
}

/// The last path component of `s`.
pub fn last_component(s: &str) -> (r: String)
    ensures
        r@ == spec_last_component(s@),
{
    let a = after_last_slash(s);
    let n = s.unicode_len();
    s.substring_char(a, n).to_owned()
}

/// The file stem of `s`.
pub fn file_stem(s: &str) -> (r: String)
    ensures
        r@ == spec_file_stem(s@),
{
    let name = last_component(s);
    let d = after_last_dot(name.as_str());
    if d <= 1 {
        name
    } else {
        name.as_str().substring_char(0, d - 1).to_owned()
    }
}

/// Whether the last component of `s` has an extension.
pub fn has_extension(s: &str) -> (r: bool)
    ensures
        r == spec_has_extension(s@),
{
    let name = last_component(s);
    after_last_dot(name.as_str()) > 1
}

/// All ancestors of `s`, closest first.
pub fn path_ancestors(s: &str) -> (r: Vec<String>)
    ensures
        r@.len() == spec_ancestors_of(s@).len(),
        forall|i: int| 0 <= i < r@.len() ==> r@[i]@ == spec_ancestors_of(s@)[i],
{
    let mut r: Vec<String> = Vec::new();
    let mut cur: String = s.to_owned();
    loop
        invariant
            r@.len() + spec_ancestors_of(cur@).len() == spec_ancestors_of(s@).len(),
            forall|i: int| 0 <= i < r@.len() ==> r@[i]@ == spec_ancestors_of(s@)[i],
            forall|i: int|
                0 <= i < spec_ancestors_of(cur@).len() ==> spec_ancestors_of(cur@)[i]
                    == spec_ancestors_of(s@)[r@.len() + i],
        decreases cur@.len(),
    {
        let ghost old_cur = cur@;
        let ghost n0 = r@.len() as int;
        if is_search_root(cur.as_str()) {
            proof {
                assert(spec_ancestors_of(old_cur) == seq![old_cur]);
            }
            r.push(cur);
            proof {
                assert forall|i: int| 0 <= i < r@.len() implies r@[i]@ == spec_ancestors_of(
                    s@,
                )[i] by {
                    if i == n0 {
                        assert(spec_ancestors_of(old_cur)[0] == old_cur);
                        assert(spec_ancestors_of(s@)[n0] == old_cur);
                    }
                }
            }
            return r;
        }
        proof {
            lemma_last_slash_index(cur@);
            assert(spec_ancestors_of(old_cur) == seq![old_cur] + spec_ancestors_of(
                spec_parent_of(old_cur),
            ));
        }
        let next = parent_of(cur.as_str());
        r.push(cur);
        proof {
            let tail = spec_ancestors_of(next@);
            assert forall|i: int| 0 <= i < r@.len() implies r@[i]@ == spec_ancestors_of(s@)[i] by {
                if i == n0 {
                    assert(spec_ancestors_of(old_cur)[0] == old_cur);
                    assert(spec_ancestors_of(s@)[n0] == old_cur);
                }
            }
            assert forall|i: int| 0 <= i < tail.len() implies tail[i] == spec_ancestors_of(
                s@,
            )[r@.len() + i] by {
                assert((seq![old_cur] + tail)[i + 1] == tail[i]);
                assert(spec_ancestors_of(old_cur)[i + 1] == spec_ancestors_of(s@)[n0 + i + 1]);
            }
        }
        cur = next;
    }
}

} // verus!
