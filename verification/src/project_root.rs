//! The project-root locator.
//!
//! The project root is the closest ancestor of the current working
//! directory that holds the sentinel build file. Whether an ancestor holds
//! the sentinel is a filesystem fact; it enters as one flag per ancestor,
//! closest first, so the selection is verified for every directory tree.

use vstd::prelude::*;

use crate::errors::{kind_of, message_of, FatalError, FatalKind};
use crate::paths::{path_ancestors, spec_ancestors_of};
use crate::scan::{first_hit, lemma_first_hit, lemma_first_hit_at, lemma_first_hit_none};

verus! {

/// The outcome of the locator: without a working directory it fails on the
/// environment; otherwise it returns the closest ancestor whose sentinel
/// flag is set, and fails as not-found when no flag is.
pub open spec fn spec_find_project_root(cwd: Option<Seq<char>>, has_sentinel: Seq<bool>) -> Result<
    Seq<char>,
    FatalKind,
> {
    match cwd {
        None => Err(FatalKind::EnvPrecondition),
        Some(c) => {
            let d = first_hit(has_sentinel);
            if d < 0 {
                Err(FatalKind::NotFound)
            } else {
                Ok(spec_ancestors_of(c)[d])
            }
        },
    }
}

/// The locator returns the ancestor at the sentinel's depth and no other:
/// the chosen ancestor holds the sentinel, every closer one does not, and
/// the search fails exactly when no ancestor holds it.
pub proof fn lemma_find_project_root_first_match(cwd: Seq<char>, has_sentinel: Seq<bool>)
    ensures
        match spec_find_project_root(Some(cwd), has_sentinel) {
            Ok(root) => {
                let d = first_hit(has_sentinel);
                &&& 0 <= d < has_sentinel.len()
                &&& has_sentinel[d]
                &&& forall|j: int| 0 <= j < d ==> !has_sentinel[j]
                &&& root == spec_ancestors_of(cwd)[d]
            },
            Err(k) => k == FatalKind::NotFound && forall|j: int|
                0 <= j < has_sentinel.len() ==> !has_sentinel[j],
        },
        (forall|j: int| 0 <= j < has_sentinel.len() ==> !has_sentinel[j])
            ==> spec_find_project_root(Some(cwd), has_sentinel) == Err::<Seq<char>, FatalKind>(
            FatalKind::NotFound,
        ),
{
    lemma_first_hit(has_sentinel);
    if forall|j: int| 0 <= j < has_sentinel.len() ==> !has_sentinel[j] {
        lemma_first_hit_none(has_sentinel);
    }
}

/// Locate the project root from the current working directory.
///
/// `current_dir` is the working directory, or nothing when it could not be
/// determined; `has_sentinel[i]` says whether the `i`-th ancestor of it
/// (closest first, as `path_ancestors` enumerates them) holds a regular
/// file named `build_file`. The search is read-only: it returns the first
/// ancestor whose flag is set.
pub fn find_project_root(
    build_file: &str,
    current_dir: Option<&String>,
    has_sentinel: &Vec<bool>,
) -> (r: Result<String, FatalError>)
    requires
        current_dir matches Some(c) ==> has_sentinel@.len() == spec_ancestors_of(c@).len(),
    ensures
        match spec_find_project_root(
            match current_dir {
                Some(c) => Some(c@),
                None => None,
            },
            has_sentinel@,
        ) {
            Ok(p) => r matches Ok(root) && root@ == p,
            Err(k) => r matches Err(e) && kind_of(e) == k && message_of(e).len() > 0,
        },
{
    let cwd;
    match current_dir {
        Some(c) => {
            cwd = c;
        },
        None => {
            let m = "Unable to get the current directory.".to_owned();
            proof {
                reveal_strlit("Unable to get the current directory.");
            }
            return Err(FatalError::EnvPrecondition(m));
        },
    }
    let ancestors = path_ancestors(cwd.as_str());
    let mut i: usize = 0;
    while i < has_sentinel.len()
        invariant
            current_dir == Some(cwd),
            has_sentinel@.len() == spec_ancestors_of(cwd@).len(),
            ancestors@.len() == spec_ancestors_of(cwd@).len(),
            forall|k: int| 0 <= k < ancestors@.len() ==> ancestors@[k]@ == spec_ancestors_of(
                cwd@,
            )[k],
            0 <= i <= has_sentinel@.len(),
            forall|j: int| 0 <= j < i ==> !has_sentinel@[j],
        decreases has_sentinel@.len() - i,
    {
        if has_sentinel[i] {
            proof {
                lemma_first_hit_at(has_sentinel@, i as int);
            }
            return Ok(ancestors[i].clone());
        }
        i = i + 1;
    }
    proof {
        lemma_first_hit_none(has_sentinel@);
    }
    let mut m = "No build file found. Try adding a file named '".to_owned();
    proof {
        reveal_strlit("No build file found. Try adding a file named '");
    }
    m.append(build_file);
    m.append("' in the project root.");
    Err(FatalError::NotFound(m))
}

} // verus!
