//! Fuzzy Locator: picks, among the regular files found under a root, those
//! whose name matches a query, keeping the order in which they were found.

use vstd::prelude::*;
use crate::text::{is_dotted, starts_with_dot, views, contains_str};

verus! {

/// The score that `sublime_fuzzy::best_match` gives `target` for `query`,
/// if it matches at all.
pub uninterp spec fn best_match_score(query: Seq<char>, target: Seq<char>) -> Option<isize>;

/// Relies on `sublime_fuzzy::best_match` (case-insensitive): its score is a
/// function of the two strings, and an empty query or target never matches.
#[verifier::external_body]
fn fuzzy_score(query: &str, target: &str) -> (r: Option<isize>)
    ensures
        r == best_match_score(query@, target@),
        query@.len() == 0 || target@.len() == 0 ==> r is None,
{
    match sublime_fuzzy::best_match(query, target) {
        Some(m) => Some(m.score()),
        None => None,
    }
}

/// A regular file found under the search root: its full path, and the
/// components of its path relative to the root, the file name last.
pub struct Candidate {
    pub path: String,
    pub components: Vec<String>,
}

impl View for Candidate {
    type V = (Seq<char>, Seq<Seq<char>>);

    open spec fn view(&self) -> Self::V {
        (self.path@, views(self.components@))
    }
}

/// Whether a relative path lies outside excluded and (unless shown) hidden
/// subtrees: no directory component is excluded, and no component starts
/// with a dot unless hidden entries are shown.
pub open spec fn path_visible(
    components: Seq<Seq<char>>,
    show_hidden: bool,
    exclusions: Seq<Seq<char>>,
) -> bool {
    &&& components.len() > 0
    &&& forall|k: int| 0 <= k < components.len() - 1 ==> !exclusions.contains(#[trigger] components[k])
    &&& show_hidden || forall|k: int| 0 <= k < components.len() ==> !is_dotted(#[trigger] components[k])
}

/// Whether a candidate is a result, given the score of its file name.
pub open spec fn candidate_kept(
    components: Seq<Seq<char>>,
    score: Option<isize>,
    show_hidden: bool,
    exclusions: Seq<Seq<char>>,
) -> bool {
    &&& path_visible(components, show_hidden, exclusions)
    &&& match score {
        Some(s) => s > 0,
        None => false,
    }
}

/// The paths of the candidates that match `query`, in the order given.
pub open spec fn search_results(
    cands: Seq<(Seq<char>, Seq<Seq<char>>)>,
    query: Seq<char>,
    show_hidden: bool,
    exclusions: Seq<Seq<char>>,
) -> Seq<Seq<char>>
    decreases cands.len(),
{
    if cands.len() == 0 {
        seq![]
    } else {
        let prev = search_results(cands.drop_last(), query, show_hidden, exclusions);
        let c = cands.last();
        if c.1.len() > 0 && candidate_kept(
            c.1,
            best_match_score(query, c.1.last()),
            show_hidden,
            exclusions,
        ) {
            prev.push(c.0)
        } else {
            prev
        }
    }
}

/// Decides whether a candidate is a result, given the score that its file
/// name got for the query.
pub fn keep_candidate(
    components: &Vec<String>,
    score: Option<isize>,
    show_hidden: bool,
    exclusions: &Vec<String>,
) -> (r: bool)
    ensures
        r == candidate_kept(views(components@), score, show_hidden, views(exclusions@)),
{
    let n = components.len();
    if n == 0 {
        return false;
    }
    let ghost cs = views(components@);
    let mut k: usize = 0;
    while k < n
        invariant
            n == components@.len(),
            cs == views(components@),
            k <= n,
            forall|j: int| 0 <= j < k && j < n - 1 ==> !views(exclusions@).contains(#[trigger] cs[j]),
            show_hidden || forall|j: int| 0 <= j < k ==> !is_dotted(#[trigger] cs[j]),
        decreases n - k,
    {
        assert(cs[k as int] == components@[k as int]@);
        if k + 1 < n && contains_str(exclusions, &components[k]) {
            return false;
        }
        if !show_hidden && starts_with_dot(components[k].as_str()) {
            return false;
        }
        k = k + 1;
    }
    match score {
        Some(s) => s > 0,
        None => false,
    }
}

/// The paths of the candidates whose file name matches `query`, in the order
/// given, outside excluded and (unless shown) hidden subtrees.
pub fn search(
    candidates: &Vec<Candidate>,
    query: &str,
    show_hidden: bool,
    exclusions: &Vec<String>,
) -> (r: Vec<String>)
    ensures
        views(r@) == search_results(
            candidates@.map_values(|c: Candidate| c@),
            query@,
            show_hidden,
            views(exclusions@),
        ),
{
    let ghost cands = candidates@.map_values(|c: Candidate| c@);
    let mut out: Vec<String> = Vec::new();
    let mut i: usize = 0;
    while i < candidates.len()
        invariant
            i <= candidates.len(),
            cands == candidates@.map_values(|c: Candidate| c@),
            views(out@) == search_results(
                cands.subrange(0, i as int),
                query@,
                show_hidden,
                views(exclusions@),
            ),
        decreases candidates.len() - i,
    {
        let c = &candidates[i];
        let n = c.components.len();
        assert(cands.subrange(0, i + 1).drop_last() =~= cands.subrange(0, i as int));
        assert(cands.subrange(0, i + 1).last() == c@);
        if n > 0 {
            let score = fuzzy_score(query, c.components[n - 1].as_str());
            assert(views(c.components@).last() == c.components@[n - 1]@);
            if keep_candidate(&c.components, score, show_hidden, exclusions) {
                let ghost before = views(out@);
                out.push(c.path.clone());
                assert(views(out@) =~= before.push(c.path@));
            }
        }
        i = i + 1;
    }
    assert(cands.subrange(0, candidates.len() as int) =~= cands);
    out
}

} // verus!
